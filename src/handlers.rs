use vstd::prelude::*;

use crate::store::find_block;
use crate::types::{
    Block, Cid, Effect, EffectView, Failure, FailureView, Intent, IntentView, NetEvent, PeerId,
    StorageError, SwarmAction, SwarmActionView,
};

verus! {

/// The priority weight attached to every want.
pub const WANT_PRIORITY: u64 = 1000;

/// What a local lookup reported, reduced to the payload found: a failed lookup
/// counts as absence.
pub open spec fn lookup_view(lookup: Result<Option<Vec<u8>>, StorageError>) -> Option<Seq<u8>> {
    match lookup {
        Ok(Some(d)) => Some(d@),
        _ => None,
    }
}

/// Provide advertises and pushes the block when it is available locally, and
/// advertises only otherwise.
pub open spec fn provide_choice(cid: Seq<u8>, local: Option<Seq<u8>>) -> SwarmActionView {
    match local {
        Some(d) => SwarmActionView::ProvideAndSend(cid, d),
        None => SwarmActionView::Provide(cid),
    }
}

/// The swarm action that an intent maps to, given the blocks held locally.
pub open spec fn intent_action(blocks: Seq<(Seq<u8>, Seq<u8>)>, i: IntentView) -> SwarmActionView {
    match i {
        IntentView::Want(c) => SwarmActionView::Want(c, WANT_PRIORITY),
        IntentView::Cancel(c) => SwarmActionView::Cancel(c),
        IntentView::Provide(c) => provide_choice(c, find_block(blocks, c)),
        IntentView::Unprovide(c) => SwarmActionView::Unprovide(c),
    }
}

/// One provide for each public identifier that could be read, one logged
/// failure for each entry that could not, in enumeration order.
pub open spec fn public_effects(public: Seq<Option<Seq<u8>>>) -> Seq<EffectView> {
    public.map_values(
        |e: Option<Seq<u8>>|
            match e {
                Some(c) => EffectView::Act(SwarmActionView::Provide(c)),
                None => EffectView::Fail(FailureView::ReadPublic),
            },
    )
}

/// The connection made on a provider set: the first peer of the set.
pub open spec fn provider_effect(cid: Seq<u8>, peers: Seq<Seq<u8>>) -> EffectView {
    if peers.len() > 0 {
        EffectView::Act(SwarmActionView::Connect(peers[0]))
    } else {
        EffectView::Fail(FailureView::EmptyProviders(cid))
    }
}

/// How to service an intent: an action right away, or a local lookup first.
pub enum IntentPlan {
    Act(SwarmAction),
    LookupThenProvide(Cid),
}

pub fn plan_intent(intent: Intent) -> (r: IntentPlan)
    ensures
        match intent@ {
            IntentView::Provide(c) => r matches IntentPlan::LookupThenProvide(k) && k@ == c,
            _ => r matches IntentPlan::Act(a) && forall|blocks: Seq<(Seq<u8>, Seq<u8>)>|
                #[trigger] intent_action(blocks, intent@) == a@,
        },
{
    match intent {
        Intent::Want(c) => IntentPlan::Act(SwarmAction::Want(c, WANT_PRIORITY)),
        Intent::Cancel(c) => IntentPlan::Act(SwarmAction::Cancel(c)),
        Intent::Provide(c) => IntentPlan::LookupThenProvide(c),
        Intent::Unprovide(c) => IntentPlan::Act(SwarmAction::Unprovide(c)),
    }
}

/// The action for Provide(cid) once the local lookup has answered. A failed
/// lookup falls back to advertising only.
pub fn provide_action(cid: Cid, lookup: Result<Option<Vec<u8>>, StorageError>) -> (r: SwarmAction)
    ensures
        r@ == provide_choice(cid@, lookup_view(lookup)),
{
    match lookup {
        Ok(Some(d)) => SwarmAction::ProvideAndSend(cid, d),
        _ => SwarmAction::Provide(cid),
    }
}

/// How to service a swarm event.
pub enum EventPlan {
    /// Store the received block.
    Insert(Block),
    /// Look the block up and send it to the peer that asked for it.
    LookupThenSend(PeerId, Cid),
    /// Record this effect.
    Emit(Effect),
    /// Advertise every public block.
    ProvidePublic,
    /// Nothing to do: the retrieval of this block stays unresolved.
    Unresolved(Cid),
}

pub fn plan_event(event: NetEvent) -> (r: EventPlan)
    ensures
        match event@ {
            crate::types::NetEventView::ReceivedBlock(_, c, d) => r matches EventPlan::Insert(b)
                && b@ == (c, d),
            crate::types::NetEventView::ReceivedWant(p, c) => r matches EventPlan::LookupThenSend(
                q,
                k,
            ) && q@ == p && k@ == c,
            crate::types::NetEventView::Providers(c, ps) => r matches EventPlan::Emit(e) && e@
                == provider_effect(c, ps),
            crate::types::NetEventView::NoProviders(c) => r matches EventPlan::Unresolved(k) && k@
                == c,
            crate::types::NetEventView::BootstrapComplete => r is ProvidePublic,
        },
{
    match event {
        NetEvent::ReceivedBlock(_, c, d) => EventPlan::Insert(Block::new(c, d)),
        NetEvent::ReceivedWant(p, c) => EventPlan::LookupThenSend(p, c),
        NetEvent::Providers(c, ps) => EventPlan::Emit(provider_connect(c, &ps)),
        NetEvent::NoProviders(c) => EventPlan::Unresolved(c),
        NetEvent::BootstrapComplete => EventPlan::ProvidePublic,
    }
}

/// Picks the peer to connect to from a provider set: the first one.
pub fn choose_provider(peers: &Vec<PeerId>) -> (r: Option<PeerId>)
    ensures
        peers@.len() > 0 ==> (r matches Some(p) && p@ == peers@[0]@),
        peers@.len() == 0 ==> r is None,
{
    if peers.len() > 0 {
        Some(peers[0].duplicate())
    } else {
        None
    }
}

/// A connection to one peer of the set; an empty set is a fault of the
/// networking layer, logged and otherwise ignored.
pub fn provider_connect(cid: Cid, peers: &Vec<PeerId>) -> (r: Effect)
    ensures
        r@ == provider_effect(cid@, crate::types::peers_view(peers@)),
{
    match choose_provider(peers) {
        Some(p) => Effect::Act(SwarmAction::Connect(p)),
        None => Effect::Fail(Failure::EmptyProviders(cid)),
    }
}

/// The answer to a peer that asked for a block, once the local lookup has
/// answered: the block if it is held, nothing if it is not, a logged failure
/// if the lookup failed.
pub fn want_reply(peer: PeerId, cid: Cid, lookup: Result<Option<Vec<u8>>, StorageError>) -> (r:
    Option<Effect>)
    ensures
        match lookup {
            Ok(Some(d)) => r matches Some(e) && e@ == EffectView::Act(
                SwarmActionView::Send(peer@, cid@, d@),
            ),
            Ok(None) => r is None,
            Err(_) => r matches Some(e) && e@ == EffectView::Fail(FailureView::LookupBlock(cid@)),
        },
{
    match lookup {
        Ok(Some(d)) => Some(Effect::Act(SwarmAction::Send(peer, cid, d))),
        Ok(None) => None,
        Err(_) => Some(Effect::Fail(Failure::LookupBlock(cid))),
    }
}

/// The effects of bootstrap completion: every readable public identifier is
/// provided, every unreadable entry is logged, and one failure does not stop
/// the enumeration.
pub fn provide_public(entries: &Vec<Result<Cid, StorageError>>) -> (r: Vec<Effect>)
    ensures
        crate::types::effects_view(r@) == public_effects(crate::store::public_view(entries@)),
{
    let mut out: Vec<Effect> = Vec::new();
    let mut i: usize = 0;
    while i < entries.len()
        invariant
            i <= entries@.len(),
            crate::types::effects_view(out@) == public_effects(
                crate::store::public_view(entries@),
            ).take(i as int),
        decreases entries@.len() - i,
    {
        let e = match &entries[i] {
            Ok(c) => Effect::Act(SwarmAction::Provide(c.duplicate())),
            Err(_) => Effect::Fail(Failure::ReadPublic),
        };
        proof {
            let pv = crate::store::public_view(entries@);
            assert(pv[i as int] == match entries@[i as int] {
                Ok(c) => Some(c@),
                Err(_) => None::<Seq<u8>>,
            });
            assert(e@ == public_effects(pv)[i as int]);
        }
        let ghost prev = out@;
        out.push(e);
        i = i + 1;
        proof {
            assert(out@ == prev.push(e));
            assert(crate::types::effects_view(out@) =~= crate::types::effects_view(prev).push(e@));
            assert(crate::types::effects_view(out@) =~= public_effects(
                crate::store::public_view(entries@),
            ).take(i as int));
        }
    }
    proof {
        assert(public_effects(crate::store::public_view(entries@)).take(i as int) =~= public_effects(
            crate::store::public_view(entries@),
        ));
    }
    out
}

} // verus!
