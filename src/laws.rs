use vstd::prelude::*;

use crate::handlers::{intent_action, WANT_PRIORITY};
use crate::replay::{blocks_after, event_effects, intent_effects};
use crate::store::find_block;
use crate::types::{EffectView, IntentView, NetEventView, SwarmActionView};

verus! {

/// With no swarm activity, a pass yields exactly the intents mapped one by
/// one through the action table, in order, and leaves the store alone.
pub proof fn intents_without_swarm_activity(
    blocks: Seq<(Seq<u8>, Seq<u8>)>,
    public: Seq<Option<Seq<u8>>>,
    intents: Seq<IntentView>,
)
    ensures
        ({
            let out = intent_effects(blocks, intents) + event_effects(blocks, public, Seq::empty());
            &&& out.len() == intents.len()
            &&& forall|k: int|
                0 <= k < intents.len() ==> #[trigger] out[k] == EffectView::Act(
                    intent_action(blocks, intents[k]),
                )
        }),
        blocks_after(blocks, Seq::empty()) == blocks,
        forall|c: Seq<u8>|
            intent_action(blocks, IntentView::Want(c)) == SwarmActionView::Want(c, WANT_PRIORITY),
        forall|c: Seq<u8>|
            intent_action(blocks, IntentView::Cancel(c)) == SwarmActionView::Cancel(c),
        forall|c: Seq<u8>|
            intent_action(blocks, IntentView::Unprovide(c)) == SwarmActionView::Unprovide(c),
{
    assert(intent_effects(blocks, intents) + event_effects(blocks, public, Seq::empty())
        =~= intent_effects(blocks, intents));
}

/// Cancel and Unprovide need no prior want or provide: alone in a pass, each
/// yields its one swarm action, whatever the store holds, and changes nothing
/// else.
pub proof fn cancel_and_unprovide_stand_alone(
    blocks: Seq<(Seq<u8>, Seq<u8>)>,
    public: Seq<Option<Seq<u8>>>,
    cid: Seq<u8>,
)
    ensures
        intent_effects(blocks, seq![IntentView::Cancel(cid)]) + event_effects(
            blocks,
            public,
            Seq::empty(),
        ) == seq![EffectView::Act(SwarmActionView::Cancel(cid))],
        intent_effects(blocks, seq![IntentView::Unprovide(cid)]) + event_effects(
            blocks,
            public,
            Seq::empty(),
        ) == seq![EffectView::Act(SwarmActionView::Unprovide(cid))],
        blocks_after(blocks, Seq::empty()) == blocks,
{
    assert(intent_effects(blocks, seq![IntentView::Cancel(cid)]) + event_effects(
        blocks,
        public,
        Seq::empty(),
    ) =~= seq![EffectView::Act(SwarmActionView::Cancel(cid))]);
    assert(intent_effects(blocks, seq![IntentView::Unprovide(cid)]) + event_effects(
        blocks,
        public,
        Seq::empty(),
    ) =~= seq![EffectView::Act(SwarmActionView::Unprovide(cid))]);
}

/// A block received from a peer is what a local lookup of its identifier
/// then returns, unchanged.
pub proof fn received_block_round_trip(
    blocks: Seq<(Seq<u8>, Seq<u8>)>,
    earlier: Seq<NetEventView>,
    peer: Seq<u8>,
    cid: Seq<u8>,
    data: Seq<u8>,
)
    ensures
        find_block(
            blocks_after(blocks, earlier.push(NetEventView::ReceivedBlock(peer, cid, data))),
            cid,
        ) == Some(data),
{
    let evs = earlier.push(NetEventView::ReceivedBlock(peer, cid, data));
    assert(evs.drop_last() =~= earlier);
    let after = blocks_after(blocks, evs);
    assert(after == blocks_after(blocks, earlier).push((cid, data)));
    assert(after.last() == (cid, data));
}

/// A Cancel queued in the same pass as a block received for the same
/// identifier reaches the swarm before the block is stored.
pub proof fn cancel_precedes_received_block(
    blocks: Seq<(Seq<u8>, Seq<u8>)>,
    public: Seq<Option<Seq<u8>>>,
    peer: Seq<u8>,
    cid: Seq<u8>,
    data: Seq<u8>,
)
    ensures
        intent_effects(blocks, seq![IntentView::Cancel(cid)]) + event_effects(
            blocks,
            public,
            seq![NetEventView::ReceivedBlock(peer, cid, data)],
        ) == seq![
            EffectView::Act(SwarmActionView::Cancel(cid)),
            EffectView::Insert(cid, data),
        ],
{
    let evs = seq![NetEventView::ReceivedBlock(peer, cid, data)];
    assert(evs.drop_last() =~= Seq::<NetEventView>::empty());
    assert(evs.last() == NetEventView::ReceivedBlock(peer, cid, data));
    assert(event_effects(blocks, public, Seq::<NetEventView>::empty()) == Seq::<EffectView>::empty());
    assert(blocks_after(blocks, Seq::<NetEventView>::empty()) == blocks);
    assert(event_effects(blocks, public, evs) =~= seq![EffectView::Insert(cid, data)]);
    assert(intent_effects(blocks, seq![IntentView::Cancel(cid)]) + event_effects(
        blocks,
        public,
        evs,
    ) =~= seq![EffectView::Act(SwarmActionView::Cancel(cid)), EffectView::Insert(cid, data)]);
}

} // verus!
