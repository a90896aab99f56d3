use vstd::prelude::*;

use crate::handlers::{
    intent_action, plan_event, plan_intent, provide_action, provide_public, provider_effect,
    public_effects, want_reply, EventPlan, IntentPlan,
};
use crate::network::{Directive, Network, Phase, Readiness};
use crate::store::{find_block, MemStore};
use crate::types::{
    effects_view, Block, Effect, EffectView, Intent, IntentView, NetEvent, NetEventView,
    SwarmActionView,
};

verus! {

pub open spec fn intents_view(s: Seq<Intent>) -> Seq<IntentView> {
    s.map_values(|i: Intent| i@)
}

pub open spec fn events_view(s: Seq<NetEvent>) -> Seq<NetEventView> {
    s.map_values(|e: NetEvent| e@)
}

/// Intents only ever produce swarm actions, one each, in order.
pub open spec fn intent_effects(blocks: Seq<(Seq<u8>, Seq<u8>)>, intents: Seq<IntentView>) -> Seq<
    EffectView,
> {
    intents.map_values(|i: IntentView| EffectView::Act(intent_action(blocks, i)))
}

/// The store after an event: only a received block changes it.
pub open spec fn apply_event(blocks: Seq<(Seq<u8>, Seq<u8>)>, e: NetEventView) -> Seq<
    (Seq<u8>, Seq<u8>),
> {
    match e {
        NetEventView::ReceivedBlock(_, c, d) => blocks.push((c, d)),
        _ => blocks,
    }
}

/// What servicing one swarm event does, given the blocks held and the public
/// enumeration.
pub open spec fn event_effect(
    blocks: Seq<(Seq<u8>, Seq<u8>)>,
    public: Seq<Option<Seq<u8>>>,
    e: NetEventView,
) -> Seq<EffectView> {
    match e {
        NetEventView::ReceivedBlock(_, c, d) => seq![EffectView::Insert(c, d)],
        NetEventView::ReceivedWant(p, c) => match find_block(blocks, c) {
            Some(d) => seq![EffectView::Act(SwarmActionView::Send(p, c, d))],
            None => Seq::empty(),
        },
        NetEventView::Providers(c, ps) => seq![provider_effect(c, ps)],
        NetEventView::NoProviders(_) => Seq::empty(),
        NetEventView::BootstrapComplete => public_effects(public),
    }
}

/// The store after a sequence of events.
pub open spec fn blocks_after(blocks: Seq<(Seq<u8>, Seq<u8>)>, events: Seq<NetEventView>) -> Seq<
    (Seq<u8>, Seq<u8>),
>
    decreases events.len(),
{
    if events.len() == 0 {
        blocks
    } else {
        apply_event(blocks_after(blocks, events.drop_last()), events.last())
    }
}

/// The effects of a sequence of events, serviced in arrival order.
pub open spec fn event_effects(
    blocks: Seq<(Seq<u8>, Seq<u8>)>,
    public: Seq<Option<Seq<u8>>>,
    events: Seq<NetEventView>,
) -> Seq<EffectView>
    decreases events.len(),
{
    if events.len() == 0 {
        Seq::empty()
    } else {
        event_effects(blocks, public, events.drop_last()) + event_effect(
            blocks_after(blocks, events.drop_last()),
            public,
            events.last(),
        )
    }
}

impl Network {
    /// Runs the coordinator over scripted sources until it suspends or stops:
    /// every queued intent is serviced before any swarm event is looked at; a
    /// closed intent source stops the coordinator before the swarm is polled;
    /// a closed swarm stops it after its queued events; otherwise it ends
    /// suspended, after a last pass that finds both sources empty.
    pub fn run_scripted(
        &mut self,
        store: &mut MemStore,
        intents: Vec<Intent>,
        intents_closed: bool,
        events: Vec<NetEvent>,
        events_closed: bool,
    ) -> (r: Vec<Effect>)
        requires
            old(self).state() == Phase::Intents || old(self).state() == Phase::Idle,
        ensures
            ({
                let b0 = old(store).blocks_view();
                let pb = old(store).public_view();
                let ie = intent_effects(b0, intents_view(intents@));
                let ev = events_view(events@);
                &&& final(store).public == old(store).public
                &&& intents_closed ==> {
                    &&& effects_view(r@) == ie
                    &&& final(store).blocks_view() == b0
                    &&& final(self).state() == Phase::Stopped
                }
                &&& !intents_closed ==> {
                    &&& effects_view(r@) == ie + event_effects(b0, pb, ev)
                    &&& final(store).blocks_view() == blocks_after(b0, ev)
                    &&& final(self).state() == if events_closed {
                        Phase::Stopped
                    } else {
                        Phase::Idle
                    }
                }
            }),
    {
        if self.phase() == Phase::Idle {
            self.wake();
        }
        let ghost b0 = store.blocks_view();
        let ghost pb = store.public_view();
        let ghost gi = intents@;
        let ghost ge = events@;
        let mut out: Vec<Effect> = Vec::new();
        let mut rest = intents;
        let mut k: usize = 0;
        let n = rest.len();
        while k < n
            invariant
                n == gi.len(),
                k <= n,
                rest@ == gi.subrange(k as int, n as int),
                self.state() == Phase::Intents,
                store.blocks_view() == b0,
                store.public == old(store).public,
                effects_view(out@) == intent_effects(b0, intents_view(gi.take(k as int))),
            decreases n - k,
        {
            proof {
                assert(rest@.len() > 0);
            }
            let it = rest.remove(0);
            self.after_intent_poll(Readiness::Ready);
            let ghost iv = it@;
            let e = match plan_intent(it) {
                IntentPlan::Act(a) => {
                    proof {
                        assert(intent_action(b0, iv) == a@);
                    }
                    Effect::Act(a)
                },
                IntentPlan::LookupThenProvide(c) => {
                    let l = store.get_local(&c);
                    Effect::Act(provide_action(c, Ok(l)))
                },
            };
            let ghost prev = out@;
            out.push(e);
            proof {
                assert(rest@ =~= gi.subrange(k + 1, n as int));
                assert(iv == gi[k as int]@);
                assert(e@ == EffectView::Act(intent_action(b0, iv)));
                assert(out@ == prev.push(e));
                assert(effects_view(out@) =~= effects_view(prev).push(e@));
                assert(intents_view(gi.take(k + 1)) =~= intents_view(gi.take(k as int)).push(iv));
                assert(effects_view(out@) =~= intent_effects(b0, intents_view(gi.take(k + 1))));
            }
            k = k + 1;
        }
        proof {
            assert(gi.take(n as int) =~= gi);
        }
        if intents_closed {
            self.after_intent_poll(Readiness::Closed);
            return out;
        }
        self.after_intent_poll(Readiness::Pending);
        let ghost mid = effects_view(out@);
        let mut evs = events;
        let mut m: usize = 0;
        let en = evs.len();
        proof {
            assert(events_view(ge.take(0)) =~= Seq::<NetEventView>::empty());
            assert(effects_view(out@) =~= mid + event_effects(b0, pb, events_view(ge.take(0))));
        }
        while m < en
            invariant
                en == ge.len(),
                m <= en,
                evs@ == ge.subrange(m as int, en as int),
                self.state() == Phase::Swarm,
                store.public == old(store).public,
                pb == store.public_view(),
                store.blocks_view() == blocks_after(b0, events_view(ge.take(m as int))),
                effects_view(out@) == mid + event_effects(b0, pb, events_view(ge.take(m as int))),
            decreases en - m,
        {
            proof {
                assert(evs@.len() > 0);
            }
            let ev = evs.remove(0);
            self.after_swarm_poll(Readiness::Ready);
            let ghost evv = ev@;
            let ghost cur = store.blocks_view();
            let ghost prev = effects_view(out@);
            match plan_event(ev) {
                EventPlan::Insert(b) => {
                    out.push(Effect::Insert(Block::new(b.cid.duplicate(), b.data.clone())));
                    store.insert(b);
                },
                EventPlan::LookupThenSend(p, c) => {
                    let l = store.get_local(&c);
                    match want_reply(p, c, Ok(l)) {
                        Some(e) => out.push(e),
                        None => {},
                    }
                },
                EventPlan::Emit(e) => out.push(e),
                EventPlan::ProvidePublic => {
                    let mut es = provide_public(&store.public);
                    out.append(&mut es);
                },
                EventPlan::Unresolved(_) => {},
            }
            proof {
                let ms = events_view(ge.take(m + 1));
                assert(ms.drop_last() =~= events_view(ge.take(m as int)));
                assert(ms.last() == evv);
                assert(evs@ =~= ge.subrange(m + 1, en as int));
                assert(store.blocks_view() == apply_event(cur, evv));
                assert(effects_view(out@) =~= prev + event_effect(cur, pb, evv));
            }
            m = m + 1;
        }
        proof {
            assert(ge.take(en as int) =~= ge);
        }
        if events_closed {
            self.after_swarm_poll(Readiness::Closed);
        } else if self.after_swarm_poll(Readiness::Pending) == Directive::PollIntents {
            // Both scripted sources are drained: the next pass finds them empty.
            self.after_intent_poll(Readiness::Pending);
            self.after_swarm_poll(Readiness::Pending);
        }
        out
    }
}

} // verus!
