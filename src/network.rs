use vstd::prelude::*;

use crate::types::Multiaddr;

verus! {

/// Where the coordinator stands in its life.
#[derive(Clone, Copy, PartialEq, Eq, Structural)]
pub enum Phase {
    /// Waiting for the first listen address.
    Starting,
    /// Draining the store's intents.
    Intents,
    /// Draining the swarm's events.
    Swarm,
    /// A pass found both sources empty: suspended until one of them has work.
    Idle,
    /// A source closed: the coordinator is done.
    Stopped,
    /// The listener closed before any address was bound.
    Failed,
}

/// What polling a source reported.
#[derive(Clone, Copy, PartialEq, Eq, Structural)]
pub enum Readiness {
    /// An item was taken from the source.
    Ready,
    /// The source is closed.
    Closed,
    /// The source has nothing for now.
    Pending,
}

/// What the driver of the coordinator does next.
#[derive(Clone, Copy, PartialEq, Eq, Structural)]
pub enum Directive {
    PollIntents,
    PollSwarm,
    Wait,
    Stop,
}

/// The addresses the node listens on, and those it announces as reachable.
pub struct NetworkConfig {
    pub listen_addresses: Vec<Multiaddr>,
    pub public_addresses: Vec<Multiaddr>,
}

/// A step of the startup sequence, performed on the swarm.
pub enum SetupAction {
    ListenOn(Multiaddr),
    AddExternalAddress(Multiaddr),
}

pub enum SetupActionView {
    ListenOn(Seq<u8>),
    AddExternalAddress(Seq<u8>),
}

impl View for SetupAction {
    type V = SetupActionView;

    open spec fn view(&self) -> SetupActionView {
        match self {
            SetupAction::ListenOn(a) => SetupActionView::ListenOn(a@),
            SetupAction::AddExternalAddress(a) => SetupActionView::AddExternalAddress(a@),
        }
    }
}

pub open spec fn setup_view(s: Seq<SetupAction>) -> Seq<SetupActionView> {
    s.map_values(|a: SetupAction| a@)
}

/// Listen on every listen address, then register every public address as
/// reachable, in configuration order.
pub open spec fn setup_plan(listen: Seq<Multiaddr>, public: Seq<Multiaddr>) -> Seq<SetupActionView> {
    listen.map_values(|a: Multiaddr| SetupActionView::ListenOn(a@)) + public.map_values(
        |a: Multiaddr| SetupActionView::AddExternalAddress(a@),
    )
}

/// What the swarm reports while the node starts.
pub enum ListenEvent {
    NewListenAddr(Multiaddr),
    ListenerClosed(String),
    Other,
}

/// A fatal startup error.
pub enum StartupError {
    /// The listener closed before an address was bound, for this reason.
    ListenerClosed(String),
}

/// The coordinator between the block store and the swarm. Passes repeat,
/// intents first, until a whole pass finds both sources empty.
pub struct Network {
    phase: Phase,
    /// Whether the current pass has taken an item from either source.
    worked: bool,
}

impl Network {
    pub closed spec fn state(&self) -> Phase {
        self.phase
    }

    pub closed spec fn has_worked(&self) -> bool {
        self.worked
    }

    pub fn phase(&self) -> (r: Phase)
        ensures
            r == self.state(),
    {
        self.phase
    }

    /// A coordinator waiting for its first listen address, and the setup
    /// steps to perform on the swarm.
    pub fn new(config: &NetworkConfig) -> (r: (Network, Vec<SetupAction>))
        ensures
            r.0.state() == Phase::Starting,
            setup_view(r.1@) == setup_plan(config.listen_addresses@, config.public_addresses@),
    {
        let mut steps: Vec<SetupAction> = Vec::new();
        let ghost plan = setup_plan(config.listen_addresses@, config.public_addresses@);
        let ghost nl = config.listen_addresses@.len();
        let mut i: usize = 0;
        while i < config.listen_addresses.len()
            invariant
                i <= nl,
                nl == config.listen_addresses@.len(),
                plan == setup_plan(config.listen_addresses@, config.public_addresses@),
                setup_view(steps@) == plan.take(i as int),
            decreases nl - i,
        {
            let ghost prev = steps@;
            steps.push(SetupAction::ListenOn(config.listen_addresses[i].duplicate()));
            proof {
                assert(steps@ == prev.push(steps@.last()));
                assert(steps@.last()@ == SetupActionView::ListenOn(
                    config.listen_addresses@[i as int]@,
                ));
                assert(plan[i as int] == SetupActionView::ListenOn(
                    config.listen_addresses@[i as int]@,
                ));
                assert(setup_view(steps@) =~= setup_view(prev).push(steps@.last()@));
                assert(plan.len() == config.listen_addresses@.len() + config.public_addresses@.len());
                assert(setup_view(steps@) =~= plan.take(i + 1));
            }
            i = i + 1;
        }
        let mut j: usize = 0;
        while j < config.public_addresses.len()
            invariant
                j <= config.public_addresses@.len(),
                nl == config.listen_addresses@.len(),
                plan == setup_plan(config.listen_addresses@, config.public_addresses@),
                setup_view(steps@) == plan.take(nl + j),
            decreases config.public_addresses@.len() - j,
        {
            let ghost prev = steps@;
            steps.push(SetupAction::AddExternalAddress(config.public_addresses[j].duplicate()));
            proof {
                assert(steps@ == prev.push(steps@.last()));
                assert(steps@.last()@ == SetupActionView::AddExternalAddress(
                    config.public_addresses@[j as int]@,
                ));
                assert(plan[nl + j] == SetupActionView::AddExternalAddress(
                    config.public_addresses@[j as int]@,
                ));
                assert(setup_view(steps@) =~= setup_view(prev).push(steps@.last()@));
                assert(plan.len() == config.listen_addresses@.len() + config.public_addresses@.len());
                assert(setup_view(steps@) =~= plan.take(nl + j + 1));
            }
            j = j + 1;
        }
        proof {
            assert(plan.take(nl + j) =~= plan);
        }
        (Network { phase: Phase::Starting, worked: false }, steps)
    }

    /// Startup: the first bound address ends it with success, a closed
    /// listener ends it with that failure, anything else is ignored.
    pub fn on_listen_event(&mut self, event: ListenEvent) -> (r: Option<Result<Multiaddr, StartupError>>)
        requires
            old(self).state() == Phase::Starting,
        ensures
            match event {
                ListenEvent::NewListenAddr(a) => final(self).state() == Phase::Intents
                    && !final(self).has_worked() && (
                r matches Some(Ok(b)) && b@ == a@),
                ListenEvent::ListenerClosed(why) => final(self).state() == Phase::Failed && (
                r matches Some(Err(StartupError::ListenerClosed(w))) && w@ == why@),
                ListenEvent::Other => final(self).state() == Phase::Starting && r is None,
            },
    {
        match event {
            ListenEvent::NewListenAddr(a) => {
                self.phase = Phase::Intents;
                self.worked = false;
                Some(Ok(a))
            },
            ListenEvent::ListenerClosed(why) => {
                self.phase = Phase::Failed;
                Some(Err(StartupError::ListenerClosed(why)))
            },
            ListenEvent::Other => None,
        }
    }

    /// After polling the store's intents: an intent keeps the coordinator on
    /// intents, a closed store stops it, an empty one hands over to the swarm.
    pub fn after_intent_poll(&mut self, polled: Readiness) -> (r: Directive)
        requires
            old(self).state() == Phase::Intents,
        ensures
            polled == Readiness::Ready ==> final(self).state() == Phase::Intents && r
                == Directive::PollIntents && final(self).has_worked(),
            polled != Readiness::Ready ==> final(self).has_worked() == old(self).has_worked(),
            polled == Readiness::Closed ==> final(self).state() == Phase::Stopped && r
                == Directive::Stop,
            polled == Readiness::Pending ==> final(self).state() == Phase::Swarm && r
                == Directive::PollSwarm,
    {
        match polled {
            Readiness::Ready => {
                self.worked = true;
                Directive::PollIntents
            },
            Readiness::Closed => {
                self.phase = Phase::Stopped;
                Directive::Stop
            },
            Readiness::Pending => {
                self.phase = Phase::Swarm;
                Directive::PollSwarm
            },
        }
    }

    /// After polling the swarm: an event keeps the coordinator on the swarm,
    /// a closed swarm stops it. An empty one ends the pass: if the pass did
    /// any work, actions may have made a source ready, so a new pass starts
    /// with the intents; otherwise the coordinator suspends.
    pub fn after_swarm_poll(&mut self, polled: Readiness) -> (r: Directive)
        requires
            old(self).state() == Phase::Swarm,
        ensures
            polled == Readiness::Ready ==> final(self).state() == Phase::Swarm && r
                == Directive::PollSwarm && final(self).has_worked(),
            polled == Readiness::Closed ==> final(self).state() == Phase::Stopped && r
                == Directive::Stop,
            polled == Readiness::Pending && old(self).has_worked() ==> final(self).state()
                == Phase::Intents && r == Directive::PollIntents && !final(self).has_worked(),
            polled == Readiness::Pending && !old(self).has_worked() ==> final(self).state()
                == Phase::Idle && r == Directive::Wait,
    {
        match polled {
            Readiness::Ready => {
                self.worked = true;
                Directive::PollSwarm
            },
            Readiness::Closed => {
                self.phase = Phase::Stopped;
                Directive::Stop
            },
            Readiness::Pending => {
                if self.worked {
                    self.phase = Phase::Intents;
                    self.worked = false;
                    Directive::PollIntents
                } else {
                    self.phase = Phase::Idle;
                    Directive::Wait
                }
            },
        }
    }

    /// A new scheduling pass always starts with the intents.
    pub fn wake(&mut self) -> (r: Directive)
        requires
            old(self).state() == Phase::Idle,
        ensures
            final(self).state() == Phase::Intents,
            !final(self).has_worked(),
            r == Directive::PollIntents,
    {
        self.phase = Phase::Intents;
        self.worked = false;
        Directive::PollIntents
    }
}

} // verus!
