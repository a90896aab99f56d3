use blockswap::handlers::{
    choose_provider, plan_event, plan_intent, provide_action, provide_public, provider_connect,
    want_reply, EventPlan, IntentPlan, WANT_PRIORITY,
};
use blockswap::network::{ListenEvent, Phase, Readiness, SetupAction, StartupError, Directive};
use blockswap::store::MemStore;
use blockswap::types::{Block, Cid, Effect, Failure, Intent, NetEvent, PeerId, StorageError, SwarmAction};
use blockswap::{Network, NetworkConfig};

fn cid(b: &[u8]) -> Cid {
    Cid::new(b.to_vec())
}

fn peer(b: &[u8]) -> PeerId {
    PeerId::new(b.to_vec())
}

fn err() -> StorageError {
    StorageError { message: "disk fault".to_string() }
}

fn action(a: &SwarmAction) -> String {
    match a {
        SwarmAction::Want(c, w) => format!("want({:?},{})", c.bytes, w),
        SwarmAction::Cancel(c) => format!("cancel({:?})", c.bytes),
        SwarmAction::Provide(c) => format!("provide({:?})", c.bytes),
        SwarmAction::ProvideAndSend(c, d) => format!("provide_and_send({:?},{:?})", c.bytes, d),
        SwarmAction::Unprovide(c) => format!("unprovide({:?})", c.bytes),
        SwarmAction::Send(p, c, d) => format!("send({:?},{:?},{:?})", p.bytes, c.bytes, d),
        SwarmAction::Connect(p) => format!("connect({:?})", p.bytes),
    }
}

fn effect(e: &Effect) -> String {
    match e {
        Effect::Act(a) => action(a),
        Effect::Insert(b) => format!("insert({:?},{:?})", b.cid.bytes, b.data),
        Effect::Fail(Failure::LookupBlock(c)) => format!("lookup_failed({:?})", c.bytes),
        Effect::Fail(Failure::InsertBlock(c)) => format!("insert_failed({:?})", c.bytes),
        Effect::Fail(Failure::ReadPublic) => "public_read_failed".to_string(),
        Effect::Fail(Failure::EmptyProviders(c)) => format!("no_peer_in_set({:?})", c.bytes),
    }
}

fn effects(es: &[Effect]) -> Vec<String> {
    es.iter().map(effect).collect()
}

fn running() -> Network {
    let config = NetworkConfig { listen_addresses: vec![], public_addresses: vec![] };
    let (mut net, _) = Network::new(&config);
    let r = net.on_listen_event(ListenEvent::NewListenAddr(blockswap::types::Multiaddr::new(vec![1])));
    assert!(matches!(r, Some(Ok(_))));
    net
}

#[test]
fn intents_alone_map_one_to_one_in_order() {
    let mut net = running();
    let mut store = MemStore::new(vec![]);
    store.insert(Block::new(cid(b"p"), vec![7, 8]));
    let intents = vec![
        Intent::Want(cid(b"a")),
        Intent::Provide(cid(b"p")),
        Intent::Provide(cid(b"q")),
        Intent::Cancel(cid(b"a")),
        Intent::Unprovide(cid(b"p")),
    ];
    let out = net.run_scripted(&mut store, intents, false, vec![], false);
    assert_eq!(
        effects(&out),
        vec![
            format!("want({:?},1000)", b"a".to_vec()),
            format!("provide_and_send({:?},{:?})", b"p".to_vec(), vec![7u8, 8]),
            format!("provide({:?})", b"q".to_vec()),
            format!("cancel({:?})", b"a".to_vec()),
            format!("unprovide({:?})", b"p".to_vec()),
        ]
    );
    assert!(net.phase() == Phase::Idle);
}

#[test]
fn cancel_and_unprovide_without_prior_intent() {
    let mut net = running();
    let mut store = MemStore::new(vec![]);
    let out = net.run_scripted(
        &mut store,
        vec![Intent::Cancel(cid(b"x")), Intent::Unprovide(cid(b"y"))],
        false,
        vec![],
        false,
    );
    assert_eq!(
        effects(&out),
        vec![format!("cancel({:?})", b"x".to_vec()), format!("unprovide({:?})", b"y".to_vec())]
    );
    assert!(store.blocks.is_empty());
}

#[test]
fn received_block_is_then_found_locally() {
    let mut net = running();
    let mut store = MemStore::new(vec![]);
    let out = net.run_scripted(
        &mut store,
        vec![],
        false,
        vec![NetEvent::ReceivedBlock(peer(b"P"), cid(b"c"), vec![1, 2, 3])],
        false,
    );
    assert_eq!(effects(&out), vec![format!("insert({:?},{:?})", b"c".to_vec(), vec![1u8, 2, 3])]);
    assert_eq!(store.get_local(&cid(b"c")), Some(vec![1, 2, 3]));
}

#[test]
fn later_insert_replaces_earlier_payload() {
    let mut store = MemStore::new(vec![]);
    store.insert(Block::new(cid(b"c"), vec![1]));
    store.insert(Block::new(cid(b"d"), vec![2]));
    store.insert(Block::new(cid(b"c"), vec![3]));
    assert_eq!(store.get_local(&cid(b"c")), Some(vec![3]));
    assert_eq!(store.get_local(&cid(b"d")), Some(vec![2]));
    assert_eq!(store.get_local(&cid(b"e")), None);
}

#[test]
fn cancel_goes_out_before_queued_block() {
    let mut net = running();
    let mut store = MemStore::new(vec![]);
    let out = net.run_scripted(
        &mut store,
        vec![Intent::Cancel(cid(b"c"))],
        false,
        vec![NetEvent::ReceivedBlock(peer(b"P"), cid(b"c"), vec![9])],
        false,
    );
    assert_eq!(
        effects(&out),
        vec![format!("cancel({:?})", b"c".to_vec()), format!("insert({:?},{:?})", b"c".to_vec(), vec![9u8])]
    );
}

#[test]
fn provide_with_local_block_pushes_it() {
    let a = provide_action(cid(b"c"), Ok(Some(vec![4, 5])));
    assert_eq!(action(&a), format!("provide_and_send({:?},{:?})", b"c".to_vec(), vec![4u8, 5]));
}

#[test]
fn provide_without_local_block_advertises_only() {
    assert_eq!(action(&provide_action(cid(b"c"), Ok(None))), format!("provide({:?})", b"c".to_vec()));
    assert_eq!(action(&provide_action(cid(b"c"), Err(err()))), format!("provide({:?})", b"c".to_vec()));
}

#[test]
fn bootstrap_provides_readable_and_logs_unreadable() {
    let entries = vec![Ok(cid(b"A")), Err(err())];
    assert_eq!(
        effects(&provide_public(&entries)),
        vec![format!("provide({:?})", b"A".to_vec()), "public_read_failed".to_string()]
    );
    let mut net = running();
    let mut store = MemStore::new(vec![Ok(cid(b"A")), Err(err())]);
    let out = net.run_scripted(
        &mut store,
        vec![],
        false,
        vec![NetEvent::BootstrapComplete, NetEvent::NoProviders(cid(b"z")), NetEvent::BootstrapComplete],
        false,
    );
    assert_eq!(out.len(), 4);
    assert_eq!(effect(&out[2]), format!("provide({:?})", b"A".to_vec()));
    assert!(net.phase() == Phase::Idle);
}

#[test]
fn want_then_cancel_without_response() {
    let mut net = running();
    let mut store = MemStore::new(vec![]);
    let out = net.run_scripted(&mut store, vec![Intent::Want(cid(b"X"))], false, vec![], false);
    let out2 = net.run_scripted(&mut store, vec![Intent::Cancel(cid(b"X"))], false, vec![], false);
    assert_eq!(effects(&out), vec![format!("want({:?},1000)", b"X".to_vec())]);
    assert_eq!(effects(&out2), vec![format!("cancel({:?})", b"X".to_vec())]);
    assert!(store.blocks.is_empty());
    assert_eq!(WANT_PRIORITY, 1000);
}

#[test]
fn received_want_for_held_block_sends_it() {
    let mut net = running();
    let mut store = MemStore::new(vec![]);
    store.insert(Block::new(cid(b"Y"), vec![6, 6]));
    let out = net.run_scripted(&mut store, vec![], false, vec![NetEvent::ReceivedWant(peer(b"P"), cid(b"Y"))], false);
    assert_eq!(
        effects(&out),
        vec![format!("send({:?},{:?},{:?})", b"P".to_vec(), b"Y".to_vec(), vec![6u8, 6])]
    );
    assert_eq!(store.blocks.len(), 1);
}

#[test]
fn received_want_for_missing_block_does_nothing() {
    let mut net = running();
    let mut store = MemStore::new(vec![]);
    let out = net.run_scripted(&mut store, vec![], false, vec![NetEvent::ReceivedWant(peer(b"P"), cid(b"Y"))], false);
    assert!(out.is_empty());
}

#[test]
fn want_reply_covers_each_lookup_outcome() {
    let sent = want_reply(peer(b"P"), cid(b"Y"), Ok(Some(vec![1]))).unwrap();
    assert_eq!(effect(&sent), format!("send({:?},{:?},{:?})", b"P".to_vec(), b"Y".to_vec(), vec![1u8]));
    assert!(want_reply(peer(b"P"), cid(b"Y"), Ok(None)).is_none());
    let failed = want_reply(peer(b"P"), cid(b"Y"), Err(err())).unwrap();
    assert_eq!(effect(&failed), format!("lookup_failed({:?})", b"Y".to_vec()));
}

#[test]
fn providers_connect_to_one_peer_of_the_set() {
    let mut net = running();
    let mut store = MemStore::new(vec![]);
    let out = net.run_scripted(
        &mut store,
        vec![],
        false,
        vec![NetEvent::Providers(cid(b"Z"), vec![peer(b"P1"), peer(b"P2")])],
        false,
    );
    assert_eq!(out.len(), 1);
    let e = effect(&out[0]);
    assert!(e == format!("connect({:?})", b"P1".to_vec()) || e == format!("connect({:?})", b"P2".to_vec()));
    assert_eq!(choose_provider(&vec![peer(b"P1"), peer(b"P2")]).unwrap().bytes, b"P1".to_vec());
    assert!(choose_provider(&vec![]).is_none());
    assert_eq!(effect(&provider_connect(cid(b"Z"), &vec![])), format!("no_peer_in_set({:?})", b"Z".to_vec()));
}

#[test]
fn closed_intents_stop_before_swarm_events() {
    let mut net = running();
    let mut store = MemStore::new(vec![]);
    let out = net.run_scripted(
        &mut store,
        vec![Intent::Want(cid(b"a"))],
        true,
        vec![NetEvent::ReceivedBlock(peer(b"P"), cid(b"c"), vec![1])],
        false,
    );
    assert_eq!(effects(&out), vec![format!("want({:?},1000)", b"a".to_vec())]);
    assert!(store.blocks.is_empty());
    assert!(net.phase() == Phase::Stopped);
}

#[test]
fn closed_swarm_stops_after_its_queued_events() {
    let mut net = running();
    let mut store = MemStore::new(vec![]);
    let out = net.run_scripted(
        &mut store,
        vec![],
        false,
        vec![NetEvent::ReceivedBlock(peer(b"P"), cid(b"c"), vec![1])],
        true,
    );
    assert_eq!(out.len(), 1);
    assert!(net.phase() == Phase::Stopped);
}

#[test]
fn plans_follow_the_action_table() {
    assert!(matches!(plan_intent(Intent::Want(cid(b"a"))), IntentPlan::Act(SwarmAction::Want(_, 1000))));
    assert!(matches!(plan_intent(Intent::Provide(cid(b"a"))), IntentPlan::LookupThenProvide(_)));
    assert!(matches!(plan_event(NetEvent::NoProviders(cid(b"a"))), EventPlan::Unresolved(_)));
    assert!(matches!(plan_event(NetEvent::BootstrapComplete), EventPlan::ProvidePublic));
    assert!(matches!(plan_event(NetEvent::ReceivedWant(peer(b"P"), cid(b"a"))), EventPlan::LookupThenSend(_, _)));
}

#[test]
fn startup_sets_up_then_waits_for_an_address() {
    let config = NetworkConfig {
        listen_addresses: vec![blockswap::types::Multiaddr::new(vec![1]), blockswap::types::Multiaddr::new(vec![2])],
        public_addresses: vec![blockswap::types::Multiaddr::new(vec![3])],
    };
    let (mut net, steps) = Network::new(&config);
    let shown: Vec<String> = steps
        .iter()
        .map(|s| match s {
            SetupAction::ListenOn(a) => format!("listen{:?}", a.bytes),
            SetupAction::AddExternalAddress(a) => format!("external{:?}", a.bytes),
        })
        .collect();
    assert_eq!(shown, vec!["listen[1]", "listen[2]", "external[3]"]);
    assert!(net.phase() == Phase::Starting);
    assert!(net.on_listen_event(ListenEvent::Other).is_none());
    assert!(net.phase() == Phase::Starting);
    match net.on_listen_event(ListenEvent::NewListenAddr(blockswap::types::Multiaddr::new(vec![5]))) {
        Some(Ok(a)) => assert_eq!(a.bytes, vec![5]),
        _ => panic!("expected an address"),
    }
    assert!(net.phase() == Phase::Intents);
}

#[test]
fn listener_closed_before_binding_is_fatal() {
    let config = NetworkConfig { listen_addresses: vec![], public_addresses: vec![] };
    let (mut net, steps) = Network::new(&config);
    assert!(steps.is_empty());
    match net.on_listen_event(ListenEvent::ListenerClosed("refused".to_string())) {
        Some(Err(StartupError::ListenerClosed(why))) => assert_eq!(why, "refused"),
        _ => panic!("expected a failure"),
    }
    assert!(net.phase() == Phase::Failed);
}

#[test]
fn scheduler_drains_intents_then_swarm_then_waits() {
    let mut net = running();
    assert!(net.after_intent_poll(Readiness::Ready) == Directive::PollIntents);
    assert!(net.after_intent_poll(Readiness::Pending) == Directive::PollSwarm);
    assert!(net.after_swarm_poll(Readiness::Ready) == Directive::PollSwarm);
    assert!(net.after_swarm_poll(Readiness::Pending) == Directive::PollIntents);
    assert!(net.phase() == Phase::Intents);
    assert!(net.after_intent_poll(Readiness::Pending) == Directive::PollSwarm);
    assert!(net.after_swarm_poll(Readiness::Pending) == Directive::Wait);
    assert!(net.phase() == Phase::Idle);
    assert!(net.wake() == Directive::PollIntents);
    assert!(net.after_intent_poll(Readiness::Pending) == Directive::PollSwarm);
    assert!(net.after_swarm_poll(Readiness::Closed) == Directive::Stop);
    assert!(net.phase() == Phase::Stopped);
}
