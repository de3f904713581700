use async_broadcast::{broadcast, Receiver, TrySendError};
use marketplace_builder::{
    service_exited, Awaiting, BidConfig, BuilderConfig, BuilderHooks, BuilderSetup, BuilderStateArgs,
    ChannelSetup, EventSenders, FeeAmount, Genesis, GenesisSetup, GlobalStateArgs, GlobalStateSetup, InitError, NodeTypes,
    ServiceExit,
};
use std::collections::HashSet;
use std::sync::Arc;
use std::time::Duration;
use surf::Url;

#[derive(Debug)]
struct Node;

impl NodeTypes for Node {
    type KeyPair = String;
    type InstanceState = &'static str;
    type ValidatedState = &'static str;
    type PayloadTransaction = Vec<u8>;
    type ReceivedTransaction = u32;
    type Message = u64;
    type Senders = &'static str;
    type Receivers = Receiver<u32>;
    type VidCommitment = [u8; 2];
    type BuilderCommitment = &'static str;
    type LeafCommitment = ();
    type GlobalState = &'static str;
    type EventStream = &'static str;
}

type Config = BuilderConfig<Node>;

fn url(s: &str) -> Url {
    Url::parse(s).unwrap()
}

fn events() -> Url {
    url("http://localhost:30001")
}

fn api() -> Url {
    url("http://localhost:30002")
}

fn solver() -> Url {
    url("http://localhost:30003")
}

fn begin(is_reserve: bool, fee: FeeAmount, bid: Option<BidConfig>) -> Awaiting<ChannelSetup<Node>> {
    assert!(Config::check_capacities(1024, 512));
    Config::init(
        is_reserve,
        "key".to_string(),
        3,
        1024,
        512,
        "instance",
        "validated",
        events(),
        api(),
        Duration::from_secs(2),
        5,
        Duration::from_secs(4),
        fee,
        bid,
        solver(),
    )
}

fn open(setup: Awaiting<ChannelSetup<Node>>) -> Awaiting<GenesisSetup<Node>> {
    let (transactions, receiver) = broadcast(setup.get().event_channel_capacity);
    let senders = EventSenders {
        transactions,
        others: "others",
    };
    let mut setup = setup.channels_opened(senders, receiver);
    let (sender, capacity) = setup.tx_channel();
    sender.set_capacity(capacity);
    setup.tx_channel_resized()
}

fn up_to_global_state(
    is_reserve: bool,
    fee: FeeAmount,
    bid: Option<BidConfig>,
) -> (GlobalStateArgs<Node>, Awaiting<GlobalStateSetup<Node>>) {
    let setup = begin(is_reserve, fee, bid);
    let setup = open(setup);
    setup.genesis_built(Genesis {
        builder_commitment: "builder",
        vid_commitment: [7, 8],
        leaf_commit: (),
    })
}

fn up_to_builder(
    is_reserve: bool,
    bid: Option<BidConfig>,
) -> (BuilderStateArgs<Node>, Awaiting<BuilderSetup<Node>>) {
    let (_, setup) = up_to_global_state(is_reserve, FeeAmount::from(10), bid);
    setup.global_state_created(Arc::new("state")).unwrap()
}

fn bid(namespaces: Vec<u64>) -> Option<BidConfig> {
    Some(BidConfig {
        namespaces,
        amount: FeeAmount::from(200),
    })
}

#[test]
fn a_fallback_builder_starts_without_a_bid() {
    let setup = Config::init(
        false,
        "key".to_string(),
        0,
        1024,
        1024,
        "instance",
        "validated",
        events(),
        api(),
        Duration::from_secs(2),
        5,
        Duration::from_secs(2),
        FeeAmount::from(10),
        None,
        solver(),
    );
    let setup = open(setup);
    let (_, setup) = setup.genesis_built(Genesis {
        builder_commitment: "builder",
        vid_commitment: [0, 0],
        leaf_commit: (),
    });
    let state = Arc::new("state");
    let (args, setup) = setup.global_state_created(Arc::clone(&state)).unwrap();
    assert_eq!(args.base_fee, 10);
    assert_eq!(args.parent.view_number, 0);
    assert!(!setup.lacks_bid_config());
    let (hooks, setup) = setup.builder_started();
    assert!(matches!(hooks, BuilderHooks::Fallback(_)));
    let (_, services) = setup.start(Arc::new(hooks));
    let (_, services) = services.app_built(Ok("app")).unwrap();
    let (_, config) = services.stream_connected(Ok("stream")).unwrap();
    assert!(Arc::ptr_eq(&config.global_state, &state));
    assert_eq!(config.hotshot_events_api_url, events());
    assert_eq!(config.hotshot_builder_apis_url, api());
}

#[test]
fn the_channel_of_requests_has_the_capacity_of_events() {
    let setup = begin(false, FeeAmount::from(10), None);
    assert_eq!(setup.get().event_channel_capacity, 512);
    assert_eq!(setup.get().tx_channel_capacity, 1024);
    assert_eq!(setup.get().requests.capacity(), 512);
    let (global, setup) = open(setup)
        .genesis_built(Genesis {
            builder_commitment: "builder",
            vid_commitment: [7, 8],
            leaf_commit: (),
        });
    let (builder, _) = setup.global_state_created(Arc::new("state")).unwrap();
    let sender = global.request_sender;
    assert_eq!(sender.capacity(), 512);
    assert_eq!(builder.request_receiver.capacity(), 512);
    for request in 0..512 {
        assert_eq!(sender.try_broadcast(request), Ok(None));
    }
    assert_eq!(sender.try_broadcast(512), Err(TrySendError::Full(512)));
}

#[test]
fn the_channel_of_requests_is_one_channel() {
    let (args, setup) = up_to_global_state(false, FeeAmount::from(10), None);
    let (args, mut receiver) = {
        let (builder, _) = setup.global_state_created(Arc::new("state")).unwrap();
        (args, builder.request_receiver)
    };
    assert_eq!(args.request_sender.try_broadcast(99), Ok(None));
    assert_eq!(receiver.try_recv(), Ok(99));
}

#[test]
fn the_channel_of_transactions_is_handed_out_for_resizing() {
    let setup = begin(false, FeeAmount::from(10), None);
    let (transactions, receiver) = broadcast(4);
    let other = transactions.clone();
    let senders = EventSenders {
        transactions,
        others: "others",
    };
    let mut setup = setup.channels_opened(senders, receiver);
    let (sender, capacity) = setup.tx_channel();
    assert_eq!(sender.capacity(), 4);
    assert_eq!(capacity, 1024);
    sender.set_capacity(capacity);
    let setup = setup.tx_channel_resized();
    assert_eq!(other.capacity(), 1024);
    assert_eq!(setup.get().senders.transactions.capacity(), 1024);
    assert_eq!(setup.get().receivers.capacity(), 1024);
}

#[test]
fn the_parts_of_a_builder_share_the_channel_of_transactions() {
    let (_, setup) = up_to_global_state(false, FeeAmount::from(10), None);
    let of_global_state = setup.tx_sender().clone();
    assert_eq!(of_global_state.capacity(), 1024);
    let (mut args, setup) = setup.global_state_created(Arc::new("state")).unwrap();
    let (_, setup) = setup.builder_started();
    let (_, services) = setup.start(Arc::new("hooks"));
    let (_, services) = services.app_built(Ok("app")).unwrap();
    let (feed, _) = services.stream_connected(Ok("stream")).unwrap();
    assert_eq!(feed.senders.others, "others");
    assert_eq!(of_global_state.try_broadcast(41), Ok(None));
    assert_eq!(feed.senders.transactions.try_broadcast(42), Ok(None));
    assert_eq!(args.receivers.try_recv(), Ok(41));
    assert_eq!(args.receivers.try_recv(), Ok(42));
}

#[test]
fn the_genesis_block_has_no_transactions() {
    let setup = begin(false, FeeAmount::from(10), None);
    let setup = open(setup);
    assert!(setup.get().transactions.is_empty());
}

#[test]
fn the_parts_of_a_builder_agree() {
    let (global, setup) = up_to_global_state(false, FeeAmount::from(10), None);
    assert_eq!(global.vid_commitment, [7, 8]);
    assert_eq!(global.bootstrapped_view, 3);
    let state = Arc::new("state");
    let (args, setup) = setup.global_state_created(Arc::clone(&state)).unwrap();
    assert_eq!(args.parent.view_number, 3);
    assert_eq!(args.parent.vid_commitment, [7, 8]);
    assert_eq!(args.parent.builder_commitment, "builder");
    assert!(args.tx_queue.is_empty());
    assert!(Arc::ptr_eq(&args.global_state, &state));
    assert_eq!(
        args.maximize_txns_count_timeout_duration,
        Duration::from_secs(4)
    );
    assert_eq!(args.base_fee, 10);
    assert_eq!(*args.instance_state, "instance");
    assert_eq!(args.txn_garbage_collect_secs, 60);
    assert_eq!(*args.validated_state, "validated");
    let (_, setup) = setup.builder_started();
    let (app, services) = setup.start(Arc::new("hooks"));
    assert!(Arc::ptr_eq(&app.global_state, &state));
    assert_eq!(app.builder_key_pair, "key");
    assert_eq!(app.api_timeout, Duration::from_secs(2));
    assert!(Arc::ptr_eq(&app.hooks, &services.get().hooks));
    let (server, services) = services.app_built(Ok("app")).unwrap();
    assert_eq!(server.app, "app");
    assert_eq!(server.url, api());
    assert_eq!(services.get().events_api_url, events());
    let (feed, config) = services.stream_connected(Ok("stream")).unwrap();
    assert!(Arc::ptr_eq(&app.hooks, &feed.hooks));
    assert_eq!(feed.stream, "stream");
    assert!(Arc::ptr_eq(&config.global_state, &state));
}

#[test]
fn the_largest_payable_fee_is_paid() {
    let (_, setup) = up_to_global_state(false, FeeAmount::from(u64::MAX), None);
    let (args, _) = setup.global_state_created(Arc::new("state")).unwrap();
    assert_eq!(args.base_fee, u64::MAX);
}

#[test]
fn a_fee_that_cannot_be_paid_ends_the_start_up() {
    let fee = FeeAmount { limbs: [0, 1, 0, 0] };
    let (_, setup) = up_to_global_state(true, fee, None);
    match setup.global_state_created(Arc::new("state")) {
        Err(e) => {
            assert!(matches!(e, InitError::BaseFee));
            assert_eq!(
                e.context(),
                Some("the base fee exceeds the maximum amount that a builder can pay (defined by u64::MAX)")
            );
        }
        Ok(_) => panic!("an unpayable fee was accepted"),
    }
}

#[test]
fn a_reserve_builder_bids_as_configured() {
    let (_, setup) = up_to_builder(true, bid(vec![10, 20, 10]));
    assert!(!setup.lacks_bid_config());
    let (hooks, setup) = setup.builder_started();
    match hooks {
        BuilderHooks::Reserve(hooks) => {
            assert_eq!(hooks.namespaces, HashSet::from([10, 20]));
            assert_eq!(hooks.solver_api_url, solver());
            assert_eq!(hooks.builder_api_base_url, api());
            assert_eq!(hooks.bid_key_pair, "key");
            assert_eq!(hooks.bid_amount.as_u64(), Some(200));
        }
        BuilderHooks::Fallback(_) => panic!("a reserve builder does not bid"),
    }
    assert_eq!(setup.get().builder_key_pair, "key");
    assert_eq!(setup.get().builder_api_url, api());
}

#[test]
fn bids_ignore_order_and_repetition() {
    let namespaces = |list: Vec<u64>| match up_to_builder(true, bid(list)).1.builder_started().0 {
        BuilderHooks::Reserve(hooks) => hooks.namespaces,
        BuilderHooks::Fallback(_) => panic!("a reserve builder does not bid"),
    };
    assert_eq!(namespaces(vec![1, 2, 3]), namespaces(vec![3, 1, 2, 1, 3]));
    assert!(namespaces(vec![]).is_empty());
}

#[test]
fn a_fallback_builder_ignores_a_bid() {
    let (_, setup) = up_to_builder(false, bid(vec![10]));
    match setup.builder_started().0 {
        BuilderHooks::Fallback(hooks) => {
            assert_eq!(hooks.solver_api_url, solver());
            assert_eq!(hooks.namespaces_to_skip, None);
        }
        BuilderHooks::Reserve(_) => panic!("a fallback builder bids"),
    }
}

#[test]
fn a_reserve_builder_needs_a_bid() {
    let (_, setup) = up_to_builder(true, None);
    assert!(setup.lacks_bid_config());
}

#[test]
fn without_an_api_the_start_up_ends() {
    let (_, setup) = up_to_builder(false, None);
    let (_, setup) = setup.builder_started();
    let (_, services) = setup.start(Arc::new("hooks"));
    let cause = anyhow::Error::msg("no routes");
    match services.app_built::<()>(Err(cause)) {
        Err(e) => {
            assert_eq!(e.context(), Some("Failed to construct builder API app"));
            match e {
                InitError::App(cause) => assert_eq!(cause.to_string(), "no routes"),
                _ => panic!("the error was lost"),
            }
        }
        Ok(_) => panic!("an API that there is not is served"),
    }
}

#[test]
fn without_events_the_start_up_ends() {
    let (_, setup) = up_to_builder(false, None);
    let (_, setup) = setup.builder_started();
    let (_, services) = setup.start(Arc::new("hooks"));
    let (_, services) = services.app_built(Ok("app")).unwrap();
    let cause = anyhow::Error::msg("refused");
    match services.stream_connected(Err(cause)) {
        Err(e) => {
            assert_eq!(e.context(), None);
            match e {
                InitError::EventStream(cause) => assert_eq!(cause.to_string(), "refused"),
                _ => panic!("the error was lost"),
            }
        }
        Ok(_) => panic!("events come from nowhere"),
    }
}

#[test]
fn a_feed_that_fails_makes_the_builder_restart() {
    assert_eq!(service_exited(&Ok(())), ServiceExit::Stop);
    let cause = anyhow::Error::msg("stream ended");
    assert_eq!(service_exited(&Err(cause)), ServiceExit::Restart);
}

#[test]
fn capacities_that_no_channel_has_are_told() {
    assert!(Config::check_capacities(1, 1));
    assert!(!Config::check_capacities(0, 1));
    assert!(!Config::check_capacities(1, 0));
    assert!(!Config::check_capacities(1, usize::MAX));
    let slots = isize::MAX as usize / 16;
    assert!(Config::check_capacities(1, slots));
    assert!(!Config::check_capacities(1, slots + 1));
}

#[test]
fn a_copy_of_a_configuration_is_the_same() {
    let (_, setup) = up_to_builder(false, None);
    let (_, setup) = setup.builder_started();
    let (_, services) = setup.start(Arc::new("hooks"));
    let (_, services) = services.app_built(Ok("app")).unwrap();
    let (_, config) = services.stream_connected(Ok("stream")).unwrap();
    let copy = config.clone();
    assert!(Arc::ptr_eq(&copy.global_state, &config.global_state));
    assert_eq!(copy.hotshot_events_api_url, config.hotshot_events_api_url);
    assert_eq!(
        copy.hotshot_builder_apis_url,
        config.hotshot_builder_apis_url
    );
    assert_eq!(format!("{:?}", copy), format!("{:?}", config));
}
