//! The start-up of a builder, from its parameters to its services.

use crate::channel::{broadcast, check_slots, slots_fit, RequestChannel};
use crate::error::InitError;
use crate::fee::FeeAmount;
use crate::hooks::{distinct, BidConfig, BuilderHooks, EspressoFallbackHooks, EspressoReserveHooks};
use crate::node::NodeTypes;
use crate::service::ServiceSetup;
use crate::step::Awaiting;
use async_broadcast::{Receiver, Sender};
use std::sync::Arc;
use std::time::Duration;
use surf::Url;
use vstd::prelude::*;

verus! {

/// The number of seconds after which a builder forgets the transactions that
/// it has seen included.
pub const TXN_GARBAGE_COLLECT_SECS: u64 = 60;

/// A builder that has been started.
#[derive(Debug)]
#[verifier::reject_recursive_types(N)]
pub struct BuilderConfig<N: NodeTypes> {
    /// What the builder and its API share.
    pub global_state: Arc<N::GlobalState>,
    /// Where the builder gets consensus events from.
    pub hotshot_events_api_url: Url,
    /// Where the builder offers its bundles.
    pub hotshot_builder_apis_url: Url,
}

impl<N: NodeTypes> Clone for BuilderConfig<N> {
    fn clone(&self) -> (r: Self)
        ensures
            r == *self,
    {
        BuilderConfig {
            global_state: Arc::clone(&self.global_state),
            hotshot_events_api_url: self.hotshot_events_api_url.clone(),
            hotshot_builder_apis_url: self.hotshot_builder_apis_url.clone(),
        }
    }
}

/// The parameters of a start-up that take effect after its channels are open.
#[verifier::reject_recursive_types(N)]
pub struct Settings<N: NodeTypes> {
    /// Whether the builder bids for namespaces.
    pub is_reserve: bool,
    /// The key pair of the builder.
    pub builder_key_pair: N::KeyPair,
    /// The view of the block that the builder builds on first.
    pub bootstrapped_view: u64,
    /// The instance state of the node.
    pub instance_state: N::InstanceState,
    /// The state of the chain.
    pub validated_state: N::ValidatedState,
    /// Where consensus events come from.
    pub events_api_url: Url,
    /// Where bundles are offered.
    pub builder_api_url: Url,
    /// How long a request to the builder API may take.
    pub api_timeout: Duration,
    /// How long the builder waits for transactions to fill a bundle.
    pub maximize_txns_count_timeout_duration: Duration,
    /// What the builder pays per unit.
    pub base_fee: FeeAmount,
    /// What the builder bids for, if it does.
    pub bid_config: Option<BidConfig>,
    /// Where the solver is.
    pub solver_api_url: Url,
}

/// The sending sides of the channels of consensus events.
#[verifier::reject_recursive_types(N)]
pub struct EventSenders<N: NodeTypes> {
    /// That of the channel that transactions come in by.
    pub transactions: Sender<N::ReceivedTransaction>,
    /// Those of the other channels.
    pub others: N::Senders,
}

/// A start-up that waits for the channels of consensus events, each of
/// capacity `event_channel_capacity`, to be opened.
#[verifier::reject_recursive_types(N)]
pub struct ChannelSetup<N: NodeTypes> {
    /// The parameters for what follows.
    pub settings: Settings<N>,
    /// The capacity of a channel of consensus events.
    pub event_channel_capacity: usize,
    /// The capacity of the channel of transactions.
    pub tx_channel_capacity: usize,
    /// The channel between the builder API and the builder.
    pub requests: RequestChannel<N::Message>,
}

/// A start-up that waits for the channel of transactions, `senders.transactions`,
/// to be resized to `tx_channel_capacity`.
#[verifier::reject_recursive_types(N)]
pub struct TxChannelSetup<N: NodeTypes> {
    /// The parameters for what follows.
    pub settings: Settings<N>,
    /// The capacity of the channel of transactions.
    pub tx_channel_capacity: usize,
    /// The channel between the builder API and the builder.
    pub requests: RequestChannel<N::Message>,
    /// The sending sides of the channels of consensus events.
    pub senders: EventSenders<N>,
    /// The receiving sides of the channels of consensus events.
    pub receivers: N::Receivers,
}

/// A start-up that waits for the genesis block, whose payload is made of
/// `transactions`, to be built and committed to.
#[verifier::reject_recursive_types(N)]
pub struct GenesisSetup<N: NodeTypes> {
    /// The parameters for what follows.
    pub settings: Settings<N>,
    /// The channel between the builder API and the builder.
    pub requests: RequestChannel<N::Message>,
    /// The sending sides of the channels of consensus events.
    pub senders: EventSenders<N>,
    /// The receiving sides of the channels of consensus events.
    pub receivers: N::Receivers,
    /// The transactions of the genesis block.
    pub transactions: Vec<N::PayloadTransaction>,
}

/// The commitments to the genesis block.
#[verifier::reject_recursive_types(N)]
pub struct Genesis<N: NodeTypes> {
    /// That of its builder to the payload.
    pub builder_commitment: N::BuilderCommitment,
    /// That to the shares of the payload.
    pub vid_commitment: N::VidCommitment,
    /// That to the leaf of the block.
    pub leaf_commit: N::LeafCommitment,
}

/// What the global state of a builder is made of, beside a sender of
/// transactions.
#[verifier::reject_recursive_types(N)]
pub struct GlobalStateArgs<N: NodeTypes> {
    /// Where requests for blocks go.
    pub request_sender: Sender<N::Message>,
    /// The payload that the builder builds on first.
    pub vid_commitment: N::VidCommitment,
    /// The view of that payload.
    pub bootstrapped_view: u64,
}

/// A start-up that waits for the global state to be created. It is to send
/// transactions by a clone of `senders.transactions`.
#[verifier::reject_recursive_types(N)]
pub struct GlobalStateSetup<N: NodeTypes> {
    /// The parameters for what follows.
    pub settings: Settings<N>,
    /// Where requests for blocks come from.
    pub request_receiver: Receiver<N::Message>,
    /// The sending sides of the channels of consensus events.
    pub senders: EventSenders<N>,
    /// The receiving sides of the channels of consensus events.
    pub receivers: N::Receivers,
    /// The commitments to the genesis block.
    pub genesis: Genesis<N>,
}

/// The block that a builder builds on.
#[verifier::reject_recursive_types(N)]
pub struct BuiltFromProposedBlock<N: NodeTypes> {
    /// The view that it was proposed in.
    pub view_number: u64,
    /// The commitment to the shares of its payload.
    pub vid_commitment: N::VidCommitment,
    /// The commitment to its leaf.
    pub leaf_commit: N::LeafCommitment,
    /// The commitment of its builder to its payload.
    pub builder_commitment: N::BuilderCommitment,
}

/// What the state of a builder is made of.
#[verifier::reject_recursive_types(N)]
pub struct BuilderStateArgs<N: NodeTypes> {
    /// The block to build on.
    pub parent: BuiltFromProposedBlock<N>,
    /// Where consensus events come from.
    pub receivers: N::Receivers,
    /// Where requests for blocks come from.
    pub request_receiver: Receiver<N::Message>,
    /// The transactions to include.
    pub tx_queue: Vec<N::ReceivedTransaction>,
    /// What the builder shares with its API.
    pub global_state: Arc<N::GlobalState>,
    /// How long to wait for transactions to fill a bundle.
    pub maximize_txns_count_timeout_duration: Duration,
    /// What to pay per unit.
    pub base_fee: u64,
    /// The instance state of the node.
    pub instance_state: Arc<N::InstanceState>,
    /// After how many seconds to forget included transactions.
    pub txn_garbage_collect_secs: u64,
    /// The state of the chain.
    pub validated_state: Arc<N::ValidatedState>,
}

/// A start-up that waits for the event loop of the builder to run.
#[verifier::reject_recursive_types(N)]
pub struct BuilderSetup<N: NodeTypes> {
    /// Whether the builder bids for namespaces.
    pub is_reserve: bool,
    /// What the builder bids for, if it does.
    pub bid_config: Option<BidConfig>,
    /// Where the solver is.
    pub solver_api_url: Url,
    /// What the services of the builder are made of.
    pub service: ServiceSetup<N>,
}

/// Whether channels can have these capacities: neither is zero, and memory for
/// the messages of the channel of requests can be asked for.
pub open spec fn capacities_fit<N: NodeTypes>(
    tx_channel_capacity: usize,
    event_channel_capacity: usize,
) -> bool {
    &&& tx_channel_capacity > 0
    &&& event_channel_capacity > 0
    &&& slots_fit::<N::Message>(event_channel_capacity as nat)
}

impl<N: NodeTypes> BuilderConfig<N> {
    /// Whether channels can have these capacities: neither is zero, and memory
    /// for the messages of the channel of requests can be asked for.
    pub fn check_capacities(tx_channel_capacity: usize, event_channel_capacity: usize) -> (r: bool)
        ensures
            r == capacities_fit::<N>(tx_channel_capacity, event_channel_capacity),
    {
        tx_channel_capacity > 0 && event_channel_capacity > 0 && check_slots::<N::Message>(
            event_channel_capacity,
        )
    }

    /// Begins the start-up of a builder. Opens the channel of requests; the
    /// channels of consensus events are to be opened next.
    pub fn init(
        is_reserve: bool,
        builder_key_pair: N::KeyPair,
        bootstrapped_view: u64,
        tx_channel_capacity: usize,
        event_channel_capacity: usize,
        instance_state: N::InstanceState,
        validated_state: N::ValidatedState,
        events_api_url: Url,
        builder_api_url: Url,
        api_timeout: Duration,
        _buffered_view_num_count: usize,
        maximize_txns_count_timeout_duration: Duration,
        base_fee: FeeAmount,
        bid_config: Option<BidConfig>,
        solver_api_url: Url,
    ) -> (r: Awaiting<ChannelSetup<N>>)
        requires
            capacities_fit::<N>(tx_channel_capacity, event_channel_capacity),
        ensures
            r@.settings == (Settings::<N> {
                is_reserve,
                builder_key_pair,
                bootstrapped_view,
                instance_state,
                validated_state,
                events_api_url,
                builder_api_url,
                api_timeout,
                maximize_txns_count_timeout_duration,
                base_fee,
                bid_config,
                solver_api_url,
            }),
            r@.event_channel_capacity == event_channel_capacity,
            r@.tx_channel_capacity == tx_channel_capacity,
            r@.requests.opened_with() == event_channel_capacity,
    {
        let requests = broadcast(event_channel_capacity);
        let settings = Settings {
            is_reserve,
            builder_key_pair,
            bootstrapped_view,
            instance_state,
            validated_state,
            events_api_url,
            builder_api_url,
            api_timeout,
            maximize_txns_count_timeout_duration,
            base_fee,
            bid_config,
            solver_api_url,
        };
        Awaiting::new(
            ChannelSetup { settings, event_channel_capacity, tx_channel_capacity, requests },
        )
    }
}

impl<N: NodeTypes> ChannelSetup<N> {
    /// What follows once the channels of consensus events are open: the one of
    /// transactions is to be resized.
    pub open spec fn opened(
        self,
        senders: EventSenders<N>,
        receivers: N::Receivers,
    ) -> TxChannelSetup<N> {
        TxChannelSetup {
            settings: self.settings,
            tx_channel_capacity: self.tx_channel_capacity,
            requests: self.requests,
            senders,
            receivers,
        }
    }
}

impl<N: NodeTypes> Awaiting<ChannelSetup<N>> {
    /// Goes on with the channels of consensus events.
    pub fn channels_opened(self, senders: EventSenders<N>, receivers: N::Receivers) -> (r: Awaiting<
        TxChannelSetup<N>,
    >)
        ensures
            r@ == self@.opened(senders, receivers),
    {
        let setup = self.take();
        Awaiting::new(
            TxChannelSetup {
                settings: setup.settings,
                tx_channel_capacity: setup.tx_channel_capacity,
                requests: setup.requests,
                senders,
                receivers,
            },
        )
    }
}

impl<N: NodeTypes> TxChannelSetup<N> {
    /// The start-up with the sender of transactions that came back from resizing.
    pub open spec fn with_tx_sender(self, tx_sender: Sender<N::ReceivedTransaction>) -> Self {
        TxChannelSetup {
            senders: EventSenders { transactions: tx_sender, others: self.senders.others },
            ..self
        }
    }

    /// What follows once the channel of transactions is resized: the genesis
    /// block is to be built, out of no transactions.
    pub open spec fn resized(self, next: GenesisSetup<N>) -> bool {
        &&& next.settings == self.settings
        &&& next.requests == self.requests
        &&& next.senders == self.senders
        &&& next.receivers == self.receivers
        &&& next.transactions@ == Seq::<N::PayloadTransaction>::empty()
    }
}

impl<N: NodeTypes> Awaiting<TxChannelSetup<N>> {
    /// The channel to resize, and the capacity to give it. Whoever opened the
    /// channel resizes it: on a channel that others hold, and may have left full
    /// or broken, `async_broadcast::Sender::set_capacity` can panic or never
    /// return, and a sender does not tell.
    pub fn tx_channel(&mut self) -> (r: (&mut Sender<N::ReceivedTransaction>, usize))
        ensures
            *r.0 == old(self)@.senders.transactions,
            r.1 == old(self)@.tx_channel_capacity,
            final(self)@ == old(self)@.with_tx_sender(*final(r.0)),
    {
        let setup = self.get_mut();
        let capacity: usize = setup.tx_channel_capacity;
        (&mut setup.senders.transactions, capacity)
    }

    /// Goes on with the channel of transactions resized.
    pub fn tx_channel_resized(self) -> (r: Awaiting<GenesisSetup<N>>)
        ensures
            self@.resized(r@),
    {
        let setup = self.take();
        Awaiting::new(
            GenesisSetup {
                settings: setup.settings,
                requests: setup.requests,
                senders: setup.senders,
                receivers: setup.receivers,
                transactions: Vec::new(),
            },
        )
    }
}

impl<N: NodeTypes> GenesisSetup<N> {
    /// What the global state is to be created out of, beside a sender of
    /// transactions.
    pub open spec fn global_state_args(self, genesis: Genesis<N>) -> GlobalStateArgs<N> {
        GlobalStateArgs {
            request_sender: self.requests.sender(),
            vid_commitment: genesis.vid_commitment,
            bootstrapped_view: self.settings.bootstrapped_view,
        }
    }

    /// What follows once the genesis block is committed to.
    pub open spec fn built(self, genesis: Genesis<N>) -> GlobalStateSetup<N> {
        GlobalStateSetup {
            settings: self.settings,
            request_receiver: self.requests.receiver(),
            senders: self.senders,
            receivers: self.receivers,
            genesis,
        }
    }
}

impl<N: NodeTypes> Awaiting<GenesisSetup<N>> {
    /// Goes on with the commitments to the genesis block. The global state is to
    /// be created next.
    pub fn genesis_built(self, genesis: Genesis<N>) -> (r: (
        GlobalStateArgs<N>,
        Awaiting<GlobalStateSetup<N>>,
    ))
        ensures
            r.0 == self@.global_state_args(genesis),
            r.1@ == self@.built(genesis),
    {
        let setup = self.take();
        let (request_sender, request_receiver) = setup.requests.into_ends();
        let args = GlobalStateArgs {
            request_sender,
            vid_commitment: genesis.vid_commitment,
            bootstrapped_view: setup.settings.bootstrapped_view,
        };
        let next = GlobalStateSetup {
            settings: setup.settings,
            request_receiver,
            senders: setup.senders,
            receivers: setup.receivers,
            genesis,
        };
        (args, Awaiting::new(next))
    }
}

impl<N: NodeTypes> GlobalStateSetup<N> {
    /// The base fee is one that a builder can pay.
    pub open spec fn fee_is_payable(self) -> bool {
        self.settings.base_fee.value() <= u64::MAX
    }

    /// What the state of the builder is made of, with a queue of no transactions.
    pub open spec fn state_args(
        self,
        global_state: Arc<N::GlobalState>,
        args: BuilderStateArgs<N>,
    ) -> bool {
        &&& args.parent == BuiltFromProposedBlock::<N> {
            view_number: self.settings.bootstrapped_view,
            vid_commitment: self.genesis.vid_commitment,
            leaf_commit: self.genesis.leaf_commit,
            builder_commitment: self.genesis.builder_commitment,
        }
        &&& args.receivers == self.receivers
        &&& args.request_receiver == self.request_receiver
        &&& args.tx_queue@ == Seq::<N::ReceivedTransaction>::empty()
        &&& args.global_state == global_state
        &&& args.maximize_txns_count_timeout_duration
            == self.settings.maximize_txns_count_timeout_duration
        &&& args.base_fee == self.settings.base_fee.value()
        &&& *args.instance_state == self.settings.instance_state
        &&& args.txn_garbage_collect_secs == TXN_GARBAGE_COLLECT_SECS
        &&& *args.validated_state == self.settings.validated_state
    }

    /// What follows once the event loop of the builder runs.
    pub open spec fn next(self, global_state: Arc<N::GlobalState>) -> BuilderSetup<N> {
        BuilderSetup {
            is_reserve: self.settings.is_reserve,
            bid_config: self.settings.bid_config,
            solver_api_url: self.settings.solver_api_url,
            service: ServiceSetup {
                global_state,
                senders: self.senders,
                builder_key_pair: self.settings.builder_key_pair,
                events_api_url: self.settings.events_api_url,
                builder_api_url: self.settings.builder_api_url,
                api_timeout: self.settings.api_timeout,
            },
        }
    }
}

impl<N: NodeTypes> Awaiting<GlobalStateSetup<N>> {
    /// The sender that the global state is to have a clone of.
    pub fn tx_sender(&self) -> (r: &Sender<N::ReceivedTransaction>)
        ensures
            *r == self@.senders.transactions,
    {
        &self.get().senders.transactions
    }

    /// Goes on with the global state. A base fee that is more than a builder
    /// can pay ends the start-up here; otherwise the event loop of the builder
    /// is to be run next.
    pub fn global_state_created(self, global_state: Arc<N::GlobalState>) -> (r: Result<
        (BuilderStateArgs<N>, Awaiting<BuilderSetup<N>>),
        InitError,
    >)
        ensures
            r is Ok <==> self@.fee_is_payable(),
            r matches Ok((args, next)) ==> {
                &&& self@.state_args(global_state, args)
                &&& next@ == self@.next(global_state)
            },
            r matches Err(e) ==> e is BaseFee,
    {
        let setup = self.take();
        let base_fee: u64 = match setup.settings.base_fee.as_u64() {
            Some(base_fee) => base_fee,
            None => {
                return Err(InitError::BaseFee);
            },
        };
        let args = BuilderStateArgs {
            parent: BuiltFromProposedBlock {
                view_number: setup.settings.bootstrapped_view,
                vid_commitment: setup.genesis.vid_commitment,
                leaf_commit: setup.genesis.leaf_commit,
                builder_commitment: setup.genesis.builder_commitment,
            },
            receivers: setup.receivers,
            request_receiver: setup.request_receiver,
            tx_queue: Vec::new(),
            global_state: Arc::clone(&global_state),
            maximize_txns_count_timeout_duration: setup.settings.maximize_txns_count_timeout_duration,
            base_fee,
            instance_state: Arc::new(setup.settings.instance_state),
            txn_garbage_collect_secs: TXN_GARBAGE_COLLECT_SECS,
            validated_state: Arc::new(setup.settings.validated_state),
        };
        let next = BuilderSetup {
            is_reserve: setup.settings.is_reserve,
            bid_config: setup.settings.bid_config,
            solver_api_url: setup.settings.solver_api_url,
            service: ServiceSetup {
                global_state,
                senders: setup.senders,
                builder_key_pair: setup.settings.builder_key_pair,
                events_api_url: setup.settings.events_api_url,
                builder_api_url: setup.settings.builder_api_url,
                api_timeout: setup.settings.api_timeout,
            },
        };
        Ok((args, Awaiting::new(next)))
    }
}

impl<N: NodeTypes> BuilderSetup<N> {
    /// A builder that bids knows what to bid for.
    pub open spec fn wf(self) -> bool {
        self.is_reserve ==> self.bid_config is Some
    }

    /// The hooks of the builder: a reserve builder bids as configured, under its
    /// own key and for its own API; a fallback builder knows of no bids yet.
    pub open spec fn chose(self, hooks: BuilderHooks<N::KeyPair>) -> bool {
        match hooks {
            BuilderHooks::Reserve(hooks) => {
                &&& self.is_reserve
                &&& self.bid_config matches Some(bid_config)
                &&& hooks.namespaces@ == bid_config.namespaces@.to_set()
                &&& hooks.solver_api_url == self.solver_api_url
                &&& hooks.builder_api_base_url == self.service.builder_api_url
                &&& cloned(self.service.builder_key_pair, hooks.bid_key_pair)
                &&& hooks.bid_amount == bid_config.amount
            },
            BuilderHooks::Fallback(hooks) => {
                &&& !self.is_reserve
                &&& hooks == EspressoFallbackHooks {
                    solver_api_url: self.solver_api_url,
                    namespaces_to_skip: None,
                }
            },
        }
    }
}

impl<N: NodeTypes> Awaiting<BuilderSetup<N>> {
    /// Whether the builder is to bid but has not been told what for.
    pub fn lacks_bid_config(&self) -> (r: bool)
        ensures
            r == !self@.wf(),
    {
        let setup = self.get();
        setup.is_reserve && setup.bid_config.is_none()
    }

    /// Goes on with the event loop of the builder running. The services of the
    /// builder are to be started next, with the hooks that are returned.
    pub fn builder_started(self) -> (r: (
        BuilderHooks<N::KeyPair>,
        Awaiting<ServiceSetup<N>>,
    ))
        requires
            self@.wf(),
        ensures
            self@.chose(r.0),
            r.1@ == self@.service,
    {
        let setup = self.take();
        let hooks = match setup.bid_config {
            Some(bid_config) if setup.is_reserve => BuilderHooks::Reserve(
                EspressoReserveHooks {
                    namespaces: distinct(&bid_config.namespaces),
                    solver_api_url: setup.solver_api_url,
                    builder_api_base_url: setup.service.builder_api_url.clone(),
                    bid_key_pair: setup.service.builder_key_pair.clone(),
                    bid_amount: bid_config.amount,
                },
            ),
            _ => BuilderHooks::Fallback(
                EspressoFallbackHooks {
                    solver_api_url: setup.solver_api_url,
                    namespaces_to_skip: None,
                },
            ),
        };
        (hooks, Awaiting::new(setup.service))
    }
}

} // verus!
