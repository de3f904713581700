//! What a start-up makes of its parameters, from the first step to the last.
//!
//! The laws here speak of what the steps return when one is called after the
//! other, and hold it against what the start-up was given.

use crate::builder::{
    BuilderConfig, BuilderSetup, BuilderStateArgs, ChannelSetup, EventSenders, Genesis,
    GenesisSetup, GlobalStateArgs, GlobalStateSetup, Settings, TxChannelSetup,
};
use crate::channel::RequestChannel;
use crate::error::InitError;
use crate::fee::FeeAmount;
use crate::hooks::BuilderHooks;
use crate::instance::{build_instance_state, L1Params, NodeState};
use crate::node::NodeTypes;
use crate::service::{
    service_exited, ApiServer, AppArgs, AppSetup, EventService, ServiceExit, ServiceSetup,
    StreamSetup,
};
use crate::step::Awaiting;
use async_broadcast::Sender;
use std::sync::Arc;
use surf::Url;
use vstd::prelude::*;

verus! {

/// A start-up: its parameters, what was handed to its steps, and what these
/// returned.
#[verifier::reject_recursive_types(N)]
#[verifier::reject_recursive_types(H)]
#[verifier::reject_recursive_types(A)]
pub struct Run<N: NodeTypes, H, A> {
    /// The parameters that take effect once the channels are open.
    pub given: Settings<N>,
    /// The capacity for transactions that was asked for.
    pub tx_channel_capacity: usize,
    /// The capacity for consensus events that was asked for.
    pub event_channel_capacity: usize,
    /// The number of views to buffer that was asked for.
    pub buffered_view_num_count: usize,
    /// What `init` returned.
    pub opening: Awaiting<ChannelSetup<N>>,
    /// The sending sides of the channels that were opened.
    pub senders: EventSenders<N>,
    /// The receiving sides of the channels that were opened.
    pub receivers: N::Receivers,
    /// What `channels_opened` returned.
    pub opened: Awaiting<TxChannelSetup<N>>,
    /// The sender of transactions that came back from resizing.
    pub tx_sender: Sender<N::ReceivedTransaction>,
    /// The step once the channel of transactions was resized.
    pub resized: Awaiting<TxChannelSetup<N>>,
    /// What `tx_channel_resized` returned.
    pub genesis_setup: Awaiting<GenesisSetup<N>>,
    /// The commitments to the genesis block.
    pub genesis: Genesis<N>,
    /// What `genesis_built` returned.
    pub global_state_setup: (GlobalStateArgs<N>, Awaiting<GlobalStateSetup<N>>),
    /// The global state that was created.
    pub global_state: Arc<N::GlobalState>,
    /// What `global_state_created` returned.
    pub created: Result<(BuilderStateArgs<N>, Awaiting<BuilderSetup<N>>), InitError>,
    /// What `builder_started` returned.
    pub started: (BuilderHooks<N::KeyPair>, Awaiting<ServiceSetup<N>>),
    /// The hooks that were made.
    pub hooks: Arc<H>,
    /// What `start` returned.
    pub services: (AppArgs<N, H>, Awaiting<AppSetup<N, H>>),
    /// What came of putting the builder API together.
    pub app: Result<A, anyhow::Error>,
    /// What `app_built` returned.
    pub built: Result<(ApiServer<A>, Awaiting<StreamSetup<N, H>>), InitError>,
    /// What came of connecting to the events API.
    pub stream: Result<N::EventStream, anyhow::Error>,
    /// What `stream_connected` returned.
    pub connected: Result<(EventService<N, H>, BuilderConfig<N>), InitError>,
}

impl<N: NodeTypes, H, A> Run<N, H, A> {
    /// The start-up came to the point where its channels are open and the
    /// genesis block is to be built.
    pub open spec fn opens(self) -> bool {
        &&& call_ensures(
            BuilderConfig::<N>::init,
            (
                self.given.is_reserve,
                self.given.builder_key_pair,
                self.given.bootstrapped_view,
                self.tx_channel_capacity,
                self.event_channel_capacity,
                self.given.instance_state,
                self.given.validated_state,
                self.given.events_api_url,
                self.given.builder_api_url,
                self.given.api_timeout,
                self.buffered_view_num_count,
                self.given.maximize_txns_count_timeout_duration,
                self.given.base_fee,
                self.given.bid_config,
                self.given.solver_api_url,
            ),
            self.opening,
        )
        &&& call_ensures(
            Awaiting::<ChannelSetup<N>>::channels_opened,
            (self.opening, self.senders, self.receivers),
            self.opened,
        )
        &&& self.resized@ == TxChannelSetup::<N> {
            senders: EventSenders {
                transactions: self.tx_sender,
                others: self.opened@.senders.others,
            },
            ..self.opened@
        }
        &&& call_ensures(
            Awaiting::<TxChannelSetup<N>>::tx_channel_resized,
            (self.resized,),
            self.genesis_setup,
        )
    }

    /// The start-up came to the point where it has its global state.
    pub open spec fn creates(self) -> bool {
        &&& self.opens()
        &&& call_ensures(
            Awaiting::<GenesisSetup<N>>::genesis_built,
            (self.genesis_setup, self.genesis),
            self.global_state_setup,
        )
        &&& call_ensures(
            Awaiting::<GlobalStateSetup<N>>::global_state_created,
            (self.global_state_setup.1, self.global_state),
            self.created,
        )
    }

    /// The start-up came to the point where its services are to be started.
    pub open spec fn starts(self) -> bool {
        &&& self.creates()
        &&& self.created is Ok
        &&& call_ensures(
            Awaiting::<BuilderSetup<N>>::builder_started,
            (self.created->Ok_0.1,),
            self.started,
        )
        &&& call_ensures(
            Awaiting::<ServiceSetup<N>>::start::<H>,
            (self.started.1, self.hooks),
            self.services,
        )
    }

    /// The start-up came to the point where the builder API is put together.
    pub open spec fn serves(self) -> bool {
        &&& self.starts()
        &&& call_ensures(
            Awaiting::<AppSetup<N, H>>::app_built::<A>,
            (self.services.1, self.app),
            self.built,
        )
    }

    /// The start-up came to its end.
    pub open spec fn ends(self) -> bool {
        &&& self.serves()
        &&& self.built is Ok
        &&& call_ensures(
            Awaiting::<StreamSetup<N, H>>::stream_connected,
            (self.built->Ok_0.1, self.stream),
            self.connected,
        )
    }

    /// What the state of the builder is made of.
    pub open spec fn state_args(self) -> BuilderStateArgs<N>
        recommends
            self.created is Ok,
    {
        self.created->Ok_0.0
    }
}

/// A start-up can be begun with any parameters whose capacities are not zero and
/// leave room for the channel of requests. Every later step can be taken whatever
/// came of what it waited for; only the hooks of a builder that is to bid cannot
/// be chosen before it is known what for.
pub proof fn law_steps_ask_for_nothing_more<N: NodeTypes, H, A>(run: Run<N, H, A>)
    requires
        run.tx_channel_capacity != 0,
        run.event_channel_capacity != 0,
        run.event_channel_capacity * vstd::layout::size_of::<(N::Message, usize)>() <= isize::MAX,
    ensures
        call_requires(
            BuilderConfig::<N>::init,
            (
                run.given.is_reserve,
                run.given.builder_key_pair,
                run.given.bootstrapped_view,
                run.tx_channel_capacity,
                run.event_channel_capacity,
                run.given.instance_state,
                run.given.validated_state,
                run.given.events_api_url,
                run.given.builder_api_url,
                run.given.api_timeout,
                run.buffered_view_num_count,
                run.given.maximize_txns_count_timeout_duration,
                run.given.base_fee,
                run.given.bid_config,
                run.given.solver_api_url,
            ),
        ),
        call_requires(
            Awaiting::<ChannelSetup<N>>::channels_opened,
            (run.opening, run.senders, run.receivers),
        ),
        call_requires(Awaiting::<TxChannelSetup<N>>::tx_channel_resized, (run.resized,)),
        call_requires(
            Awaiting::<GenesisSetup<N>>::genesis_built,
            (run.genesis_setup, run.genesis),
        ),
        call_requires(
            Awaiting::<GlobalStateSetup<N>>::global_state_created,
            (run.global_state_setup.1, run.global_state),
        ),
        run.creates() && run.created is Ok && (run.given.is_reserve ==> run.given.bid_config is Some)
            ==> call_requires(
            Awaiting::<BuilderSetup<N>>::builder_started,
            (run.created->Ok_0.1,),
        ),
        call_requires(Awaiting::<ServiceSetup<N>>::start::<H>, (run.started.1, run.hooks)),
        call_requires(
            Awaiting::<AppSetup<N, H>>::app_built::<A>,
            (run.services.1, run.app),
        ),
        run.built is Ok ==> call_requires(
            Awaiting::<StreamSetup<N, H>>::stream_connected,
            (run.built->Ok_0.1, run.stream),
        ),
{
}

/// The channel of requests is opened, and those of consensus events are to be,
/// with the capacity for events. The channel of transactions that was opened is
/// the one to be resized, to the capacity for transactions. The genesis block is built
/// for the instance and the state of the chain that were given, and holds no
/// transaction.
pub proof fn law_channels_are_as_configured<N: NodeTypes, H, A>(
    run: Run<N, H, A>,
    request_channel_capacity: usize,
)
    requires
        run.opens(),
        call_ensures(
            RequestChannel::<N::Message>::capacity,
            (&run.opening@.requests,),
            request_channel_capacity,
        ),
    ensures
        request_channel_capacity == run.event_channel_capacity,
        run.opening@.event_channel_capacity == run.event_channel_capacity,
        run.opened@.tx_channel_capacity == run.tx_channel_capacity,
        run.opened@.senders.transactions == run.senders.transactions,
        run.genesis_setup@.transactions@.len() == 0,
        run.genesis_setup@.settings.instance_state == run.given.instance_state,
        run.genesis_setup@.settings.validated_state == run.given.validated_state,
{
}

/// No step changes what it was given for a later one: each shows the parameters
/// of the start-up, and what came of the steps before it, as they were.
pub proof fn law_steps_hand_on_what_they_were_given<N: NodeTypes, H, A>(run: Run<N, H, A>)
    requires
        run.serves(),
    ensures
        run.opening@.settings == run.given,
        run.opening@.tx_channel_capacity == run.tx_channel_capacity,
        run.opened@.settings == run.given,
        run.opened@.requests == run.opening@.requests,
        run.opened@.senders == run.senders,
        run.opened@.receivers == run.receivers,
        run.genesis_setup@.settings == run.given,
        run.genesis_setup@.requests == run.opening@.requests,
        run.genesis_setup@.senders.transactions == run.tx_sender,
        run.genesis_setup@.senders.others == run.senders.others,
        run.genesis_setup@.receivers == run.receivers,
        run.global_state_setup.1@.settings == run.given,
        run.global_state_setup.1@.request_receiver == run.opening@.requests.receiver(),
        run.global_state_setup.1@.senders == run.genesis_setup@.senders,
        run.global_state_setup.1@.receivers == run.receivers,
        run.global_state_setup.1@.genesis == run.genesis,
        run.created->Ok_0.1@.is_reserve == run.given.is_reserve,
        run.created->Ok_0.1@.bid_config == run.given.bid_config,
        run.created->Ok_0.1@.solver_api_url == run.given.solver_api_url,
        run.created->Ok_0.1@.service == run.started.1@,
        run.started.1@.global_state == run.global_state,
        run.started.1@.senders == run.genesis_setup@.senders,
        run.started.1@.builder_key_pair == run.given.builder_key_pair,
        run.started.1@.events_api_url == run.given.events_api_url,
        run.started.1@.builder_api_url == run.given.builder_api_url,
        run.started.1@.api_timeout == run.given.api_timeout,
        run.services.1@.senders == run.genesis_setup@.senders,
        run.services.1@.hooks == run.hooks,
        run.services.1@.global_state == run.global_state,
        run.services.1@.events_api_url == run.given.events_api_url,
        run.services.1@.builder_api_url == run.given.builder_api_url,
        run.built matches Ok((_, next)) ==> {
            &&& next@.senders == run.genesis_setup@.senders
            &&& next@.hooks == run.hooks
            &&& next@.global_state == run.global_state
            &&& next@.events_api_url == run.given.events_api_url
            &&& next@.builder_api_url == run.given.builder_api_url
        },
{
}

/// Handing the channel of transactions out for resizing changes nothing of the
/// step but that channel: it is the sender of the step that is handed out, with
/// the capacity of the step, and what comes back takes its place.
pub proof fn law_resizing_touches_the_channel_of_transactions_only<N: NodeTypes>(
    step: &mut Awaiting<TxChannelSetup<N>>,
    handed: (&mut Sender<N::ReceivedTransaction>, usize),
)
    requires
        call_ensures(Awaiting::<TxChannelSetup<N>>::tx_channel, (step,), handed),
    ensures
        *old(handed.0) == old(step)@.senders.transactions,
        handed.1 == old(step)@.tx_channel_capacity,
        final(step)@.senders.transactions == *final(handed.0),
        final(step)@.senders.others == old(step)@.senders.others,
        final(step)@.settings == old(step)@.settings,
        final(step)@.tx_channel_capacity == old(step)@.tx_channel_capacity,
        final(step)@.requests == old(step)@.requests,
        final(step)@.receivers == old(step)@.receivers,
{
}

/// The global state starts at the view that was asked for, from the genesis
/// payload. It asks for blocks by the sending side of the channel of requests,
/// and sends transactions to the channel that was resized.
pub proof fn law_global_state_is_as_configured<N: NodeTypes, H, A>(
    run: Run<N, H, A>,
    tx_sender: &Sender<N::ReceivedTransaction>,
)
    requires
        run.creates(),
        call_ensures(
            Awaiting::<GlobalStateSetup<N>>::tx_sender,
            (&run.global_state_setup.1,),
            tx_sender,
        ),
    ensures
        run.global_state_setup.0.bootstrapped_view == run.given.bootstrapped_view,
        run.global_state_setup.0.vid_commitment == run.genesis.vid_commitment,
        run.global_state_setup.0.request_sender == run.opening@.requests.sender(),
        *tx_sender == run.tx_sender,
{
}

/// The base fee decides, and nothing else, whether there is a builder state: a
/// fee of more than `u64::MAX` is refused as such, whatever sort of builder it
/// is for. Any other fee is paid to the last unit.
pub proof fn law_the_base_fee_is_paid_or_refused<N: NodeTypes, H, A>(run: Run<N, H, A>)
    requires
        run.creates(),
    ensures
        run.created is Ok <==> run.given.base_fee.value() <= u64::MAX,
        run.created matches Err(e) ==> e is BaseFee,
        run.created is Ok ==> run.state_args().base_fee == run.given.base_fee.value(),
        run.created is Ok ==> run.state_args().base_fee == run.given.base_fee.limbs@[0],
{
    law_amounts_are_written_in_digits(run.given.base_fee);
}

/// Builders pay the same fee if and only if the same fee was configured,
/// whatever else sets them apart.
pub proof fn law_fees_are_told_apart<N: NodeTypes, H, A>(
    one: Run<N, H, A>,
    other: Run<N, H, A>,
)
    requires
        one.creates(),
        other.creates(),
        one.created is Ok,
        other.created is Ok,
    ensures
        one.state_args().base_fee == other.state_args().base_fee <==> one.given.base_fee.value()
            == other.given.base_fee.value(),
        one.state_args().base_fee < other.state_args().base_fee <==> one.given.base_fee.value()
            < other.given.base_fee.value(),
{
}

/// Every other part of the builder state is what was given for it, for a reserve
/// builder and a fallback builder alike: the genesis block at the view asked
/// for, the receiving sides of all channels, the global state that was created,
/// the time to wait for transactions, the instance and the state of the chain.
/// No transaction is queued, and included ones are forgotten after a minute.
pub proof fn law_builder_state_is_as_configured<N: NodeTypes, H, A>(run: Run<N, H, A>)
    requires
        run.creates(),
        run.created is Ok,
    ensures
        run.state_args().parent.view_number == run.given.bootstrapped_view,
        run.state_args().parent.vid_commitment == run.genesis.vid_commitment,
        run.state_args().parent.leaf_commit == run.genesis.leaf_commit,
        run.state_args().parent.builder_commitment == run.genesis.builder_commitment,
        run.state_args().receivers == run.receivers,
        run.state_args().request_receiver == run.opening@.requests.receiver(),
        run.state_args().tx_queue@.len() == 0,
        run.state_args().global_state == run.global_state,
        run.state_args().maximize_txns_count_timeout_duration
            == run.given.maximize_txns_count_timeout_duration,
        *run.state_args().instance_state == run.given.instance_state,
        run.state_args().txn_garbage_collect_secs == 60,
        *run.state_args().validated_state == run.given.validated_state,
{
}

/// A builder lacks a bid exactly where it was told to bid and not what for.
pub proof fn law_only_a_reserve_builder_can_lack_a_bid<N: NodeTypes, H, A>(
    run: Run<N, H, A>,
    lacks: bool,
)
    requires
        run.creates(),
        run.created is Ok,
        call_ensures(
            Awaiting::<BuilderSetup<N>>::lacks_bid_config,
            (&run.created->Ok_0.1,),
            lacks,
        ),
    ensures
        lacks <==> run.given.is_reserve && run.given.bid_config is None,
{
}

/// A builder gets the hooks of a reserve builder if and only if it was asked to
/// be one, on that alone.
pub proof fn law_the_role_is_the_one_asked_for<N: NodeTypes, H, A>(run: Run<N, H, A>)
    requires
        run.starts(),
    ensures
        run.started.0 is Reserve <==> run.given.is_reserve,
        run.started.0 is Fallback <==> !run.given.is_reserve,
{
}

/// Hooks of either sort ask the solver that was given.
pub proof fn law_hooks_ask_the_solver<N: NodeTypes, H, A>(run: Run<N, H, A>)
    requires
        run.starts(),
    ensures
        run.started.0 matches BuilderHooks::Reserve(hooks) ==> hooks.solver_api_url
            == run.given.solver_api_url,
        run.started.0 matches BuilderHooks::Fallback(hooks) ==> hooks.solver_api_url
            == run.given.solver_api_url,
{
}

/// A fallback builder has been told of no namespaces to skip, not even of none.
pub proof fn law_a_fallback_builder_knows_of_no_bids<N: NodeTypes, H, A>(run: Run<N, H, A>)
    requires
        run.starts(),
    ensures
        run.started.0 matches BuilderHooks::Fallback(hooks) ==> hooks.namespaces_to_skip is None,
{
}

/// A reserve builder bids the amount that was configured, for the namespaces
/// that were configured and no others, under its own key and for the address
/// that its own API has.
pub proof fn law_bids_are_as_configured<N: NodeTypes, H, A>(run: Run<N, H, A>)
    requires
        run.starts(),
    ensures
        run.started.0 matches BuilderHooks::Reserve(hooks) ==> {
            &&& run.given.bid_config is Some
            &&& hooks.bid_amount.value() == run.given.bid_config->0.amount.value()
            &&& hooks.bid_amount.limbs@ == run.given.bid_config->0.amount.limbs@
            &&& forall|namespace: u64| #[trigger]
                hooks.namespaces@.contains(namespace)
                    <==> run.given.bid_config->0.namespaces@.contains(namespace)
            &&& cloned(run.given.builder_key_pair, hooks.bid_key_pair)
            &&& hooks.builder_api_base_url == run.given.builder_api_url
        },
{
    broadcast use vstd::seq_lib::group_seq_properties;

}

/// Reserve builders bid the same amount if and only if they were configured to.
pub proof fn law_bids_are_told_apart<N: NodeTypes, H, A>(
    one: Run<N, H, A>,
    other: Run<N, H, A>,
)
    requires
        one.starts(),
        other.starts(),
    ensures
        one.started.0 matches BuilderHooks::Reserve(hooks) ==> (
        other.started.0 matches BuilderHooks::Reserve(other_hooks) ==> (hooks.bid_amount.value()
            == other_hooks.bid_amount.value() <==> one.given.bid_config->0.amount.value()
            == other.given.bid_config->0.amount.value())),
{
}

/// The builder API is made of the global state, the hooks, the key of the builder
/// and the time that a request may take. If it can be put together, and only
/// then, it is served, at the address that was given for it.
pub proof fn law_api_is_as_configured<N: NodeTypes, H, A>(run: Run<N, H, A>)
    requires
        run.serves(),
    ensures
        run.services.0.global_state == run.global_state,
        run.services.0.hooks == run.hooks,
        run.services.0.builder_key_pair == run.given.builder_key_pair,
        run.services.0.api_timeout == run.given.api_timeout,
        run.built is Ok <==> run.app is Ok,
        run.built matches Err(e) ==> e == InitError::App(run.app->Err_0),
        run.built matches Ok((server, next)) ==> {
            &&& server.app == run.app->Ok_0
            &&& server.url == run.given.builder_api_url
            &&& next@.events_api_url == run.given.events_api_url
        },
{
}

/// If the events API can be connected to, and only then, the builder is started:
/// its events come by that connection and go to the channels that were opened,
/// the one of transactions as it was resized, and it has the global state and the
/// two addresses that the start-up was about.
pub proof fn law_services_are_as_configured<N: NodeTypes, H, A>(run: Run<N, H, A>)
    requires
        run.ends(),
    ensures
        run.connected is Ok <==> run.stream is Ok,
        run.connected matches Err(e) ==> e == InitError::EventStream(run.stream->Err_0),
        run.connected matches Ok((feed, config)) ==> {
            &&& feed.stream == run.stream->Ok_0
            &&& feed.hooks == run.hooks
            &&& feed.senders.transactions == run.tx_sender
            &&& feed.senders.others == run.senders.others
            &&& config.global_state == run.global_state
            &&& config.hotshot_events_api_url == run.given.events_api_url
            &&& config.hotshot_builder_apis_url == run.given.builder_api_url
        },
{
}

/// A feed that failed makes the builder start anew, and no other does.
pub proof fn law_a_failed_feed_restarts_the_builder(
    result: Result<(), anyhow::Error>,
    exit: ServiceExit,
)
    requires
        call_ensures(service_exited, (&result,), exit),
    ensures
        exit is Restart <==> result is Err,
        exit is Stop <==> result is Ok,
{
}

/// What there is to say of an error depends on its sort alone, and the three
/// sorts are told apart by it.
pub proof fn law_errors_are_told_apart(
    one: InitError,
    context: Option<&'static str>,
    other: InitError,
    other_context: Option<&'static str>,
)
    requires
        call_ensures(InitError::context, (&one,), context),
        call_ensures(InitError::context, (&other,), other_context),
    ensures
        context is None <==> one is EventStream,
        (context is None && other_context is None || (context is Some && other_context is Some
            && context->0@ == other_context->0@)) <==> {
            ||| one is BaseFee && other is BaseFee
            ||| one is App && other is App
            ||| one is EventStream && other is EventStream
        },
        one is BaseFee ==> context->0@
            == "the base fee exceeds the maximum amount that a builder can pay (defined by u64::MAX)"@,
        one is App ==> context->0@ == "Failed to construct builder API app"@,
{
    reveal_strlit(
        "the base fee exceeds the maximum amount that a builder can pay (defined by u64::MAX)",
    );
    reveal_strlit("Failed to construct builder API app");
    assert("the base fee exceeds the maximum amount that a builder can pay (defined by u64::MAX)"@.len()
        != "Failed to construct builder API app"@.len());
}

/// Channels can have capacities that are not zero, as long as the messages of
/// the channel of requests, each with a counter, fit an allocation.
pub proof fn law_capacities_are_limited_by_memory_alone<N: NodeTypes>(
    tx_channel_capacity: usize,
    event_channel_capacity: usize,
    fit: bool,
)
    requires
        call_ensures(
            BuilderConfig::<N>::check_capacities,
            (tx_channel_capacity, event_channel_capacity),
            fit,
        ),
    ensures
        fit <==> {
            &&& tx_channel_capacity != 0
            &&& event_channel_capacity != 0
            &&& event_channel_capacity * vstd::layout::size_of::<(N::Message, usize)>()
                <= isize::MAX
        },
{
}

/// The instance state holds the parameters as they were given, the version that
/// was asked for, and a node number that is the largest there is.
pub proof fn law_instance_state_is_as_configured<const MAJOR: u16, const MINOR: u16, C>(
    chain_config: C,
    l1_params: L1Params,
    state_peers: Vec<Url>,
    result: Result<NodeState<C>, anyhow::Error>,
)
    requires
        call_ensures(
            build_instance_state::<MAJOR, MINOR, C>,
            (chain_config, l1_params, state_peers),
            result,
        ),
    ensures
        result is Ok,
        result->Ok_0.chain_config == chain_config,
        result->Ok_0.l1_client.url == l1_params.url,
        result->Ok_0.l1_client.events_max_block_range == l1_params.events_max_block_range,
        result->Ok_0.peers.urls@ == state_peers@,
        result->Ok_0.current_version.major == MAJOR,
        result->Ok_0.current_version.minor == MINOR,
        result->Ok_0.node_id == 0xffff_ffff_ffff_ffff,
{
}

/// An amount is written in digits of base 2^64: the first is the remainder of
/// the amount, and the others are the digits of the quotient. An amount whose
/// digits are all zero is none.
pub proof fn law_amounts_are_written_in_digits(amount: FeeAmount)
    ensures
        amount.value() % 0x1_0000_0000_0000_0000 == amount.limbs@[0],
        amount.value() / 0x1_0000_0000_0000_0000 == (FeeAmount {
            limbs: [amount.limbs@[1], amount.limbs@[2], amount.limbs@[3], 0],
        }).value(),
        amount.value() == 0 <==> forall|i: int| 0 <= i < 4 ==> amount.limbs@[i] == 0,
{
}

/// An amount is a `u64` exactly where all digits but the first are zero, and is
/// that digit then.
pub proof fn law_small_amounts_have_one_digit(amount: FeeAmount, small: Option<u64>)
    requires
        call_ensures(FeeAmount::as_u64, (&amount,), small),
    ensures
        small is Some <==> amount.limbs@[1] == 0 && amount.limbs@[2] == 0 && amount.limbs@[3] == 0,
        small matches Some(v) ==> v == amount.limbs@[0],
{
}

/// A `u64` made an amount, and that a `u64` again, is what it was.
pub proof fn law_amounts_undo_their_making(v: u64, amount: FeeAmount, small: Option<u64>)
    requires
        call_ensures(<FeeAmount as From<u64>>::from, (v,), amount),
        call_ensures(FeeAmount::as_u64, (&amount,), small),
    ensures
        amount.value() == v,
        small == Some(v),
{
}

/// A copy of a configuration has its global state and its addresses.
pub proof fn law_a_copy_is_the_same_builder<N: NodeTypes>(
    config: BuilderConfig<N>,
    copy: BuilderConfig<N>,
)
    requires
        call_ensures(<BuilderConfig<N> as Clone>::clone, (&config,), copy),
    ensures
        copy.global_state == config.global_state,
        copy.hotshot_events_api_url == config.hotshot_events_api_url,
        copy.hotshot_builder_apis_url == config.hotshot_builder_apis_url,
{
}

} // verus!
