//! What holds of a start-up as a whole.

use crate::builder::{
    BuilderConfig, BuilderSetup, BuilderStateArgs, ChannelSetup, EventSenders, Genesis,
    GenesisSetup, GlobalStateSetup,
};
use crate::error::InitError;
use crate::fee::FeeAmount;
use crate::hooks::{BuilderHooks, EspressoReserveHooks};
use crate::node::NodeTypes;
use async_broadcast::Sender;
use std::sync::Arc;
use vstd::prelude::*;
use vstd::std_specs::convert::FromSpec;

pub mod run;

verus! {

/// What comes of a start-up from its global state on, with `app` for the attempt
/// to put the builder API together and `stream` for that to connect to the
/// events API. Every step is taken where the one before it allows it; there is
/// no outcome where the builder is to bid and has not been told what for, since
/// the hooks cannot be chosen then.
pub open spec fn start_up<N: NodeTypes, H, A>(
    setup: GlobalStateSetup<N>,
    global_state: Arc<N::GlobalState>,
    hooks: Arc<H>,
    app: Result<A, anyhow::Error>,
    stream: Result<N::EventStream, anyhow::Error>,
) -> Option<Result<BuilderConfig<N>, InitError>> {
    if !setup.fee_is_payable() {
        Some(Err(InitError::BaseFee))
    } else if !setup.next(global_state).wf() {
        None
    } else {
        match setup.next(global_state).service.app_setup(hooks).after_app(app) {
            Ok((_, next)) => match next.after_stream(stream) {
                Ok((_, config)) => Some(Ok(config)),
                Err(e) => Some(Err(e)),
            },
            Err(e) => Some(Err(e)),
        }
    }
}

/// A builder is started if and only if its base fee is payable, it knows what to
/// bid for if it bids, its API can be put together and the events API can be
/// connected to. It then has the global state that was created and the addresses
/// that were asked for. Where the fee, the API or the connection fails, the error
/// is that of the first of them to do so.
pub proof fn law_start_up_succeeds_exactly_when_every_step_does<N: NodeTypes, H, A>(
    setup: GlobalStateSetup<N>,
    global_state: Arc<N::GlobalState>,
    hooks: Arc<H>,
    app: Result<A, anyhow::Error>,
    stream: Result<N::EventStream, anyhow::Error>,
)
    ensures
        ({
            let payable = setup.settings.base_fee.value() <= u64::MAX;
            let can_bid = setup.settings.is_reserve ==> setup.settings.bid_config is Some;
            let outcome = start_up(setup, global_state, hooks, app, stream);
            &&& outcome is None <==> payable && !can_bid
            &&& (outcome is Some && outcome->0 is Ok) <==> payable && can_bid && app is Ok
                && stream is Ok
            &&& outcome matches Some(Ok(config)) ==> {
                &&& config.global_state == global_state
                &&& config.hotshot_events_api_url == setup.settings.events_api_url
                &&& config.hotshot_builder_apis_url == setup.settings.builder_api_url
            }
            &&& outcome matches Some(Err(e)) ==> e == (if !payable {
                InitError::BaseFee
            } else if app is Err {
                InitError::App(app->Err_0)
            } else {
                InitError::EventStream(stream->Err_0)
            })
        }),
{
}

/// The parts of a builder agree on what they share. The global state and the
/// builder start from one block and one view. The global state has the sender,
/// and the builder the receiver, of the one channel of requests that the
/// start-up opened. The sender of transactions that comes back from resizing is
/// the one that the global state has a clone of and that the services send by;
/// the one handed out for it is the one that was opened. The builder has the receiving sides of the channels of consensus events,
/// and the services the sending ones. The builder, its API and the configuration
/// have one global state.
pub proof fn law_parts_of_a_builder_agree<N: NodeTypes, H>(
    opening: ChannelSetup<N>,
    senders: EventSenders<N>,
    receivers: N::Receivers,
    tx_sender: Sender<N::ReceivedTransaction>,
    genesis_setup: GenesisSetup<N>,
    genesis: Genesis<N>,
    global_state: Arc<N::GlobalState>,
    builder_args: BuilderStateArgs<N>,
    hooks: Arc<H>,
)
    requires
        opening.opened(senders, receivers).with_tx_sender(tx_sender).resized(genesis_setup),
        genesis_setup.built(genesis).state_args(global_state, builder_args),
    ensures
        ({
            let resizing = opening.opened(senders, receivers);
            let global_state_args = genesis_setup.global_state_args(genesis);
            let setup = genesis_setup.built(genesis);
            let service = setup.next(global_state).service;
            let services = service.app_setup(hooks);
            &&& resizing.tx_channel_capacity == opening.tx_channel_capacity
            &&& resizing.senders.transactions == senders.transactions
            &&& setup.senders.transactions == tx_sender
            &&& services.senders.transactions == tx_sender
            &&& services.senders.others == senders.others
            &&& setup.settings == opening.settings
            &&& builder_args.parent.vid_commitment == global_state_args.vid_commitment
            &&& builder_args.parent.vid_commitment == genesis.vid_commitment
            &&& builder_args.parent.builder_commitment == genesis.builder_commitment
            &&& builder_args.parent.leaf_commit == genesis.leaf_commit
            &&& builder_args.parent.view_number == global_state_args.bootstrapped_view
            &&& builder_args.parent.view_number == opening.settings.bootstrapped_view
            &&& global_state_args.request_sender == opening.requests.sender()
            &&& builder_args.request_receiver == opening.requests.receiver()
            &&& builder_args.receivers == receivers
            &&& builder_args.global_state == global_state
            &&& service.app_args(hooks).global_state == global_state
            &&& services.global_state == global_state
            &&& service.app_args(hooks).builder_key_pair == opening.settings.builder_key_pair
            &&& service.app_args(hooks).api_timeout == opening.settings.api_timeout
        }),
{
}

/// The hooks of a builder come from the settings of its start-up and from nothing
/// else. They are those of a reserve builder if and only if the settings say so,
/// and ask the solver of the settings. A reserve builder bids the amount of the
/// settings, for the namespaces of the settings, with the key and the address of
/// the settings.
pub proof fn law_hooks_follow_the_settings<N: NodeTypes>(
    setup: GlobalStateSetup<N>,
    global_state: Arc<N::GlobalState>,
    hooks: BuilderHooks<N::KeyPair>,
)
    requires
        setup.next(global_state).chose(hooks),
    ensures
        hooks is Reserve <==> setup.settings.is_reserve,
        hooks matches BuilderHooks::Reserve(hooks) ==> {
            &&& setup.settings.bid_config is Some
            &&& hooks.solver_api_url == setup.settings.solver_api_url
            &&& hooks.builder_api_base_url == setup.settings.builder_api_url
            &&& hooks.bid_amount.value() == setup.settings.bid_config->0.amount.value()
            &&& cloned(setup.settings.builder_key_pair, hooks.bid_key_pair)
            &&& forall|namespace: u64| #[trigger]
                hooks.namespaces@.contains(namespace)
                    <==> setup.settings.bid_config->0.namespaces@.contains(namespace)
        },
        hooks matches BuilderHooks::Fallback(hooks) ==> {
            &&& hooks.solver_api_url == setup.settings.solver_api_url
            &&& hooks.namespaces_to_skip is None
        },
{
    broadcast use vstd::seq_lib::group_seq_properties;

}

/// Bids are of one amount if and only if the settings are: neither the role of a
/// builder nor anything else of its settings has a say in it.
pub proof fn law_bids_tell_amounts_apart<N: NodeTypes>(
    one: GlobalStateSetup<N>,
    other: GlobalStateSetup<N>,
    global_state: Arc<N::GlobalState>,
    other_global_state: Arc<N::GlobalState>,
    hooks: EspressoReserveHooks<N::KeyPair>,
    other_hooks: EspressoReserveHooks<N::KeyPair>,
)
    requires
        one.next(global_state).chose(BuilderHooks::Reserve(hooks)),
        other.next(other_global_state).chose(BuilderHooks::Reserve(other_hooks)),
    ensures
        hooks.bid_amount.value() < other_hooks.bid_amount.value()
            <==> one.settings.bid_config->0.amount.value()
            < other.settings.bid_config->0.amount.value(),
        hooks.bid_amount.value() == other_hooks.bid_amount.value()
            <==> one.settings.bid_config->0.amount.value()
            == other.settings.bid_config->0.amount.value(),
{
}

/// The state of a builder comes from the settings that the start-up was begun
/// with, whatever sort of builder it is: the fee is the one of the settings, and
/// so are the time to wait for transactions, the view, the instance and the state
/// of the chain.
pub proof fn law_state_follows_the_settings<N: NodeTypes>(
    opening: ChannelSetup<N>,
    senders: EventSenders<N>,
    receivers: N::Receivers,
    tx_sender: Sender<N::ReceivedTransaction>,
    genesis_setup: GenesisSetup<N>,
    genesis: Genesis<N>,
    global_state: Arc<N::GlobalState>,
    builder_args: BuilderStateArgs<N>,
)
    requires
        opening.opened(senders, receivers).with_tx_sender(tx_sender).resized(genesis_setup),
        genesis_setup.built(genesis).state_args(global_state, builder_args),
    ensures
        builder_args.base_fee == opening.settings.base_fee.value(),
        builder_args.maximize_txns_count_timeout_duration
            == opening.settings.maximize_txns_count_timeout_duration,
        builder_args.parent.view_number == opening.settings.bootstrapped_view,
        *builder_args.instance_state == opening.settings.instance_state,
        *builder_args.validated_state == opening.settings.validated_state,
        builder_args.txn_garbage_collect_secs == 60,
        builder_args.tx_queue@.len() == 0,
{
}

/// A builder bids if and only if it is a reserve builder, and only then needs to
/// be told what to bid for.
pub proof fn law_only_a_reserve_builder_bids<N: NodeTypes>(
    setup: BuilderSetup<N>,
    hooks: BuilderHooks<N::KeyPair>,
)
    requires
        setup.chose(hooks),
    ensures
        hooks is Reserve <==> setup.is_reserve,
        !setup.is_reserve ==> (BuilderSetup { bid_config: None, ..setup }).wf(),
        !setup.is_reserve ==> (BuilderSetup { bid_config: None, ..setup }).chose(hooks),
{
}

/// The address that a bid gives is the one that the API is served at and that
/// the configuration names; and the events come from the address that it names.
pub proof fn law_addresses_agree<N: NodeTypes, H, A>(
    setup: BuilderSetup<N>,
    hooks: BuilderHooks<N::KeyPair>,
    shared: Arc<H>,
    app: A,
    stream: N::EventStream,
)
    requires
        setup.chose(hooks),
    ensures
        setup.service.app_setup(shared).after_app(Ok(app)) matches Ok((server, next)) && (
        next.after_stream(Ok(stream)) matches Ok((feed, config)) && {
            &&& server.url == config.hotshot_builder_apis_url
            &&& next.events_api_url == config.hotshot_events_api_url
            &&& hooks matches BuilderHooks::Reserve(hooks) ==> hooks.builder_api_base_url
                == server.url
        }),
{
}

/// What a builder bids for does not depend on the order in which its namespaces
/// are listed, nor on how often one is.
pub proof fn law_bids_ignore_order_and_repetition<N: NodeTypes>(
    one: BuilderSetup<N>,
    other: BuilderSetup<N>,
    hooks: BuilderHooks<N::KeyPair>,
    other_hooks: BuilderHooks<N::KeyPair>,
)
    requires
        one.is_reserve,
        other.is_reserve,
        one.chose(hooks),
        other.chose(other_hooks),
        forall|namespace: u64|
            one.bid_config->0.namespaces@.contains(namespace)
                <==> other.bid_config->0.namespaces@.contains(namespace),
    ensures
        hooks matches BuilderHooks::Reserve(hooks) && (other_hooks matches BuilderHooks::Reserve(
            other_hooks,
        ) && hooks.namespaces@ == other_hooks.namespaces@),
{
    broadcast use vstd::seq_lib::group_seq_properties;

    assert(one.bid_config->0.namespaces@.to_set() == other.bid_config->0.namespaces@.to_set());
}

/// An amount that was a `u64` is that `u64` again.
pub proof fn law_small_fees_are_kept(amount: u64)
    ensures
        <FeeAmount as FromSpec<u64>>::from_spec(amount).value() == amount,
{
}

/// Different amounts are different numbers, all of them below 2^256.
pub proof fn law_fees_are_numbers_of_256_bits(one: FeeAmount, other: FeeAmount)
    ensures
        one.value() < crate::fee::LIMB_BASE * crate::fee::LIMB_BASE * crate::fee::LIMB_BASE
            * crate::fee::LIMB_BASE,
        one.value() == other.value() <==> one.limbs@ == other.limbs@,
{
    if one.value() == other.value() {
        assert(one.limbs@[0] == other.limbs@[0]);
        assert(one.limbs@[1] == other.limbs@[1]);
        assert(one.limbs@[2] == other.limbs@[2]);
        assert(one.limbs@ == other.limbs@);
    }
}

} // verus!
