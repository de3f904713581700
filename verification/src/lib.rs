//! Start-up of a marketplace block builder.
//!
//! A builder listens to the events of a consensus network, keeps the
//! transactions it has heard of, and offers bundles of them through an HTTP
//! API. This crate decides how such a builder is put together: how large its
//! channels are, which block it builds on first, what it charges, whether it
//! bids for namespaces or serves the rest, and what has to succeed before it
//! counts as started.
//!
//! Starting a builder alternates between these decisions and work that has to
//! be awaited. [`BuilderConfig::init`](crate::builder::BuilderConfig::init)
//! begins the start-up and returns the first of a chain of
//! [steps](crate::step::Awaiting), one for each thing that is awaited. Each of
//! them says what has to be done next, and has a method that takes what came of
//! it and returns the following step. A step comes from the one before it and
//! from nowhere else.

pub mod builder;
pub mod channel;
pub mod error;
pub mod fee;
pub mod hooks;
pub mod instance;
pub mod laws;
pub mod node;
pub mod service;
pub mod step;

pub use builder::{
    BuilderConfig, BuilderSetup, BuilderStateArgs, BuiltFromProposedBlock, ChannelSetup,
    EventSenders, Genesis, GenesisSetup, GlobalStateArgs, GlobalStateSetup, Settings, TxChannelSetup,
};
pub use channel::RequestChannel;
pub use error::InitError;
pub use fee::FeeAmount;
pub use hooks::{BidConfig, BuilderHooks, EspressoFallbackHooks, EspressoReserveHooks};
pub use instance::{build_instance_state, L1Client, L1Params, NodeState, StatePeers, Version};
pub use node::NodeTypes;
pub use service::{
    service_exited, ApiServer, AppArgs, AppSetup, EventService, ServiceExit,
    ServiceSetup, StreamSetup,
};
pub use step::Awaiting;
