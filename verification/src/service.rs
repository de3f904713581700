//! The services of a builder: its API, and the feed of consensus events.

use crate::builder::{BuilderConfig, EventSenders};
use crate::error::InitError;
use crate::node::NodeTypes;
use crate::step::Awaiting;
use std::sync::Arc;
use std::time::Duration;
use surf::Url;
use vstd::prelude::*;

verus! {

/// What the services of a builder are made of.
#[verifier::reject_recursive_types(N)]
pub struct ServiceSetup<N: NodeTypes> {
    /// What the builder and its API share.
    pub global_state: Arc<N::GlobalState>,
    /// Where consensus events go.
    pub senders: EventSenders<N>,
    /// The key pair of the builder.
    pub builder_key_pair: N::KeyPair,
    /// Where consensus events come from.
    pub events_api_url: Url,
    /// Where bundles are offered.
    pub builder_api_url: Url,
    /// How long a request to the builder API may take.
    pub api_timeout: Duration,
}

/// What the builder API is made of.
#[verifier::reject_recursive_types(N)]
#[verifier::reject_recursive_types(H)]
pub struct AppArgs<N: NodeTypes, H> {
    /// What the API shares with the builder.
    pub global_state: Arc<N::GlobalState>,
    /// What the builder does beside building.
    pub hooks: Arc<H>,
    /// Signs what the API gives out; its account receives the fees.
    pub builder_key_pair: N::KeyPair,
    /// How long a request may take.
    pub api_timeout: Duration,
}

/// Services that wait for the builder API to be put together.
#[verifier::reject_recursive_types(N)]
#[verifier::reject_recursive_types(H)]
pub struct AppSetup<N: NodeTypes, H> {
    /// Where consensus events go.
    pub senders: EventSenders<N>,
    /// What the builder does beside building.
    pub hooks: Arc<H>,
    /// What the builder and its API share.
    pub global_state: Arc<N::GlobalState>,
    /// Where consensus events come from.
    pub events_api_url: Url,
    /// Where bundles are offered.
    pub builder_api_url: Url,
}

/// A builder API that is to be served from now on.
pub struct ApiServer<A> {
    /// The API.
    pub app: A,
    /// The address to serve it at.
    pub url: Url,
}

/// Services that wait for a connection to the events API, which is at
/// `events_api_url`.
#[verifier::reject_recursive_types(N)]
#[verifier::reject_recursive_types(H)]
pub struct StreamSetup<N: NodeTypes, H> {
    /// Where consensus events go.
    pub senders: EventSenders<N>,
    /// What the builder does beside building.
    pub hooks: Arc<H>,
    /// What the builder and its API share.
    pub global_state: Arc<N::GlobalState>,
    /// Where consensus events come from.
    pub events_api_url: Url,
    /// Where bundles are offered.
    pub builder_api_url: Url,
}

/// A feed of consensus events that is to run from now on.
#[verifier::reject_recursive_types(N)]
#[verifier::reject_recursive_types(H)]
pub struct EventService<N: NodeTypes, H> {
    /// What the builder does beside building.
    pub hooks: Arc<H>,
    /// Where consensus events go.
    pub senders: EventSenders<N>,
    /// Where consensus events come from.
    pub stream: N::EventStream,
}

/// What to do when a feed of consensus events has ended.
#[derive(Clone, Copy, Debug, PartialEq, Eq, Structural)]
pub enum ServiceExit {
    /// Leave it at that.
    Stop,
    /// Give up, so that the builder is started anew.
    Restart,
}

/// Decides what to do when a feed of consensus events has ended with `result`.
/// A builder that missed events must not go on.
pub fn service_exited(result: &Result<(), anyhow::Error>) -> (r: ServiceExit)
    ensures
        r == (if result is Err {
            ServiceExit::Restart
        } else {
            ServiceExit::Stop
        }),
{
    match result {
        Ok(_) => ServiceExit::Stop,
        Err(_) => ServiceExit::Restart,
    }
}

impl<N: NodeTypes> BuilderConfig<N> {
    /// Begins to start the services of a builder. The builder API is to be put
    /// together next.
    pub(crate) fn start_service<H>(
        global_state: Arc<N::GlobalState>,
        senders: EventSenders<N>,
        hooks: Arc<H>,
        builder_key_pair: N::KeyPair,
        events_api_url: Url,
        builder_api_url: Url,
        api_timeout: Duration,
    ) -> (r: (AppArgs<N, H>, Awaiting<AppSetup<N, H>>))
        ensures
            r.0 == (AppArgs::<N, H> { global_state, hooks, builder_key_pair, api_timeout }),
            r.1@ == (AppSetup::<N, H> {
                senders,
                hooks,
                global_state,
                events_api_url,
                builder_api_url,
            }),
    {
        let args = AppArgs {
            global_state: Arc::clone(&global_state),
            hooks: Arc::clone(&hooks),
            builder_key_pair,
            api_timeout,
        };
        let next = AppSetup { senders, hooks, global_state, events_api_url, builder_api_url };
        (args, Awaiting::new(next))
    }
}

impl<N: NodeTypes> ServiceSetup<N> {
    /// What the builder API is made of.
    pub open spec fn app_args<H>(self, hooks: Arc<H>) -> AppArgs<N, H> {
        AppArgs {
            global_state: self.global_state,
            hooks,
            builder_key_pair: self.builder_key_pair,
            api_timeout: self.api_timeout,
        }
    }

    /// The services while the builder API is put together.
    pub open spec fn app_setup<H>(self, hooks: Arc<H>) -> AppSetup<N, H> {
        AppSetup {
            senders: self.senders,
            hooks,
            global_state: self.global_state,
            events_api_url: self.events_api_url,
            builder_api_url: self.builder_api_url,
        }
    }
}

impl<N: NodeTypes> Awaiting<ServiceSetup<N>> {
    /// Begins to start the services with the hooks of the builder.
    pub fn start<H>(self, hooks: Arc<H>) -> (r: (AppArgs<N, H>, Awaiting<AppSetup<N, H>>))
        ensures
            r.0 == self@.app_args(hooks),
            r.1@ == self@.app_setup(hooks),
    {
        let setup = self.take();
        BuilderConfig::<N>::start_service(
            setup.global_state,
            setup.senders,
            hooks,
            setup.builder_key_pair,
            setup.events_api_url,
            setup.builder_api_url,
            setup.api_timeout,
        )
    }
}

impl<N: NodeTypes, H> AppSetup<N, H> {
    /// What follows on the builder API: it is served at its address, and the
    /// events API is to be connected to; or there is none, and the start-up ends.
    pub open spec fn after_app<A>(self, app: Result<A, anyhow::Error>) -> Result<
        (ApiServer<A>, StreamSetup<N, H>),
        InitError,
    > {
        match app {
            Ok(app) => Ok(
                (
                    ApiServer { app, url: self.builder_api_url },
                    StreamSetup {
                        senders: self.senders,
                        hooks: self.hooks,
                        global_state: self.global_state,
                        events_api_url: self.events_api_url,
                        builder_api_url: self.builder_api_url,
                    },
                ),
            ),
            Err(e) => Err(InitError::App(e)),
        }
    }
}

impl<N: NodeTypes, H> Awaiting<AppSetup<N, H>> {
    /// Goes on with the builder API. If it could be put together it is to be
    /// served from now on, and the events API is to be connected to next.
    pub fn app_built<A>(self, app: Result<A, anyhow::Error>) -> (r: Result<
        (ApiServer<A>, Awaiting<StreamSetup<N, H>>),
        InitError,
    >)
        ensures
            r is Ok <==> self@.after_app(app) is Ok,
            r matches Ok((server, next)) ==> (server, next@) == self@.after_app(app)->Ok_0,
            r matches Err(e) ==> e == self@.after_app(app)->Err_0,
    {
        let setup = self.take();
        match app {
            Ok(app) => {
                let server = ApiServer { app, url: setup.builder_api_url.clone() };
                let next = StreamSetup {
                    senders: setup.senders,
                    hooks: setup.hooks,
                    global_state: setup.global_state,
                    events_api_url: setup.events_api_url,
                    builder_api_url: setup.builder_api_url,
                };
                Ok((server, Awaiting::new(next)))
            },
            Err(e) => Err(InitError::App(e)),
        }
    }
}

impl<N: NodeTypes, H> StreamSetup<N, H> {
    /// What follows on the connection to the events API: consensus events are
    /// fed to the builder, which is then started; or there is no connection, and
    /// the start-up ends.
    pub open spec fn after_stream(self, stream: Result<N::EventStream, anyhow::Error>) -> Result<
        (EventService<N, H>, BuilderConfig<N>),
        InitError,
    > {
        match stream {
            Ok(stream) => Ok(
                (
                    EventService { hooks: self.hooks, senders: self.senders, stream },
                    BuilderConfig {
                        global_state: self.global_state,
                        hotshot_events_api_url: self.events_api_url,
                        hotshot_builder_apis_url: self.builder_api_url,
                    },
                ),
            ),
            Err(e) => Err(InitError::EventStream(e)),
        }
    }
}

impl<N: NodeTypes, H> Awaiting<StreamSetup<N, H>> {
    /// Ends the start-up with the connection to the events API. If there is one,
    /// the feed of consensus events is to run from now on, and the builder is
    /// started.
    pub fn stream_connected(self, stream: Result<N::EventStream, anyhow::Error>) -> (r: Result<
        (EventService<N, H>, BuilderConfig<N>),
        InitError,
    >)
        ensures
            r == self@.after_stream(stream),
    {
        let setup = self.take();
        match stream {
            Ok(stream) => {
                let feed = EventService { hooks: setup.hooks, senders: setup.senders, stream };
                let config = BuilderConfig {
                    global_state: setup.global_state,
                    hotshot_events_api_url: setup.events_api_url,
                    hotshot_builder_apis_url: setup.builder_api_url,
                };
                Ok((feed, config))
            },
            Err(e) => Err(InitError::EventStream(e)),
        }
    }
}

} // verus!
