# marketplace_builder

How a marketplace block builder is started, verified with Verus.

- `src/builder.rs`: the start-up, from `BuilderConfig::init` to the hooks of the
  builder
- `src/service.rs`: its services, from `BuilderConfig::start_service` to the
  started builder
- `src/instance.rs`: `build_instance_state`
- `src/step.rs`: what a step of the start-up is
- `src/hooks.rs`, `src/fee.rs`, `src/channel.rs`, `src/error.rs`, `src/node.rs`:
  bids, amounts, channels, errors, and the types that a node brings along
- `src/laws.rs`: what holds of a start-up as a whole
- `app/`: runs the start-up on a sequencer node

The start-up is a chain of steps. Each says what is to be done next, and its
method takes what came of it:

    BuilderConfig::init      open the channels of consensus events
    channels_opened          resize the channel of transactions
    tx_channel_resized       build the genesis block
    genesis_built            create the global state
    global_state_created     run the event loop of the builder
    builder_started          make the hooks
    start                    put the builder API together
    app_built                serve the API, connect to the events API
    stream_connected         feed the events to the builder, which is started
