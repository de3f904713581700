//! The instance state of a node that has nothing but its configuration.

use surf::Url;
use vstd::prelude::*;

verus! {

/// A version of the protocol.
#[derive(Clone, Copy, Debug, PartialEq, Eq, Structural)]
pub struct Version {
    /// Changes with what is incompatible.
    pub major: u16,
    /// Changes with what is not.
    pub minor: u16,
}

/// How the layer below is reached.
#[derive(Debug)]
pub struct L1Params {
    /// The address of its API.
    pub url: Url,
    /// The number of blocks that one query for events may span.
    pub events_max_block_range: u64,
}

/// A client of the layer below.
#[derive(Debug)]
pub struct L1Client {
    /// The address of the API that it asks.
    pub url: Url,
    /// The number of blocks that one query for events may span.
    pub events_max_block_range: u64,
}

/// The nodes to catch up from.
#[derive(Debug)]
pub struct StatePeers {
    /// Their addresses, in the order in which they are asked.
    pub urls: Vec<Url>,
}

/// The state that a node has from its configuration alone.
#[derive(Debug)]
pub struct NodeState<C> {
    /// The number of the node.
    pub node_id: u64,
    /// The parameters of the chain.
    pub chain_config: C,
    /// How it sees the layer below.
    pub l1_client: L1Client,
    /// From whom it gets the state that it lacks.
    pub peers: StatePeers,
    /// The version that the chain started with.
    pub current_version: Version,
}

/// Calls `vbs::version::StaticVersionType::version` of
/// `vbs::version::StaticVersion`. Believed: it returns the two numbers that the
/// type is made of.
#[verifier::external_body]
fn static_version<const MAJOR: u16, const MINOR: u16>() -> (r: Version)
    ensures
        r.major == MAJOR,
        r.minor == MINOR,
{
    let version =
        <vbs::version::StaticVersion<MAJOR, MINOR> as vbs::version::StaticVersionType>::version();
    Version { major: version.major, minor: version.minor }
}

/// Builds the instance state of a builder of a chain that started with version
/// `MAJOR.MINOR` of the protocol. A builder is no numbered node: its number is
/// one that no node has, and shows up in debugging only.
pub fn build_instance_state<const MAJOR: u16, const MINOR: u16, C>(
    chain_config: C,
    l1_params: L1Params,
    state_peers: Vec<Url>,
) -> (r: Result<NodeState<C>, anyhow::Error>)
    ensures
        r matches Ok(state) && state == (NodeState {
            node_id: u64::MAX,
            chain_config,
            l1_client: L1Client {
                url: l1_params.url,
                events_max_block_range: l1_params.events_max_block_range,
            },
            peers: StatePeers { urls: state_peers },
            current_version: Version { major: MAJOR, minor: MINOR },
        }),
{
    let l1_client = L1Client {
        url: l1_params.url,
        events_max_block_range: l1_params.events_max_block_range,
    };
    Ok(
        NodeState {
            node_id: u64::MAX,
            chain_config,
            l1_client,
            peers: StatePeers { urls: state_peers },
            current_version: static_version::<MAJOR, MINOR>(),
        },
    )
}

} // verus!
