//! The types that a node brings along.

use vstd::prelude::*;

verus! {

/// An address of an API.
#[verifier::external_type_specification]
#[verifier::external_body]
pub struct ExUrl(surf::Url);

/// The `Clone` of `url::Url`, which `surf` calls `surf::Url`. Believed: the copy
/// is the same address as the one it was made from.
pub assume_specification[ <surf::Url as Clone>::clone ](url: &surf::Url) -> (res: surf::Url)
    ensures
        res == *url,
;

/// What made a part of the start-up fail.
#[verifier::external_type_specification]
#[verifier::external_body]
pub struct ExError(anyhow::Error);

/// The types of a node that a builder is started for. The start-up hands their
/// values on and never looks into them.
pub trait NodeTypes: Sized {
    /// Signs blocks and bids, and receives the fees.
    type KeyPair: Clone;

    /// The state that a node has from its configuration.
    type InstanceState;

    /// The state of the chain that the builder starts from.
    type ValidatedState;

    /// A transaction in the payload of a block.
    type PayloadTransaction;

    /// A transaction that the builder has been told of.
    type ReceivedTransaction;

    /// What the builder API asks of the builder.
    type Message;

    /// The sending sides of the channels that consensus events come in by,
    /// but for the channel of transactions.
    type Senders;

    /// The receiving sides of the channels that consensus events come in by.
    type Receivers;

    /// Commits to the shares of a payload.
    type VidCommitment: Copy;

    /// Commits to a payload as its builder does.
    type BuilderCommitment;

    /// Commits to a leaf of the chain.
    type LeafCommitment;

    /// What the builder and its API share, with the lock around it.
    type GlobalState;

    /// A connection to the events API of a node.
    type EventStream;
}

} // verus!
