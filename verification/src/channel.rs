//! The broadcast channels of a builder.

use vstd::layout::size_of;
use vstd::prelude::*;

verus! {

/// The sending side of a broadcast channel. As a value it stands for the
/// channel that it sends to, not for what that channel holds or can hold.
#[verifier::external_type_specification]
#[verifier::external_body]
#[verifier::reject_recursive_types(T)]
pub struct ExSender<T>(async_broadcast::Sender<T>);

/// The receiving side of a broadcast channel.
#[verifier::external_type_specification]
#[verifier::external_body]
#[verifier::reject_recursive_types(T)]
pub struct ExReceiver<T>(async_broadcast::Receiver<T>);

/// A channel by which the builder API asks the builder for blocks. Its two ends
/// are those that one call of [`broadcast`] returned: nothing else makes a value
/// of this type, and its ends leave it only together.
#[verifier::reject_recursive_types(M)]
pub struct RequestChannel<M> {
    sender: async_broadcast::Sender<M>,
    receiver: async_broadcast::Receiver<M>,
    capacity: usize,
}

impl<M> RequestChannel<M> {
    /// The end for the API.
    pub closed spec fn sender(self) -> async_broadcast::Sender<M> {
        self.sender
    }

    /// The end for the builder.
    pub closed spec fn receiver(self) -> async_broadcast::Receiver<M> {
        self.receiver
    }

    /// The number of messages that the channel was opened to hold before a
    /// sender has to wait.
    pub closed spec fn opened_with(self) -> usize {
        self.capacity
    }

    /// The number of messages that the channel was opened to hold.
    pub fn capacity(&self) -> (r: usize)
        ensures
            r == self.opened_with(),
    {
        self.capacity
    }

    /// Takes the channel apart into its ends.
    pub fn into_ends(self) -> (r: (async_broadcast::Sender<M>, async_broadcast::Receiver<M>))
        ensures
            r.0 == self.sender(),
            r.1 == self.receiver(),
    {
        (self.sender, self.receiver)
    }
}

/// Whether memory of `slots` slots for messages of type `M` can be asked for:
/// the slots, each a message and the number of receivers that have yet to read
/// it, take up no more bytes than an allocation may.
pub open spec fn slots_fit<M>(slots: nat) -> bool {
    slots * size_of::<(M, usize)>() <= isize::MAX
}

/// Whether memory of `slots` slots for messages of type `M` can be asked for.
pub(crate) fn check_slots<M>(slots: usize) -> (r: bool)
    ensures
        r == slots_fit::<M>(slots as nat),
{
    let size: usize = core::mem::size_of::<(M, usize)>();
    if size == 0 {
        assert(slots * size == 0) by (nonlinear_arith)
            requires
                size == 0,
        ;
        true
    } else {
        let all: usize = isize::MAX as usize;
        let most: usize = all / size;
        assert(slots <= most <==> slots * size <= all) by (nonlinear_arith)
            requires
                size > 0,
                most == all / size,
        ;
        slots <= most
    }
}

/// Calls `async_broadcast::broadcast`, which opens a channel and returns its
/// two ends, and asks the new channel for its capacity with
/// `async_broadcast::Sender::capacity`.
///
/// Believed: the capacity that a new channel reports is the one asked for; no
/// one else can have resized it yet. The call panics where the capacity is zero,
/// or where the slots of the channel take up more bytes than an allocation may.
/// How messages travel from one end to the other is left unsaid.
#[verifier::external_body]
pub(crate) fn broadcast<M>(capacity: usize) -> (r: RequestChannel<M>)
    requires
        capacity > 0,
        slots_fit::<M>(capacity as nat),
    ensures
        r.opened_with() == capacity,
{
    let (sender, receiver) = async_broadcast::broadcast(capacity);
    let capacity = sender.capacity();
    RequestChannel { sender, receiver, capacity }
}

} // verus!
