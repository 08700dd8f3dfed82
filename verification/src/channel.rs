//! The bounded queues that decouple the wire from the application.
//!
//! The queues are `tokio::sync::mpsc` channels. The library creates them and
//! carries their handles; blocking pushes and pops are the driver's business.
//!
//! A queue that is full holds its producer back: a push waits for a free
//! slot, and no message is dropped to make room.

use crate::message::Message;
use tokio::sync::mpsc::{Receiver, Sender};
use vstd::prelude::*;

verus! {

/// Number of slots of each of the two queues of a client.
pub const QUEUE_CAPACITY: usize = 100;

/// Largest number of slots a bounded `tokio` channel accepts: an eighth of
/// the address space, rounded down.
pub const MAX_QUEUE_CAPACITY: usize = usize::MAX / 8;

/// `tokio::sync::mpsc::Sender`, the producing handle of a bounded channel.
/// Opaque: the library only carries it.
#[verifier::external_type_specification]
#[verifier::external_body]
#[verifier::reject_recursive_types(T)]
pub struct ExSender<T>(Sender<T>);

/// `tokio::sync::mpsc::Receiver`, the consuming handle of a bounded channel.
/// Opaque: the library only carries it.
#[verifier::external_type_specification]
#[verifier::external_body]
#[verifier::reject_recursive_types(T)]
pub struct ExReceiver<T>(Receiver<T>);

/// The number of slots that the channel behind a producing handle was made
/// with. It never changes over the life of the channel.
pub uninterp spec fn sender_bound(tx: Sender<Message>) -> nat;

/// The number of slots that the channel behind a consuming handle was made
/// with. It never changes over the life of the channel.
pub uninterp spec fn receiver_bound(rx: Receiver<Message>) -> nat;

/// The queue that a producing handle pushes onto. Two producing handles
/// have the same queue exactly where `Sender::same_channel` says so; only
/// whether two handles agree is ever stated, never which queue it is.
pub uninterp spec fn sender_queue(tx: Sender<Message>) -> int;

/// The queue that a consuming handle pops from: the one of the producing
/// handle it was made together with.
pub uninterp spec fn receiver_queue(rx: Receiver<Message>) -> int;

/// Calls `tokio::sync::mpsc::channel`, which panics on a capacity of zero or
/// above its maximum and otherwise returns the two handles of one new
/// channel whose bound is the capacity asked for.
#[verifier::external_body]
pub(crate) fn bounded_channel(capacity: usize) -> (ends: (Sender<Message>, Receiver<Message>))
    requires
        0 < capacity <= MAX_QUEUE_CAPACITY,
    ensures
        sender_bound(ends.0) == capacity,
        receiver_bound(ends.1) == capacity,
        sender_queue(ends.0) == receiver_queue(ends.1),
{
    tokio::sync::mpsc::channel(capacity)
}

/// Calls `Sender::clone`, which returns another producing handle of the same
/// channel.
#[verifier::external_body]
pub(crate) fn clone_sender(tx: &Sender<Message>) -> (copy: Sender<Message>)
    ensures
        sender_bound(copy) == sender_bound(*tx),
        sender_queue(copy) == sender_queue(*tx),
{
    tx.clone()
}

/// Calls `Sender::max_capacity`, which returns the bound that the channel was
/// made with.
#[verifier::external_body]
pub(crate) fn sender_max_capacity(tx: &Sender<Message>) -> (bound: usize)
    ensures
        bound == sender_bound(*tx),
{
    tx.max_capacity()
}

} // verus!
