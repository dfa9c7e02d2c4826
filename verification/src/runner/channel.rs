//! A bounded channel whose sending half forgives a receiver that hung up,
//! with a ready-made sender for callers who listen to nothing.

use crate::runner::event::Event;
pub use std::sync::mpsc::Receiver;
use std::sync::mpsc::sync_channel;
use std::sync::mpsc::SendError;
use std::sync::mpsc::SyncSender;
use vstd::prelude::*;

verus! {

/// `std::sync::mpsc::SyncSender`, the sending half of a bounded channel.
#[verifier::external_type_specification]
#[verifier::external_body]
#[verifier::reject_recursive_types(T)]
pub struct ExSyncSender<T>(SyncSender<T>);

/// `std::sync::mpsc::Receiver`, the receiving half of a channel.
#[verifier::external_type_specification]
#[verifier::external_body]
#[verifier::reject_recursive_types(T)]
pub struct ExReceiver<T>(Receiver<T>);

/// `std::sync::mpsc::SendError`, which hands a message back when nobody is
/// left to receive it.
#[verifier::external_type_specification]
#[verifier::external_body]
#[verifier::reject_recursive_types(T)]
pub struct ExSendError<T>(SendError<T>);

/// `std::sync::mpsc::sync_channel` makes the two halves of a channel that
/// buffers at most `bound` messages. Nothing is claimed of them.
pub assume_specification<T>[ std::sync::mpsc::sync_channel::<T> ](bound: usize) -> (halves: (
    SyncSender<T>,
    Receiver<T>,
));

/// `SyncSender::send` blocks until the message is buffered or received, and
/// fails only when the receiver is gone. Nothing is claimed of the result.
pub assume_specification<T>[ SyncSender::<T>::send ](sender: &SyncSender<T>, t: T) -> (sent: Result<
    (),
    SendError<T>,
>);

/// `SyncSender::clone` makes another sending half of the same channel.
/// Nothing is claimed of it.
pub assume_specification<T>[ <SyncSender<T> as Clone>::clone ](sender: &SyncSender<T>) -> (other:
    SyncSender<T>);

/// The number of messages that the channel of `sender` buffers: the bound
/// that `std::sync::mpsc::sync_channel` was given when it made the channel.
pub uninterp spec fn bound_made_with(sender: SyncSender<Event>) -> usize;

/// `std::sync::mpsc::sync_channel`, for a channel of events: the channel
/// that it makes buffers at most `bound` messages. Nothing else is claimed
/// of the two halves.
#[verifier::external_body]
fn sync_event_channel(bound: usize) -> (halves: (SyncSender<Event>, Receiver<Event>))
    ensures
        bound_made_with(halves.0) == bound,
{
    sync_channel(bound)
}

/// The sending half of a channel made by [`new`] or [`event_channel`].
#[verifier::reject_recursive_types(T)]
pub struct Sender<T>(SyncSender<T>);

/// A channel that buffers up to `size` messages.
pub fn new<T>(size: usize) -> (halves: (Sender<T>, Receiver<T>)) {
    let (std_sender, std_receiver) = sync_channel(size);
    (Sender(std_sender), std_receiver)
}

/// A channel on which worker tasks report, which buffers up to `size`
/// events.
pub fn event_channel(size: usize) -> (halves: (Sender<Event>, Receiver<Event>))
    ensures
        halves.0.bound() == size,
{
    let (std_sender, std_receiver) = sync_event_channel(size);
    (Sender(std_sender), std_receiver)
}

impl Sender<Event> {
    /// The number of events that the channel of the sender buffers.
    pub closed spec fn bound(&self) -> usize {
        bound_made_with(self.0)
    }
}

/// A sender whose receiver is already gone: everything sent on it is dropped.
pub fn dummy_sender<T>() -> (sender: Sender<T>) {
    new(1).0
}

impl<T> Sender<T> {
    /// Sends `t`, waiting while the buffer is full. A receiver that hung up
    /// is no error: the message is dropped.
    pub fn send(&self, t: T) {
        let _ = self.0.send(t);
    }
}

impl<T> Clone for Sender<T> {
    fn clone(&self) -> (other: Self) {
        Sender(self.0.clone())
    }
}

} // verus!
