//! Trusted declarations of std's bounded channels, and thin wrappers
//! around the calls the actor discipline makes.
//!
//! A channel is shared mutable state that other threads drain and fill, so
//! nothing useful can be promised about which value a call returns; the
//! wrappers only tell the possible outcomes apart. Everything that depends
//! on a received value is done by verified functions that take the value
//! as an argument.

use vstd::prelude::*;

verus! {

#[verifier::external_type_specification]
#[verifier::external_body]
#[verifier::reject_recursive_types(T)]
pub struct ExSyncSender<T>(std::sync::mpsc::SyncSender<T>);

#[verifier::external_type_specification]
#[verifier::external_body]
#[verifier::reject_recursive_types(T)]
pub struct ExReceiver<T>(std::sync::mpsc::Receiver<T>);

/// What became of an attempt to enqueue without blocking.
#[derive(Clone, Copy, Debug, PartialEq, Eq, Structural)]
pub enum SendOutcome {
    /// The value is in the queue.
    Sent,
    /// The queue was full; the value was dropped.
    Full,
    /// The receiving end is gone; the value was dropped.
    Closed,
}

/// Relies on std::sync::mpsc::SyncSender::clone: another sending end of
/// the same channel, for one more caller.
pub assume_specification<T>[ <std::sync::mpsc::SyncSender<T> as Clone>::clone ](
    sender: &std::sync::mpsc::SyncSender<T>,
) -> std::sync::mpsc::SyncSender<T>;

/// Relies on std::sync::mpsc::sync_channel: the sending and receiving ends
/// of a fresh channel whose queue holds at most `capacity` values.
#[verifier::external_body]
pub(crate) fn bounded_channel<T>(capacity: usize) -> (r: (
    std::sync::mpsc::SyncSender<T>,
    std::sync::mpsc::Receiver<T>,
)) {
    std::sync::mpsc::sync_channel(capacity)
}

/// Relies on std::sync::mpsc::SyncSender::try_send: enqueues without ever
/// blocking, and reports a full queue and a hung-up receiver apart.
#[verifier::external_body]
pub(crate) fn try_send<T>(sender: &std::sync::mpsc::SyncSender<T>, value: T) -> (r: SendOutcome) {
    match sender.try_send(value) {
        Ok(()) => SendOutcome::Sent,
        Err(std::sync::mpsc::TrySendError::Full(_)) => SendOutcome::Full,
        Err(std::sync::mpsc::TrySendError::Disconnected(_)) => SendOutcome::Closed,
    }
}

/// Relies on std::sync::mpsc::SyncSender::send: blocks until the queue has
/// room; false when the receiving end is gone.
#[verifier::external_body]
pub(crate) fn send<T>(sender: &std::sync::mpsc::SyncSender<T>, value: T) -> (r: bool) {
    match sender.send(value) {
        Ok(()) => true,
        Err(_) => false,
    }
}

/// Relies on std::sync::mpsc::Receiver::recv: blocks until a value
/// arrives; `None` once every sender is gone and the queue is drained.
#[verifier::external_body]
pub(crate) fn recv<T>(receiver: &std::sync::mpsc::Receiver<T>) -> (r: Option<T>) {
    match receiver.recv() {
        Ok(v) => Some(v),
        Err(_) => None,
    }
}

} // verus!
