//! Bounded multi-producer channels for error reporting and readback signals.
//!
//! Worker threads report detected errors through a small bounded channel
//! drained by a single collector; the GPU readback path signals mapping
//! completion the same way.  A channel is shared mutable state touched by
//! several threads at once, so nothing sequential can be promised of which
//! message a receive observes; the verified loops around these calls hold
//! for every outcome.

use vstd::prelude::*;

verus! {

#[verifier::external_type_specification]
#[verifier::external_body]
#[verifier::reject_recursive_types(T)]
pub struct ExSender<T>(crossbeam::channel::Sender<T>);

#[verifier::external_type_specification]
#[verifier::external_body]
#[verifier::reject_recursive_types(T)]
pub struct ExReceiver<T>(crossbeam::channel::Receiver<T>);

/// Relies on `crossbeam::channel::bounded`: a channel that holds at most
/// `cap` messages; senders block while it is full.
#[verifier::external_body]
pub(crate) fn channel_bounded<T>(cap: usize) -> (crossbeam::channel::Sender<T>, crossbeam::channel::Receiver<T>) {
    crossbeam::channel::bounded(cap)
}

/// Relies on `crossbeam::channel::Sender::send`: blocks while the channel is
/// full; reports `false` when every receiver is gone, in which case the
/// message is dropped.
#[verifier::external_body]
pub(crate) fn channel_send<T>(tx: &crossbeam::channel::Sender<T>, value: T) -> bool {
    tx.send(value).is_ok()
}

/// Relies on `crossbeam::channel::Receiver::recv`: blocks until a message
/// arrives or every sender is gone; `None` reports a closed and drained
/// channel.
#[verifier::external_body]
pub(crate) fn channel_recv<T>(rx: &crossbeam::channel::Receiver<T>) -> Option<T> {
    rx.recv().ok()
}

/// Relies on `crossbeam::channel::Receiver::try_recv`: a message if one is
/// ready, without blocking.
#[verifier::external_body]
pub(crate) fn channel_try_recv<T>(rx: &crossbeam::channel::Receiver<T>) -> Option<T> {
    rx.try_recv().ok()
}

} // verus!
