//! Trusted wrappers around the cross-thread request/response channels.
//!
//! Connections talk to backend workers over FIFO channels. What a receive
//! returns depends on other threads, so the wrappers promise nothing about
//! which value arrives; the verified callers handle every outcome.

use vstd::prelude::*;

verus! {

/// The write end of a cross-thread queue.
#[verifier::external_type_specification]
#[verifier::external_body]
#[verifier::reject_recursive_types(T)]
pub struct ExSender<T>(crossbeam_channel::Sender<T>);

/// The read end of a cross-thread queue.
#[verifier::external_type_specification]
#[verifier::external_body]
#[verifier::reject_recursive_types(T)]
pub struct ExReceiver<T>(crossbeam_channel::Receiver<T>);

/// The three ways a bounded wait on a queue can end.
pub enum RecvOutcome<T> {
    /// A message arrived within the deadline.
    Received(T),
    /// The deadline passed with the queue empty.
    TimedOut,
    /// Every write end of the queue has been dropped and the queue is empty.
    Disconnected,
}

/// Relies on `crossbeam_channel::unbounded`: a fresh FIFO queue, returned as
/// its two ends.
#[verifier::external_body]
pub(crate) fn channel_unbounded<T>() -> (crossbeam_channel::Sender<T>, crossbeam_channel::Receiver<T>) {
    crossbeam_channel::unbounded()
}

/// Relies on `crossbeam_channel::bounded` with capacity one: a fresh
/// single-slot queue for exactly one response, returned as its two ends.
#[verifier::external_body]
pub(crate) fn channel_bounded_one<T>() -> (crossbeam_channel::Sender<T>, crossbeam_channel::Receiver<T>) {
    crossbeam_channel::bounded(1)
}

/// Relies on `crossbeam_channel::Sender::send`: the message is queued and
/// `true` returned, unless every read end is gone, in which case the message
/// is dropped and `false` returned. On a bounded queue that is full the call
/// waits for room; the response queues here hold one slot and take exactly
/// one message, so that wait never happens.
#[verifier::external_body]
pub(crate) fn channel_send<T>(s: &crossbeam_channel::Sender<T>, v: T) -> bool {
    s.send(v).is_ok()
}

/// Relies on `crossbeam_channel::Receiver::recv_timeout`: waits up to the
/// given number of seconds for a message; which outcome comes back depends
/// on the other threads, so nothing is promised of it.
#[verifier::external_body]
pub(crate) fn channel_recv_timeout<T>(r: &crossbeam_channel::Receiver<T>, secs: u64) -> RecvOutcome<T> {
    match r.recv_timeout(core::time::Duration::from_secs(secs)) {
        Ok(v) => RecvOutcome::Received(v),
        Err(crossbeam_channel::RecvTimeoutError::Timeout) => RecvOutcome::TimedOut,
        Err(crossbeam_channel::RecvTimeoutError::Disconnected) => RecvOutcome::Disconnected,
    }
}

/// Relies on `crossbeam_channel::Sender::clone`: another write end of the
/// same queue.
#[verifier::external_body]
pub(crate) fn channel_sender_clone<T>(s: &crossbeam_channel::Sender<T>) -> crossbeam_channel::Sender<T> {
    s.clone()
}

} // verus!
