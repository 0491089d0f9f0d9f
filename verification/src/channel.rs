//! The outbound channel: an unbounded multi-producer/single-consumer queue
//! from the crossbeam-channel crate, reached through trusted declarations.
//! What a drain returns is never assumed: the code that consumes drained
//! fragments is verified for every possible sequence of them.

use vstd::prelude::*;

verus! {

#[verifier::external_type_specification]
#[verifier::external_body]
#[verifier::reject_recursive_types(T)]
pub struct ExSender<T>(crossbeam_channel::Sender<T>);

#[verifier::external_type_specification]
#[verifier::external_body]
#[verifier::reject_recursive_types(T)]
pub struct ExReceiver<T>(crossbeam_channel::Receiver<T>);

/// Relies on crossbeam_channel::unbounded: returns the sender and receiver
/// ends of one new unbounded channel.
#[verifier::external_body]
pub(crate) fn channel_unbounded<T>() -> (crossbeam_channel::Sender<T>, crossbeam_channel::Receiver<
    T,
>) {
    crossbeam_channel::unbounded()
}

/// Relies on Sender::send: on an unbounded channel it never blocks; the value
/// is enqueued, or dropped when every receiver is gone (enqueue after
/// shutdown is a no-op, not a failure).
#[verifier::external_body]
pub(crate) fn channel_send<T>(sender: &crossbeam_channel::Sender<T>, value: T) {
    let _ = sender.send(value);
}

/// Relies on Receiver::try_recv: returns a queued value without blocking, or
/// nothing when the queue is empty or disconnected.
#[verifier::external_body]
pub(crate) fn channel_try_recv<T>(receiver: &crossbeam_channel::Receiver<T>) -> Option<T> {
    receiver.try_recv().ok()
}

/// Relies on Receiver::len: the number of values queued at the moment of the
/// call. Used only to bound a drain; nothing is assumed of the result.
#[verifier::external_body]
pub(crate) fn channel_len<T>(receiver: &crossbeam_channel::Receiver<T>) -> usize {
    receiver.len()
}

/// Relies on crossbeam_channel's Clone for Sender: the clone is a cheap
/// duplicate of the same producer handle, feeding the same channel.
pub assume_specification<T>[ <crossbeam_channel::Sender<T> as Clone>::clone ](
    sender: &crossbeam_channel::Sender<T>,
) -> (cloned: crossbeam_channel::Sender<T>)
    ensures
        cloned == *sender,
;

/// Drains, without blocking, the values that were queued when the drain
/// began: at most the queue's length at that moment, stopping early when the
/// queue reports empty. What came out is decided by the channel's state at
/// run time; every consumer of the result is verified for any sequence of
/// values.
pub(crate) fn drain<T>(receiver: &crossbeam_channel::Receiver<T>) -> Vec<T> {
    let mut items: Vec<T> = Vec::new();
    let pending: usize = channel_len(receiver);
    let mut taken: usize = 0;
    while taken < pending
        decreases pending - taken,
    {
        match channel_try_recv(receiver) {
            Some(value) => items.push(value),
            None => {
                return items;
            },
        }
        taken = taken + 1;
    }
    items
}

} // verus!
