//! Trusted boundary to the bounded channel primitive that carries outgoing
//! requests from the dispatcher to the transport consumer.

use vstd::prelude::*;

verus! {

#[verifier::external_type_specification]
#[verifier::external_body]
#[verifier::reject_recursive_types(T)]
pub struct ExSender<T>(crossbeam_channel::Sender<T>);

#[verifier::external_type_specification]
#[verifier::external_body]
#[verifier::reject_recursive_types(T)]
pub struct ExReceiver<T>(crossbeam_channel::Receiver<T>);

/// Relies on crossbeam_channel::bounded: a FIFO channel that holds at most
/// `cap` queued messages (`cap` of zero makes a rendezvous channel). The
/// bound on `cap` keeps the call away from the capacities its documentation
/// says it panics on.
#[verifier::external_body]
pub(crate) fn channel_bounded<T>(cap: usize) -> (r: (
    crossbeam_channel::Sender<T>,
    crossbeam_channel::Receiver<T>,
))
    requires
        cap < usize::MAX / 4,
{
    crossbeam_channel::bounded(cap)
}

/// Relies on crossbeam_channel::Sender::send: blocks while the channel is
/// full, enqueues the message at the back of the queue once capacity frees
/// up, and fails, handing the message back unchanged, exactly when every
/// receiver is gone.
#[verifier::external_body]
pub(crate) fn send_message<T>(sender: &crossbeam_channel::Sender<T>, message: T) -> (r: Result<
    (),
    T,
>)
    ensures
        r matches Err(m) ==> m == message,
{
    match sender.send(message) {
        Ok(()) => Ok(()),
        Err(e) => Err(e.into_inner()),
    }
}

} // verus!
