//! The caller-facing handle that submits requests and notifications.

use vstd::prelude::*;

use crate::channel::channel_bounded;
use crate::channel::send_message;
use crate::errors::RpcError;
use crate::responder::Responder;
use crate::responder::Response;
use crate::responder::TableModel;
use crate::timer::Timer;

verus! {

/// The caller-facing handle: it owns the sending end of the bounded outbound
/// channel and the responder whose completion table correlates results to
/// calls.
///
/// The channel carries `(id-or-none, payload)` pairs to the transport
/// consumer in submission order; an item with an id expects a later delivery
/// through [`Responder::complete`], an item without one is a notification and
/// expects nothing.
#[derive(Debug)]
#[verifier::reject_recursive_types(Input)]
pub struct Dispatcher<Input, Output, E, W> {
    /// The sending end of the bounded outbound channel.
    pub sender: crossbeam_channel::Sender<(Option<u64>, Input)>,
    /// The responder delivering results for the calls this dispatcher
    /// submits; the transport side uses it to complete calls by id.
    pub responder: Responder<Output, E, W>,
}

impl<Input, Output, E, W> Dispatcher<Input, Output, E, W> {
    /// A dispatcher over a fresh bounded channel of capacity `cache_size`,
    /// with an empty completion table, together with the consuming end of
    /// the channel, to be handed to the transport. Submitting beyond
    /// `cache_size` undelivered items applies backpressure to the submitter.
    pub fn new(cache_size: usize) -> (r: (
        Dispatcher<Input, Output, E, W>,
        crossbeam_channel::Receiver<(Option<u64>, Input)>,
    ))
        requires
            cache_size < usize::MAX / 4,
        ensures
            r.0.responder@ == TableModel::<Output, E, W>::empty(),
    {
        let (sender, receiver) = channel_bounded(cache_size);
        (Dispatcher { sender, responder: Responder::new() }, receiver)
    }

    /// Submit call `id` with payload `input`: enqueue `(Some(id), input)` on
    /// the outbound channel, and on success return the [`Response`] handle
    /// bound to `id` and `timeout` that the caller drives to obtain the
    /// result.
    ///
    /// Submission never touches the completion table: registration happens
    /// lazily on the response's first poll, so a failed submission leaves no
    /// dangling entry. The submission fails, with `ChannelClosed`, exactly
    /// when the transport-side consumer of the channel is gone; no response
    /// handle is produced then.
    pub fn call<T: Timer>(&mut self, id: u64, input: Input, timeout: Option<T>) -> (r: Result<
        Response<T, E>,
        RpcError<E>,
    >)
        ensures
            final(self).responder@ == old(self).responder@,
            r matches Ok(resp) ==> resp matches Response::Poller(p) && p.id == id && p.timeout
                == timeout && !p.resolved,
            r matches Err(e) ==> e == RpcError::<E>::ChannelClosed,
    {
        match send_message(&self.sender, (Some(id), input)) {
            Ok(()) => Ok(Response::poller(id, timeout)),
            Err(_) => Err(RpcError::ChannelClosed),
        }
    }

    /// Send a notification: enqueue `(None, input)` on the outbound channel.
    /// No response handle is created and the completion table is never
    /// touched; there is nothing to await. Fails, with `ChannelClosed`,
    /// exactly as [`Dispatcher::call`] does.
    pub fn notification(&mut self, input: Input) -> (r: Result<(), RpcError<E>>)
        ensures
            final(self).responder@ == old(self).responder@,
            r matches Err(e) ==> e == RpcError::<E>::ChannelClosed,
    {
        match send_message(&self.sender, (None, input)) {
            Ok(()) => Ok(()),
            Err(_) => Err(RpcError::ChannelClosed),
        }
    }
}

} // verus!
