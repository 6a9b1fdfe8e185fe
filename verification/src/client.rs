//! The channel-consumer side handle of the blocking execution model.

use vstd::prelude::*;

use crate::channel::channel_bounded;

verus! {

/// Holds the consuming end of a private bounded channel.
#[derive(Debug)]
#[verifier::reject_recursive_types(Payload)]
pub struct Client<Payload> {
    receiver: crossbeam_channel::Receiver<Payload>,
}

impl<Payload> Client<Payload> {
    /// A client over a fresh bounded channel of capacity `cap`. The producing
    /// end is dropped on the spot, so the held channel is closed from the
    /// start.
    pub fn new(cap: usize) -> (c: Client<Payload>)
        requires
            cap < usize::MAX / 4,
    {
        let (_sender, receiver) = channel_bounded::<Payload>(cap);
        Client { receiver }
    }
}

} // verus!
