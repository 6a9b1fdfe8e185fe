//! Error kinds and the poll outcome type shared by every call handle.

use vstd::prelude::*;

verus! {

/// The three terminal ways a call can fail.
///
/// `ChannelClosed` is detected at submission time, when the transport-side
/// consumer of the outbound channel is gone. `Timeout` is produced by a
/// [`crate::responder::Response`] whose timer elapsed before a result
/// arrived. `Upstream` carries verbatim an application-level failure that the
/// transport delivered via `complete`.
#[derive(Debug, PartialEq, Eq)]
pub enum RpcError<E> {
    ChannelClosed,
    Timeout,
    Upstream(E),
}

/// One step of driving a call handle: either the call resolved with a final
/// result, or it is still pending and a waiter has been registered.
#[derive(Debug, PartialEq, Eq)]
pub enum PollOutcome<Output, E> {
    Ready(Result<Output, RpcError<E>>),
    Pending,
}

/// How a result delivered by the transport surfaces to the caller: a success
/// is passed through, an application-level failure is wrapped as `Upstream`.
pub open spec fn surfaced<Output, E>(delivered: Result<Output, E>) -> Result<Output, RpcError<E>> {
    match delivered {
        Ok(v) => Ok(v),
        Err(e) => Err(RpcError::Upstream(e)),
    }
}

} // verus!
