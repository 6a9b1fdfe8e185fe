//! The completion table, the responder handle that delivers results by id,
//! and the per-call response handles that consume them.

use std::collections::HashMap;
use vstd::prelude::*;

use crate::errors::PollOutcome;
use crate::errors::RpcError;
use crate::errors::surfaced;
use crate::timer::Timer;

verus! {

broadcast use vstd::std_specs::hash::group_hash_axioms;

/// The mathematical content of a completion table: which call ids have a
/// registered waiter, and which hold a delivered but not yet consumed result.
#[verifier::ext_equal]
pub struct TableModel<Output, E, W> {
    /// Waiters registered by pending response handles, keyed by call id.
    pub wakers: Map<u64, W>,
    /// Results delivered by the transport and not yet consumed, keyed by
    /// call id.
    pub completed: Map<u64, Result<Output, E>>,
}

impl<Output, E, W> TableModel<Output, E, W> {
    /// The table of a freshly created responder: no waiters, no buffered
    /// results.
    pub open spec fn empty() -> TableModel<Output, E, W> {
        TableModel { wakers: Map::empty(), completed: Map::empty() }
    }

    /// The table after a result is delivered for `id`: the result is buffered
    /// under `id` (overwriting any unread one) and the waiter registered for
    /// `id`, if any, is taken out.
    pub open spec fn deliver(self, id: u64, output: Result<Output, E>) -> TableModel<Output, E, W> {
        TableModel { wakers: self.wakers.remove(id), completed: self.completed.insert(id, output) }
    }

    /// The waiter that a delivery for `id` hands out to be signalled: the one
    /// registered for `id`, if any.
    pub open spec fn waiter_to_signal(self, id: u64) -> Option<W> {
        if self.wakers.contains_key(id) {
            Some(self.wakers[id])
        } else {
            None
        }
    }

    /// The table after one check-then-register step for `id`: a buffered
    /// result is consumed if one exists, otherwise `waker` is registered as
    /// the waiter for `id`, replacing any stale one.
    pub open spec fn step(self, id: u64, waker: W) -> TableModel<Output, E, W> {
        if self.completed.contains_key(id) {
            TableModel { wakers: self.wakers, completed: self.completed.remove(id) }
        } else {
            TableModel { wakers: self.wakers.insert(id, waker), completed: self.completed }
        }
    }

    /// What a check-then-register step for `id` returns: the buffered result
    /// for `id`, if one exists.
    pub open spec fn consumed(self, id: u64) -> Option<Result<Output, E>> {
        if self.completed.contains_key(id) {
            Some(self.completed[id])
        } else {
            None
        }
    }

    /// The table after a timed-out call withdraws its waiter registration; a
    /// buffered result, if any, stays in place.
    pub open spec fn evict(self, id: u64) -> TableModel<Output, E, W> {
        TableModel { wakers: self.wakers.remove(id), completed: self.completed }
    }
}

/// The handle used by the response-producing side to deliver a result for a
/// given call id, and by response handles to register interest and retrieve a
/// delivered result.
///
/// Both maps live behind one handle so that the check-then-register sequence
/// of [`Responder::poll_once`] is a single operation on the table: a result
/// delivered between the check and the registration cannot be missed. A
/// driver that shares one responder across execution contexts must make each
/// method call atomic (one lock around the whole table).
///
/// The type is generic over the waiter tokens `W` it stores; the library
/// never inspects them, it only hands back the token to signal.
#[derive(Debug)]
pub struct Responder<Output, E, W> {
    wakers: HashMap<u64, W>,
    completed: HashMap<u64, Result<Output, E>>,
}

impl<Output, E, W> View for Responder<Output, E, W> {
    type V = TableModel<Output, E, W>;

    closed spec fn view(&self) -> TableModel<Output, E, W> {
        TableModel { wakers: self.wakers@, completed: self.completed@ }
    }
}

impl<Output, E, W> Responder<Output, E, W> {
    /// A responder with an empty completion table.
    pub fn new() -> (r: Responder<Output, E, W>)
        ensures
            r@ == TableModel::<Output, E, W>::empty(),
    {
        Responder { wakers: HashMap::new(), completed: HashMap::new() }
    }

    /// Deliver `output` for call `id`: buffer it under `id` and take out the
    /// waiter registered for `id`, if any, handing it back so the driver can
    /// signal it.
    ///
    /// Exactly one waiter is handed out per delivery, and none when no one
    /// is waiting (the result stays buffered for a later poll). A second
    /// delivery for the same id overwrites the unread result.
    pub fn complete(&mut self, id: u64, output: Result<Output, E>) -> (waiter: Option<W>)
        ensures
            final(self)@ == old(self)@.deliver(id, output),
            waiter == old(self)@.waiter_to_signal(id),
    {
        self.completed.insert(id, output);
        self.wakers.remove(&id)
    }

    /// One atomic check-then-register step for call `id`: if a result is
    /// buffered for `id`, consume and return it; otherwise register `waker`
    /// as the waiter for `id` (replacing any stale one) and report, by
    /// returning `None`, that the call is still pending.
    pub fn poll_once(&mut self, id: u64, waker: W) -> (delivered: Option<Result<Output, E>>)
        ensures
            final(self)@ == old(self)@.step(id, waker),
            delivered == old(self)@.consumed(id),
    {
        if self.completed.contains_key(&id) {
            self.completed.remove(&id)
        } else {
            self.wakers.insert(id, waker);
            None
        }
    }

    /// Withdraw the waiter registered for `id`, if any, leaving a buffered
    /// result in place. A timed-out response evicts itself this way, so that
    /// a late delivery for `id` finds no waiter to signal.
    pub fn remove_pending_poll(&mut self, id: u64)
        ensures
            final(self)@ == old(self)@.evict(id),
    {
        self.wakers.remove(&id);
    }
}

/// The waiting state of one call: its id, the optional timeout racing the
/// delivery, and whether the handle has already produced its resolution.
pub struct ResponsePoller<T> {
    /// Correlation id of the call this handle waits for.
    pub id: u64,
    /// The optional timeout racing the delivery; `None` means the handle
    /// waits indefinitely.
    pub timeout: Option<T>,
    /// Whether the handle has already produced its single resolution.
    pub resolved: bool,
}

impl<T: Timer> ResponsePoller<T> {
    /// A fresh waiting state for call `id`.
    pub fn new(id: u64, timeout: Option<T>) -> (p: ResponsePoller<T>)
        ensures
            p.id == id && p.timeout == timeout && !p.resolved,
    {
        ResponsePoller { id, timeout, resolved: false }
    }

    /// Drive the waiting call one step against the completion table.
    ///
    /// The timer, when present, is polled first, so that on the step where
    /// both the timer elapses and a result sits buffered, the timeout wins
    /// the race: the waiter registration for this id is withdrawn (a late
    /// delivery then finds no one to signal), the buffered result is left
    /// behind unconsumed, and the call resolves to `Timeout`. When no timer
    /// fires, the step consumes the buffered result for this id if one
    /// exists, and otherwise registers `waker` and stays pending; the driver
    /// is woken again specifically by a delivery for this id.
    pub fn poll<Output, E, W>(
        &mut self,
        responder: &mut Responder<Output, E, W>,
        waker: W,
    ) -> (r: PollOutcome<Output, E>)
        requires
            !old(self).resolved,
        ensures
            crate::timer::fires_now(old(self).timeout) ==> {
                &&& r == PollOutcome::<Output, E>::Ready(Err(RpcError::Timeout))
                &&& final(responder)@ == old(responder)@.evict(old(self).id)
                &&& final(self).resolved
            },
            !crate::timer::fires_now(old(self).timeout) ==> {
                &&& final(responder)@ == old(responder)@.step(old(self).id, waker)
                &&& r == (match old(responder)@.consumed(old(self).id) {
                    Some(delivered) => PollOutcome::<Output, E>::Ready(surfaced(delivered)),
                    None => PollOutcome::<Output, E>::Pending,
                })
                &&& final(self).resolved == old(responder)@.completed.contains_key(old(self).id)
                &&& final(self).id == old(self).id
                &&& (final(self).timeout is Some <==> old(self).timeout is Some)
            },
    {
        let timer = self.timeout.take();
        if let Some(mut t) = timer {
            if t.poll_elapsed() {
                self.resolved = true;
                responder.remove_pending_poll(self.id);
                return PollOutcome::Ready(Err(RpcError::Timeout));
            }
            self.timeout = Some(t);
        }
        match responder.poll_once(self.id, waker) {
            Some(delivered) => {
                self.resolved = true;
                match delivered {
                    Ok(v) => PollOutcome::Ready(Ok(v)),
                    Err(e) => PollOutcome::Ready(Err(RpcError::Upstream(e))),
                }
            },
            None => PollOutcome::Pending,
        }
    }
}

/// A pre-resolved failure: a response that resolves immediately with the
/// error it was created from, without ever touching the completion table.
pub struct ResponseError<E> {
    /// The error still to be handed out; `None` once it has been.
    pub err: Option<RpcError<E>>,
}

impl<E> ResponseError<E> {
    /// A pre-resolved failure carrying `err`.
    pub fn new(err: RpcError<E>) -> (r: ResponseError<E>)
        ensures
            r.err == Some(err),
    {
        ResponseError { err: Some(err) }
    }

    /// Hand out the stored error; terminal, the handle is resolved after it.
    pub fn poll<Output>(&mut self) -> (r: Result<Output, RpcError<E>>)
        requires
            old(self).err is Some,
        ensures
            old(self).err matches Some(e) && r == Err::<Output, RpcError<E>>(e),
            final(self).err is None,
    {
        match self.err.take() {
            Some(err) => Err(err),
            None => vstd::pervasive::unreached(),
        }
    }
}

/// The per-call handle: either a poller waiting on the completion table, or a
/// pre-resolved failure. It resolves exactly once.
pub enum Response<T, E> {
    Poller(ResponsePoller<T>),
    Failed(ResponseError<E>),
}

impl<T: Timer, E> Response<T, E> {
    /// Whether the handle has already produced its single resolution.
    pub open spec fn is_resolved(&self) -> bool {
        match self {
            Response::Poller(p) => p.resolved,
            Response::Failed(f) => f.err is None,
        }
    }

    /// A handle that waits for call `id`, racing `timeout` (when present)
    /// against delivery.
    pub fn poller(id: u64, timeout: Option<T>) -> (r: Response<T, E>)
        ensures
            r matches Response::Poller(p) && p.id == id && p.timeout == timeout && !p.resolved,
    {
        Response::Poller(ResponsePoller { id, timeout, resolved: false })
    }

    /// A handle that resolves immediately with `err`.
    pub fn error(err: RpcError<E>) -> (r: Response<T, E>)
        ensures
            r matches Response::Failed(f) && f.err == Some(err),
    {
        Response::Failed(ResponseError { err: Some(err) })
    }

    /// Drive the handle one step against the completion table.
    ///
    /// The timer, when present, is polled first, so that on the step where
    /// both the timer elapses and a result sits buffered, the timeout wins
    /// the race: the waiter registration for this id is withdrawn (a late
    /// delivery then finds no one to signal), the buffered result is left
    /// behind unconsumed, and the handle resolves to `Timeout`. When no
    /// timer fires, the step consumes the buffered result for this id if one
    /// exists, and otherwise registers `waker` and stays pending; the driver
    /// is woken again specifically by a delivery for this id.
    pub fn poll<Output, W>(
        &mut self,
        responder: &mut Responder<Output, E, W>,
        waker: W,
    ) -> (r: PollOutcome<Output, E>)
        requires
            !old(self).is_resolved(),
        ensures
            (*old(self)) matches Response::Failed(f) ==> {
                &&& f.err matches Some(e) && r == PollOutcome::<Output, E>::Ready(Err(e))
                &&& final(responder)@ == old(responder)@
                &&& final(self).is_resolved()
            },
            (*old(self)) matches Response::Poller(p) ==> {
                &&& crate::timer::fires_now(p.timeout) ==> {
                    &&& r == PollOutcome::<Output, E>::Ready(Err(RpcError::Timeout))
                    &&& final(responder)@ == old(responder)@.evict(p.id)
                    &&& final(self).is_resolved()
                }
                &&& !crate::timer::fires_now(p.timeout) ==> {
                    &&& final(responder)@ == old(responder)@.step(p.id, waker)
                    &&& r == (match old(responder)@.consumed(p.id) {
                        Some(delivered) => PollOutcome::<Output, E>::Ready(surfaced(delivered)),
                        None => PollOutcome::<Output, E>::Pending,
                    })
                    &&& final(self).is_resolved() == old(responder)@.completed.contains_key(p.id)
                    &&& (*final(self)) matches Response::Poller(q) && q.id == p.id && (
                    q.timeout is Some <==> p.timeout is Some)
                }
            },
    {
        match self {
            Response::Failed(failed) => PollOutcome::Ready(failed.poll()),
            Response::Poller(poller) => poller.poll(responder, waker),
        }
    }
}

} // verus!
