//! The correlation guarantees of the completion table, stated and proved
//! over [`TableModel`], the model that the contracts of
//! [`crate::responder::Responder`] and [`crate::responder::Response`] are
//! written in.

use vstd::prelude::*;

use crate::responder::TableModel;

verus! {

/// A result delivered before its caller registered is buffered, not lost: a
/// delivery for `id` followed by a check-then-register step for `id` hands
/// that step exactly the delivered result, consumes it, and leaves every
/// other id's waiter and buffered result alone.
pub proof fn law_delivery_then_poll<Output, E, W>(
    table: TableModel<Output, E, W>,
    id: u64,
    output: Result<Output, E>,
    waker: W,
)
    ensures
        table.deliver(id, output).consumed(id) == Some(output),
        table.deliver(id, output).step(id, waker) == (TableModel {
            wakers: table.wakers.remove(id),
            completed: table.completed.remove(id),
        }),
{
    assert(table.deliver(id, output).completed.remove(id) =~= table.completed.remove(id));
}

/// A caller that registered before its result was delivered is woken with
/// exactly that result: a check-then-register step for an id with no buffered
/// result stays pending, and a later delivery for that id signals exactly the
/// waiter the step registered; the poll that the signal triggers then
/// consumes exactly the delivered result.
pub proof fn law_poll_then_delivery<Output, E, W>(
    table: TableModel<Output, E, W>,
    id: u64,
    output: Result<Output, E>,
    waker: W,
)
    requires
        !table.completed.contains_key(id),
    ensures
        table.consumed(id) is None,
        table.step(id, waker).deliver(id, output).consumed(id) == Some(output),
        table.step(id, waker).waiter_to_signal(id) == Some(waker),
{
}

/// A timed-out call is torn down for good: evicting `id` withdraws its
/// waiter while leaving every buffered result in place, and a late delivery
/// for `id` afterwards finds no waiter to signal — the already-resolved call
/// observes nothing.
pub proof fn law_late_delivery_after_timeout_is_silent<Output, E, W>(
    table: TableModel<Output, E, W>,
    id: u64,
    output: Result<Output, E>,
)
    ensures
        !table.evict(id).wakers.contains_key(id),
        table.evict(id).completed == table.completed,
        table.evict(id).waiter_to_signal(id) is None,
{
}

/// Deliveries for other calls cannot resolve or disturb this one: a delivery
/// for `other` leaves the waiter registered for `id` in place and buffers
/// nothing under `id`, so a call with no timer stays pending across any
/// number of unrelated deliveries.
pub proof fn law_unrelated_delivery_leaves_call_pending<Output, E, W>(
    table: TableModel<Output, E, W>,
    id: u64,
    other: u64,
    output: Result<Output, E>,
)
    requires
        other != id,
        !table.completed.contains_key(id),
    ensures
        table.deliver(other, output).consumed(id) is None,
        table.deliver(other, output).waiter_to_signal(id) == table.waiter_to_signal(id),
{
}

/// A second delivery for an id whose result is still unread overwrites it —
/// last write wins — and the sole waiter signal of the pair goes out with the
/// first delivery, since it already took the registered waiter out.
pub proof fn law_second_delivery_overwrites<Output, E, W>(
    table: TableModel<Output, E, W>,
    id: u64,
    first: Result<Output, E>,
    second: Result<Output, E>,
)
    ensures
        table.deliver(id, first).deliver(id, second).consumed(id) == Some(second),
        table.deliver(id, first).waiter_to_signal(id) is None,
{
}

/// Interleaved deliveries for distinct ids stay apart: after results for two
/// distinct calls arrive, in either order, each call's poll consumes exactly
/// its own result, and consuming one leaves the other's in place.
pub proof fn law_distinct_calls_get_their_own_results<Output, E, W>(
    table: TableModel<Output, E, W>,
    id_a: u64,
    id_b: u64,
    output_a: Result<Output, E>,
    output_b: Result<Output, E>,
    waker: W,
)
    requires
        id_a != id_b,
    ensures
        table.deliver(id_a, output_a).deliver(id_b, output_b).consumed(id_a) == Some(output_a),
        table.deliver(id_a, output_a).deliver(id_b, output_b).consumed(id_b) == Some(output_b),
        table.deliver(id_a, output_a).deliver(id_b, output_b).step(id_a, waker).consumed(id_b)
            == Some(output_b),
        table.deliver(id_a, output_a).deliver(id_b, output_b) == table.deliver(
            id_b,
            output_b,
        ).deliver(id_a, output_a),
{
    assert(table.deliver(id_a, output_a).deliver(id_b, output_b) =~= table.deliver(
        id_b,
        output_b,
    ).deliver(id_a, output_a));
}

} // verus!
