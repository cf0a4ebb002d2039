//! What holds of every worker queue, proved over the abstract states that the
//! operations' contracts are written in.
use crate::model::{appends, computes, QueueState};
use vstd::prelude::*;

verus! {

/// Every operation keeps a consistent state consistent: a live worker always
/// has its handle recorded, and no input is ever pending without a live
/// worker. A fresh queue is consistent.
pub proof fn consistency_is_preserved<I, O, F: Fn(I) -> O>(
    state: QueueState<I, O>,
    f: F,
    value: I,
    values: Seq<I>,
    result: O,
    slots: nat,
    post: QueueState<I, O>,
)
    requires
        state.consistent(),
    ensures
        QueueState::<I, O>::idle().consistent(),
        state.enque(value).consistent(),
        state.enque_vec(values).consistent(),
        state.pop().consistent(),
        state.drain(slots).consistent(),
        state.take().consistent(),
        state.put(result).consistent(),
        state.stepped(post, f) ==> post.consistent(),
        state.ran(post, f) ==> post.consistent(),
        state.joined(post, f) ==> post.consistent(),
{
}

/// With a deterministic transformation the appended results are the values
/// of its mapping on the inputs, in the inputs' order.
pub proof fn deterministic_results<I, O, F: Fn(I) -> O>(
    f: F,
    g: spec_fn(I) -> O,
    before: Seq<O>,
    inputs: Seq<I>,
    after: Seq<O>,
)
    requires
        computes(f, g),
        appends(f, before, inputs, after),
    ensures
        after == before + inputs.map_values(g),
{
}

/// On a consistent queue `join` leaves no worker alive and no input pending:
/// every input enqueued before has its result in the output buffer, behind
/// the outputs that were there, in the order of the inputs.
pub proof fn join_completes<I, O, F: Fn(I) -> O>(
    state: QueueState<I, O>,
    post: QueueState<I, O>,
    f: F,
)
    requires
        state.consistent(),
        state.joined(post, f),
    ensures
        post.dead,
        post.input.len() == 0,
        appends(f, state.output, state.input, post.output),
        forall|g: spec_fn(I) -> O|
            computes(f, g) ==> post.output == state.output + state.input.map_values(g),
{
    assert forall|g: spec_fn(I) -> O| computes(f, g) implies post.output == state.output
        + state.input.map_values(g) by {
        deterministic_results(f, g, state.output, state.input, post.output);
    }
}

/// One input enqueued on a fresh queue and joined: the first pop gives the
/// result of the transformation on that input, the second finds nothing.
pub proof fn single_round_trip<I, O, F: Fn(I) -> O>(f: F, value: I, joined: QueueState<I, O>)
    requires
        QueueState::<I, O>::idle().enque(value).joined(joined, f),
    ensures
        joined.head() is Some,
        f.ensures((value,), joined.head()->0),
        forall|g: spec_fn(I) -> O| computes(f, g) ==> joined.head() == Some(g(value)),
        joined.pop().head() is None,
{
}

/// A batch enqueued on a fresh queue and joined, with a deterministic
/// transformation: the output buffer holds the transformed inputs in the
/// batch's order, and draining it, pop by pop or into a destination of the
/// batch's length, gives them in that order and leaves nothing behind.
pub proof fn batch_round_trip<I, O, F: Fn(I) -> O>(
    f: F,
    g: spec_fn(I) -> O,
    values: Seq<I>,
    joined: QueueState<I, O>,
    buffer: Seq<O>,
)
    requires
        computes(f, g),
        QueueState::<I, O>::idle().enque_vec(values).joined(joined, f),
        buffer.len() == values.len(),
    ensures
        joined.output == values.map_values(g),
        forall|k: nat|
            k < values.len() ==> #[trigger] joined.drain(k).head() == Some(g(values[k as int])),
        joined.drain(values.len()).head() is None,
        joined.fill_count(buffer.len()) == values.len(),
        joined.fill(buffer) == values.map_values(g),
{
    deterministic_results(f, g, Seq::empty(), values, joined.output);
}

/// A fresh queue has no worker and no handle, and `join` on it returns at
/// once, leaving it as it was.
pub proof fn idle_join_is_immediate<I, O, F: Fn(I) -> O>(f: F, post: QueueState<I, O>)
    requires
        QueueState::<I, O>::idle().joined(post, f),
    ensures
        QueueState::<I, O>::idle().dead,
        !QueueState::<I, O>::idle().handle,
        post == QueueState::<I, O>::idle(),
{
}

/// After a worker has died, the next enqueue starts a new one by itself, and
/// that worker processes the new inputs behind the outputs already there.
pub proof fn worker_respawns<I, O, F: Fn(I) -> O>(
    f: F,
    state: QueueState<I, O>,
    rested: QueueState<I, O>,
    values: Seq<I>,
    post: QueueState<I, O>,
)
    requires
        state.consistent(),
        state.joined(rested, f),
        rested.enque_vec(values).joined(post, f),
    ensures
        rested.dead,
        !rested.enque_vec(values).dead,
        rested.enque_vec(values).handle,
        rested.enque_vec(values).input == values,
        post.dead,
        post.input.len() == 0,
        appends(f, rested.output, values, post.output),
        forall|g: spec_fn(I) -> O|
            computes(f, g) ==> post.output == rested.output + values.map_values(g),
{
    assert forall|g: spec_fn(I) -> O| computes(f, g) implies post.output == rested.output
        + values.map_values(g) by {
        deterministic_results(f, g, rested.output, values, post.output);
    }
}

/// A pop on an empty output buffer finds nothing and changes nothing, whether
/// or not a worker is active.
pub proof fn pop_on_empty_output<I, O>(state: QueueState<I, O>)
    requires
        state.output.len() == 0,
    ensures
        state.head() is None,
        state.pop() == state,
{
}

/// A batch pop into a destination with more slots than there are outputs
/// replaces as many slots as there are outputs, takes every output, and leaves
/// the other slots as they were.
pub proof fn partial_fill<I, O>(state: QueueState<I, O>, buffer: Seq<O>)
    requires
        buffer.len() > state.output.len(),
    ensures
        state.fill_count(buffer.len()) == state.output.len(),
        state.fill(buffer).len() == buffer.len(),
        forall|k: int| 0 <= k < state.output.len() ==> state.fill(buffer)[k] == state.output[k],
        forall|k: int|
            state.output.len() <= k < buffer.len() ==> state.fill(buffer)[k] == buffer[k],
        state.drain(state.fill_count(buffer.len())).output.len() == 0,
{
}

} // verus!
