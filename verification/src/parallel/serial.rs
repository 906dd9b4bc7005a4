//! The map-reduce on the caller's own thread, and what sizes it where no other thread is to
//! be had.

use super::reducer::{reduces_to, Reducer};
use vstd::prelude::*;
use vstd::std_specs::iter::IteratorSpec;

verus! {

/// The number of threads to use where only the caller's is to be had: one, whatever the
/// limit.
pub fn num_threads(_thread_limit: Option<usize>) -> (threads: usize)
    ensures
        threads == 1,
{
    1
}

/// The chunk size, thread limit and thread count to work with where only the caller's
/// thread is to be had: the chunk size and the limit as they were given, and one thread.
pub fn optimize_chunk_size_and_thread_limit(
    desired_chunk_size: usize,
    _num_items: Option<usize>,
    thread_limit: Option<usize>,
    _available_threads: Option<usize>,
) -> (outcome: (usize, Option<usize>, usize))
    ensures
        outcome == (desired_chunk_size, thread_limit, 1usize),
{
    (desired_chunk_size, thread_limit, num_threads(thread_limit))
}

/// Calls `left`, then `right`, and returns what both returned.
pub fn join<O1: Send, O2: Send>(
    left: impl FnOnce() -> O1 + Send,
    right: impl FnOnce() -> O2 + Send,
) -> (both: (O1, O2))
    requires
        call_requires(left, ()),
        call_requires(right, ()),
    ensures
        call_ensures(left, (), both.0),
        call_ensures(right, (), both.1),
{
    let first = left();
    let second = right();
    (first, second)
}

/// Transforms the items of `input` in their order with `consume`, on a state made by
/// `new_thread_state(0)`, and feeds each output to `reducer` before it takes the next item.
/// The first failure to feed ends the call and is its outcome; otherwise the outcome is that
/// of finalizing the reducer once the input has run out.
#[verifier::loop_isolation(false)]
pub fn in_parallel<I, S, O, R>(
    input: impl Iterator<Item = I> + Send,
    _thread_limit: Option<usize>,
    new_thread_state: impl Fn(usize) -> S + Send + Sync,
    consume: impl Fn(I, &mut S) -> O + Send + Sync,
    reducer: R,
) -> (outcome: Result<<R as Reducer>::Output, <R as Reducer>::Error>)
    where
        R: Reducer<Input = O>,
        I: Send,
        O: Send,
    requires
        input.obeys_prophetic_iter_laws(),
        input.decrease() is Some,
        call_requires(new_thread_state, (0usize,)),
        forall|item: I, state: &mut S| call_requires(consume, (item, state)),
    ensures
        exists|state: S|
            #[trigger] call_ensures(new_thread_state, (0usize,), state) && reduces_to(
                |item: I, before: S, after: S, output: O|
                    exists|slot: &mut S, given: I, returned: O|
                        given == item && returned == output && *slot == before && *final(slot)
                            == after && #[trigger] call_ensures(consume, (given, slot), returned),
                input.remaining(),
                state,
                reducer,
                outcome,
            ),
{
    let mut rest = input;
    let mut accumulator = reducer;
    let mut state = new_thread_state(0);
    let ghost first_state = state;
    let ghost transforms = |item: I, before: S, after: S, output: O|
        exists|slot: &mut S, given: I, returned: O|
            given == item && returned == output && *slot == before && *final(slot) == after
                && #[trigger] call_ensures(consume, (given, slot), returned);
    loop
        invariant
            rest.obeys_prophetic_iter_laws(),
            rest.decrease() is Some,
            forall|item: I, state: &mut S| call_requires(consume, (item, state)),
            call_ensures(new_thread_state, (0usize,), first_state),
            forall|end: Result<R::Output, R::Error>|
                reduces_to(transforms, rest.remaining(), state, accumulator, end) ==> reduces_to(
                    transforms,
                    input.remaining(),
                    first_state,
                    reducer,
                    end,
                ),
        decreases rest.decrease()->0,
    {
        let ghost pending = rest.remaining();
        let ghost state_before = state;
        let ghost reducer_before = accumulator;
        match rest.next() {
            Some(item) => {
                let output = consume(item, &mut state);
                assert(transforms(pending[0], state_before, state, output));
                let fed = accumulator.feed(output);
                match fed {
                    Ok(_) => {
                        assert(reducer_before.fed(output, accumulator));
                        assert forall|end: Result<R::Output, R::Error>|
                            reduces_to(
                                transforms,
                                rest.remaining(),
                                state,
                                accumulator,
                                end,
                            ) implies reduces_to(
                            transforms,
                            pending,
                            state_before,
                            reducer_before,
                            end,
                        ) by {
                            assert(reducer_before.fed(output, accumulator));
                        }
                    },
                    Err(error) => {
                        assert(reducer_before.refused(output, error));
                        assert(reduces_to(
                            transforms,
                            pending,
                            state_before,
                            reducer_before,
                            Err(error),
                        ));
                        return Err(error);
                    },
                }
            },
            None => {
                break ;
            },
        }
    }
    let outcome = accumulator.finalize();
    assert(reduces_to(transforms, rest.remaining(), state, accumulator, outcome));
    outcome
}

/// Runs the map-reduce on the caller's thread. Where no other thread is to be had the count
/// of threads never exceeds one, so `condition` is never asked.
pub fn in_parallel_if<I, S, O, R>(
    condition: impl FnOnce() -> bool,
    input: impl Iterator<Item = I> + Send,
    thread_limit: Option<usize>,
    new_thread_state: impl Fn(usize) -> S + Send + Sync,
    consume: impl Fn(I, &mut S) -> O + Send + Sync,
    reducer: R,
) -> (outcome: Result<<R as Reducer>::Output, <R as Reducer>::Error>)
    where
        R: Reducer<Input = O>,
        I: Send,
        O: Send,
    requires
        input.obeys_prophetic_iter_laws(),
        input.decrease() is Some,
        call_requires(new_thread_state, (0usize,)),
        forall|item: I, state: &mut S| call_requires(consume, (item, state)),
    ensures
        exists|state: S|
            #[trigger] call_ensures(new_thread_state, (0usize,), state) && reduces_to(
                |item: I, before: S, after: S, output: O|
                    exists|slot: &mut S, given: I, returned: O|
                        given == item && returned == output && *slot == before && *final(slot)
                            == after && #[trigger] call_ensures(consume, (given, slot), returned),
                input.remaining(),
                state,
                reducer,
                outcome,
            ),
{
    if num_threads(thread_limit) > 1 && condition() {
        in_parallel(input, thread_limit, new_thread_state, consume, reducer)
    } else {
        in_parallel(input, thread_limit, new_thread_state, consume, reducer)
    }
}

} // verus!
