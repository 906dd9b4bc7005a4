//! What the map-reduce on several threads computes on the thread of its caller: whether
//! several threads are worth it, and the feeding of the reducer with the outputs as they
//! arrive. Handing the items to the threads and bringing the outputs back is not done here.

use super::reducer::{feeds_to, Reducer};
use super::threads::num_threads;
use vstd::prelude::*;
use vstd::std_specs::iter::IteratorSpec;

verus! {

/// Whether a map-reduce that has `threads` threads at hand is to run on several of them:
/// where there is more than one and `condition` then returns `true`. `condition` is called
/// once at most, and not at all where one thread is all there is.
pub fn runs_on_several_of(threads: usize, condition: impl FnOnce() -> bool) -> (several: bool)
    requires
        threads > 1 ==> call_requires(condition, ()),
    ensures
        several ==> threads > 1 && call_ensures(condition, (), true),
        !several ==> threads <= 1 || call_ensures(condition, (), false),
{
    threads > 1 && condition()
}

/// Whether a map-reduce under `thread_limit` is to run on several threads of this machine:
/// where the limit resolves to more than one and `condition` then returns `true`.
pub fn runs_on_several_threads(
    condition: impl FnOnce() -> bool,
    thread_limit: Option<usize>,
) -> (several: bool)
    requires
        thread_limit != Some(1usize) ==> call_requires(condition, ()),
    ensures
        several ==> thread_limit != Some(1usize) && call_ensures(condition, (), true),
        thread_limit matches Some(limit) ==> (limit > 1 && !several ==> call_ensures(
            condition,
            (),
            false,
        )),
{
    runs_on_several_of(num_threads(thread_limit), condition)
}

/// What is done with each output that arrives: it is fed to `reducer`, which is handed back
/// for the next output, or the failure in its place, which ends the feeding.
pub fn feed_step<R: Reducer>(reducer: R, output: R::Input) -> (next: Result<R, R::Error>)
    ensures
        match next {
            Ok(after) => reducer.fed(output, after),
            Err(error) => reducer.refused(output, error),
        },
{
    let mut accumulator = reducer;
    let fed = accumulator.feed(output);
    match fed {
        Ok(_) => Ok(accumulator),
        Err(error) => Err(error),
    }
}

/// Feeds `reducer` with the outputs that `outputs` yields, in the order in which it yields
/// them. The first failure to feed ends the call and is its outcome, and `outputs` is
/// dropped with what it has not yielded; otherwise the outcome is that of finalizing the
/// reducer once `outputs` has ended.
pub fn reduce<O, R>(outputs: impl Iterator<Item = O>, reducer: R) -> (outcome: Result<
    <R as Reducer>::Output,
    <R as Reducer>::Error,
>)
    where
        R: Reducer<Input = O>,
    requires
        outputs.obeys_prophetic_iter_laws(),
        outputs.decrease() is Some,
    ensures
        feeds_to(reducer, outputs.remaining(), outcome),
{
    let mut rest = outputs;
    let mut accumulator = reducer;
    loop
        invariant
            rest.obeys_prophetic_iter_laws(),
            rest.decrease() is Some,
            forall|end: Result<R::Output, R::Error>|
                feeds_to(accumulator, rest.remaining(), end) ==> feeds_to(
                    reducer,
                    outputs.remaining(),
                    end,
                ),
        ensures
            rest.remaining().len() == 0,
        decreases rest.decrease()->0,
    {
        let ghost pending = rest.remaining();
        let ghost before = accumulator;
        match rest.next() {
            Some(output) => {
                match feed_step(accumulator, output) {
                    Ok(after) => {
                        accumulator = after;
                        assert forall|end: Result<R::Output, R::Error>|
                            feeds_to(accumulator, rest.remaining(), end) implies feeds_to(
                            before,
                            pending,
                            end,
                        ) by {
                            assert(before.fed(pending[0], accumulator));
                        }
                    },
                    Err(error) => {
                        assert(before.refused(pending[0], error));
                        assert(feeds_to(before, pending, Err(error)));
                        return Err(error);
                    },
                }
            },
            None => {
                break ;
            },
        }
    }
    let outcome = accumulator.finalize();
    assert(feeds_to(accumulator, rest.remaining(), outcome));
    outcome
}

} // verus!
