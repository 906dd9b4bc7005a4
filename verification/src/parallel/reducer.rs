//! The accumulator that a map-reduce hands its outputs to.

use vstd::prelude::*;

verus! {

/// An accumulator that takes outputs one at a time, on one thread, and is turned into a
/// result at the end. An implementation says with `fed`, `refused` and `finalized` what its
/// two methods may do; where it says nothing, they hold of everything.
pub trait Reducer: Sized {
    /// What is fed to the accumulator.
    type Input;

    /// What the accumulator turns into.
    type Output;

    /// What feeding or finalizing may fail with.
    type Error;

    /// Whether `self` may take `input` and be `after` then.
    open spec fn fed(&self, input: Self::Input, after: Self) -> bool {
        true
    }

    /// Whether `self` may fail on `input` with `error`.
    open spec fn refused(&self, input: Self::Input, error: Self::Error) -> bool {
        true
    }

    /// Whether finalizing `self` may return `outcome`.
    open spec fn finalized(&self, outcome: Result<Self::Output, Self::Error>) -> bool {
        true
    }

    /// Takes `input` into the accumulator, or fails.
    fn feed(&mut self, input: Self::Input) -> (outcome: Result<(), Self::Error>)
        ensures
            match outcome {
                Ok(_) => old(self).fed(input, *final(self)),
                Err(error) => old(self).refused(input, error),
            },
    ;

    /// Turns the accumulator into its result, or fails.
    fn finalize(self) -> (outcome: Result<Self::Output, Self::Error>)
        ensures
            self.finalized(outcome),
    ;
}

/// Whether `outcome` may come of transforming `items` one after the other, starting with
/// `state`, and feeding each output to `reducer` before the next item is looked at: the
/// first failure to feed is the outcome and ends the run; with no item left the outcome is
/// that of finalizing. `transforms(item, before, after, output)` says whether the transform,
/// called on `item` with a state that holds `before`, may leave `after` in it and return
/// `output`.
pub open spec fn reduces_to<I, S, O, R: Reducer<Input = O>>(
    transforms: spec_fn(I, S, S, O) -> bool,
    items: Seq<I>,
    state: S,
    reducer: R,
    outcome: Result<R::Output, R::Error>,
) -> bool
    decreases items.len(),
{
    if items.len() == 0 {
        reducer.finalized(outcome)
    } else {
        exists|next_state: S, output: O| #[trigger]
            transforms(items[0], state, next_state, output) && {
                ||| exists|next_reducer: R| #[trigger]
                    reducer.fed(output, next_reducer) && reduces_to(
                        transforms,
                        items.drop_first(),
                        next_state,
                        next_reducer,
                        outcome,
                    )
                ||| exists|error: R::Error| #[trigger]
                    reducer.refused(output, error) && outcome == Err::<R::Output, R::Error>(error)
            }
    }
}

/// Whether `outcome` may come of feeding `outputs` to `reducer` in their order: the first
/// failure to feed is the outcome, and what follows the refused output is not looked at;
/// where every output was taken the outcome is that of finalizing.
pub open spec fn feeds_to<R: Reducer>(
    reducer: R,
    outputs: Seq<R::Input>,
    outcome: Result<R::Output, R::Error>,
) -> bool
    decreases outputs.len(),
{
    if outputs.len() == 0 {
        reducer.finalized(outcome)
    } else {
        ||| exists|next_reducer: R| #[trigger]
            reducer.fed(outputs[0], next_reducer) && feeds_to(
                next_reducer,
                outputs.drop_first(),
                outcome,
            )
        ||| exists|error: R::Error| #[trigger]
            reducer.refused(outputs[0], error) && outcome == Err::<R::Output, R::Error>(error)
    }
}

/// Where the reducer cannot take the first output, feeding ends there: the outcome is the
/// error that the output was refused with, whatever follows it and whatever finalizing
/// would give.
pub proof fn lemma_refusal_ends_feeding<R: Reducer>(
    reducer: R,
    outputs: Seq<R::Input>,
    outcome: Result<R::Output, R::Error>,
)
    requires
        feeds_to(reducer, outputs, outcome),
        outputs.len() > 0,
        forall|after: R| !reducer.fed(outputs[0], after),
    ensures
        exists|error: R::Error| #[trigger]
            reducer.refused(outputs[0], error) && outcome == Err::<R::Output, R::Error>(error),
{
}

/// Whether `reducer`, fed `outputs` in their order, may take every one of them and be
/// `last` then.
pub open spec fn takes<R: Reducer>(reducer: R, outputs: Seq<R::Input>, last: R) -> bool
    decreases outputs.len(),
{
    if outputs.len() == 0 {
        last == reducer
    } else {
        exists|next_reducer: R| #[trigger]
            reducer.fed(outputs[0], next_reducer) && takes(
                next_reducer,
                outputs.drop_first(),
                last,
            )
    }
}

/// With a reducer that never fails to feed, feeding takes every output and ends in
/// finalizing the reducer that took them.
pub proof fn lemma_feeding_ends_in_finalizing<R: Reducer>(
    reducer: R,
    outputs: Seq<R::Input>,
    outcome: Result<R::Output, R::Error>,
)
    requires
        feeds_to(reducer, outputs, outcome),
        forall|before: R, output: R::Input, error: R::Error| !before.refused(output, error),
    ensures
        exists|last: R| #[trigger] takes(reducer, outputs, last) && last.finalized(outcome),
    decreases outputs.len(),
{
    if outputs.len() == 0 {
        assert(takes(reducer, outputs, reducer));
    } else {
        let next_reducer = choose|next_reducer: R| #[trigger]
            reducer.fed(outputs[0], next_reducer) && feeds_to(
                next_reducer,
                outputs.drop_first(),
                outcome,
            );
        lemma_feeding_ends_in_finalizing(next_reducer, outputs.drop_first(), outcome);
        let last = choose|last: R| #[trigger]
            takes(next_reducer, outputs.drop_first(), last) && last.finalized(outcome);
        assert(takes(reducer, outputs, last));
    }
}

/// Whatever may come of transforming `items` and feeding each output before the next item
/// is looked at may come of feeding the reducer outputs that were there beforehand as well,
/// one for each item.
pub proof fn lemma_reduction_feeds_outputs<I, S, O, R: Reducer<Input = O>>(
    transforms: spec_fn(I, S, S, O) -> bool,
    items: Seq<I>,
    state: S,
    reducer: R,
    outcome: Result<R::Output, R::Error>,
)
    requires
        reduces_to(transforms, items, state, reducer, outcome),
    ensures
        exists|outputs: Seq<O>|
            outputs.len() == items.len() && #[trigger] feeds_to(reducer, outputs, outcome),
    decreases items.len(),
{
    if items.len() == 0 {
        assert(feeds_to(reducer, Seq::<O>::empty(), outcome));
    } else {
        let (next_state, output) = choose|next_state: S, output: O| #[trigger]
            transforms(items[0], state, next_state, output) && {
                ||| exists|next_reducer: R| #[trigger]
                    reducer.fed(output, next_reducer) && reduces_to(
                        transforms,
                        items.drop_first(),
                        next_state,
                        next_reducer,
                        outcome,
                    )
                ||| exists|error: R::Error| #[trigger]
                    reducer.refused(output, error) && outcome == Err::<R::Output, R::Error>(error)
            };
        if exists|next_reducer: R| #[trigger]
            reducer.fed(output, next_reducer) && reduces_to(
                transforms,
                items.drop_first(),
                next_state,
                next_reducer,
                outcome,
            ) {
            let next_reducer = choose|next_reducer: R| #[trigger]
                reducer.fed(output, next_reducer) && reduces_to(
                    transforms,
                    items.drop_first(),
                    next_state,
                    next_reducer,
                    outcome,
                );
            lemma_reduction_feeds_outputs(
                transforms,
                items.drop_first(),
                next_state,
                next_reducer,
                outcome,
            );
            let later = choose|outputs: Seq<O>|
                outputs.len() == items.drop_first().len() && #[trigger] feeds_to(
                    next_reducer,
                    outputs,
                    outcome,
                );
            let outputs = seq![output] + later;
            assert(outputs[0] == output);
            assert(outputs.drop_first() =~= later);
            assert(reducer.fed(outputs[0], next_reducer));
            assert(feeds_to(reducer, outputs, outcome));
        } else {
            let outputs = Seq::new(items.len(), |i: int| output);
            assert(outputs[0] == output);
            assert(feeds_to(reducer, outputs, outcome));
        }
    }
}

} // verus!
