//! What holds of recoveries as a whole.

use std::fmt::Debug;
use vstd::prelude::*;
use vstd::std_specs::cmp::PartialEqSpec;

use crate::recovery::{RecoveryCall, RecoveryError, RecoveryIterator, RecoveryResult};

verus! {

/// Where a recovery resumes is determined by the steps ahead and the step asked for.
pub proof fn law_resuming_is_deterministic<StepType: PartialEq>(
    steps: Seq<StepType>,
    step: StepType,
    one: Seq<StepType>,
    other: Seq<StepType>,
)
    requires
        crate::recovery::resumes_at(steps, step, one),
        crate::recovery::resumes_at(steps, step, other),
    ensures
        one == other,
{
    let (i, j) = (landing(steps, step, one), landing(steps, step, other));
    if i < j {
        assert(!steps[i].eq_spec(&step));
    }
    if j < i {
        assert(!steps[j].eq_spec(&step));
    }
}

/// To resume at a step passes over the steps before the first that equals it, and over no
/// other: that one comes next. If there is none, nothing is left.
pub proof fn law_resuming_passes_over_what_comes_before<StepType: PartialEq>(
    steps: Seq<StepType>,
    step: StepType,
    after: Seq<StepType>,
)
    requires
        crate::recovery::resumes_at(steps, step, after),
    ensures
        after.len() <= steps.len(),
        after == steps.skip(steps.len() - after.len()),
        forall|i: int|
            0 <= i < steps.len() - after.len() ==> !(#[trigger] steps[i]).eq_spec(&step),
        after.len() > 0 ==> after[0].eq_spec(&step),
{
    let at = landing(steps, step, after);
}

/// Each step equals itself and none of the others.
pub open spec fn are_distinct<StepType: PartialEq>(steps: Seq<StepType>) -> bool {
    forall|i: int, j: int|
        #![trigger steps[i].eq_spec(&steps[j])]
        0 <= i < steps.len() && 0 <= j < steps.len() ==> (steps[i].eq_spec(&steps[j]) <==> i == j)
}

/// A recovery of distinct steps that is started anew and resumed at the first of the steps
/// behind `done` others has those others behind it, and the rest ahead.
pub proof fn law_resuming_at_a_step_continues_with_it<StepType: PartialEq>(
    steps: Seq<StepType>,
    done: int,
    after: Seq<StepType>,
)
    requires
        0 <= done < steps.len(),
        are_distinct(steps),
        crate::recovery::resumes_at(
            steps,
            crate::recovery::first_of(steps.skip(done))->0,
            after,
        ),
    ensures
        after == steps.skip(done),
{
    let step = crate::recovery::first_of(steps.skip(done))->0;
    assert(step == steps[done]);
    let at = landing(steps, step, after);
    if at < done {
        assert(steps[at].eq_spec(&steps[done]));
    }
    if done < at {
        assert(!steps[done].eq_spec(&steps[done]));
    }
}

/// To resume at a step twice is to resume at it once.
pub proof fn law_resuming_twice_is_resuming_once<StepType: PartialEq>(
    steps: Seq<StepType>,
    step: StepType,
    once: Seq<StepType>,
    twice: Seq<StepType>,
)
    requires
        crate::recovery::resumes_at(steps, step, once),
        crate::recovery::resumes_at(once, step, twice),
    ensures
        twice == once,
{
    let first = landing(steps, step, once);
    let second = landing(once, step, twice);
    if second > 0 {
        assert(once[0] == steps[first]);
        assert(!once[0].eq_spec(&step));
    }
    assert(once.skip(0) == once);
}

/// A recovery that is resumed at a step that is not ahead of it has nothing left to do.
pub proof fn law_resuming_at_an_unknown_step_skips_all<StepType: PartialEq>(
    steps: Seq<StepType>,
    step: StepType,
    after: Seq<StepType>,
)
    requires
        forall|i: int| 0 <= i < steps.len() ==> !(#[trigger] steps[i]).eq_spec(&step),
        crate::recovery::resumes_at(steps, step, after),
    ensures
        after.len() == 0,
{
    let at = landing(steps, step, after);
}

/// A call of `next_step` may take a recovery from `before` to `after` with `result`.
pub open spec fn may_step<StepType: Copy + Debug + PartialEq, R: RecoveryIterator<StepType>>(
    before: R,
    after: R,
    result: Option<(StepType, R::Step)>,
) -> bool {
    &&& exists|attempts: Seq<(R, RecoveryResult<R::Step>)>|
        {
            &&& crate::recovery::may_come_of(
                before.remaining(),
                before.calls(),
                before.is_interactive(),
                #[trigger] crate::recovery::outcomes(attempts),
                result,
                after.remaining(),
                after.calls(),
            )
            &&& forall|i: int|
                #![trigger attempts[i]]
                0 <= i < attempts.len() ==> {
                    let (at, made) = attempts[i];
                    &&& crate::recovery::is_at_attempt(
                        before.remaining(),
                        before.calls(),
                        before.is_interactive(),
                        i,
                        at.remaining(),
                        at.calls(),
                    )
                    &&& at.may_make(before.remaining()[i], made)
                }
        }
    &&& after.is_interactive() == before.is_interactive()
}

/// The attempts by which `next_step` comes to its result are made one step after the other, in
/// the order of the steps ahead, up to the first that succeeds. The step that succeeds is the
/// result; there is none if every step ahead was attempted in vain. In an interactive recovery
/// the last that was heard of when a step is made is that its own parameters were read, after
/// those of the steps before it; in another one nothing was heard of.
pub proof fn law_parameters_are_read_before_a_step_is_made<
    StepType: Copy + Debug + PartialEq,
    R: RecoveryIterator<StepType>,
>(before: R, after: R, result: Option<(StepType, R::Step)>)
    requires
        may_step::<StepType, R>(before, after, result),
    ensures
        exists|attempts: Seq<(R, RecoveryResult<R::Step>)>|
            {
                &&& #[trigger] attempts.len() == before.remaining().len() - after.remaining().len()
                &&& forall|i: int|
                    #![trigger attempts[i]]
                    0 <= i < attempts.len() ==> {
                        let (at, made) = attempts[i];
                        &&& at.may_make(before.remaining()[i], made)
                        &&& at.remaining() == before.remaining().skip(i + 1)
                        &&& made is Ok ==> i == attempts.len() - 1
                        &&& before.is_interactive() ==> {
                            &&& at.calls().len() == before.calls().len() + i + 1
                            &&& at.calls().last() == RecoveryCall::ReadStepParams(
                                before.remaining()[i],
                            )
                            &&& forall|j: int|
                                0 <= j <= i ==> #[trigger] at.calls()[before.calls().len() + j]
                                    == RecoveryCall::ReadStepParams(before.remaining()[j])
                        }
                        &&& !before.is_interactive() ==> at.calls() == before.calls()
                    }
                &&& result matches Some((step_type, step)) ==> {
                    &&& attempts.len() > 0
                    &&& step_type == before.remaining()[attempts.len() - 1]
                    &&& attempts.last().1 == Ok::<R::Step, RecoveryError>(step)
                }
                &&& result is None ==> {
                    &&& attempts.len() == before.remaining().len()
                    &&& forall|i: int|
                        0 <= i < attempts.len() ==> (#[trigger] attempts[i]).1 is Err
                }
            },
        after.remaining().len() <= before.remaining().len(),
        after.remaining() == before.remaining().skip(
            before.remaining().len() - after.remaining().len(),
        ),
{
    let attempts = choose|attempts: Seq<(R, RecoveryResult<R::Step>)>|
        {
            &&& crate::recovery::may_come_of(
                before.remaining(),
                before.calls(),
                before.is_interactive(),
                #[trigger] crate::recovery::outcomes(attempts),
                result,
                after.remaining(),
                after.calls(),
            )
            &&& forall|i: int|
                #![trigger attempts[i]]
                0 <= i < attempts.len() ==> {
                    let (at, made) = attempts[i];
                    &&& crate::recovery::is_at_attempt(
                        before.remaining(),
                        before.calls(),
                        before.is_interactive(),
                        i,
                        at.remaining(),
                        at.calls(),
                    )
                    &&& at.may_make(before.remaining()[i], made)
                }
        };
    let made = crate::recovery::outcomes(attempts);
    assert(made.len() == attempts.len());
    assert forall|i: int| 0 <= i < attempts.len() implies made[i] == (#[trigger] attempts[i]).1 by {}
    assert(!before.is_interactive() ==> before.calls() + Seq::<RecoveryCall<StepType>>::empty()
        == before.calls());
    assert(attempts.len() == before.remaining().len() - after.remaining().len());
}

/// By a call of `next_step` a recovery gets to hear first, if it is interactive, that the
/// parameters of each step taken are read, in their order; and then that the step that comes
/// next is stored, or that there is none, once for each step passed over and once more. It hears
/// of nothing else.
pub proof fn law_what_is_heard_of_a_call<
    StepType: Copy + Debug + PartialEq,
    R: RecoveryIterator<StepType>,
>(before: R, after: R, result: Option<(StepType, R::Step)>)
    requires
        may_step::<StepType, R>(before, after, result),
    ensures
        ({
            let taken = before.remaining().len() - after.remaining().len();
            let read = if before.is_interactive() {
                taken
            } else {
                0
            };
            let passed_over = if result is Some {
                taken - 1
            } else {
                taken
            };
            let heard_before = before.calls().len() as int;
            let calls = after.calls();
            &&& 0 <= passed_over <= taken
            &&& calls.len() == heard_before + read + passed_over + 1
            &&& forall|i: int| 0 <= i < heard_before ==> #[trigger] calls[i] == before.calls()[i]
            &&& forall|i: int|
                heard_before <= i < heard_before + read ==> #[trigger] calls[i]
                    == RecoveryCall::ReadStepParams(before.remaining()[i - heard_before])
            &&& forall|i: int|
                heard_before + read <= i < calls.len() ==> #[trigger] calls[i]
                    == RecoveryCall::StoreNextStep(
                    if after.remaining().len() > 0 {
                        Some(after.remaining()[0])
                    } else {
                        None
                    },
                )
            &&& after.is_interactive() == before.is_interactive()
        }),
{
}

/// Calls of `next_step` one after the other may take a recovery through the states of
/// `history`, and give `results`.
pub open spec fn is_iteration<StepType: Copy + Debug + PartialEq, R: RecoveryIterator<StepType>>(
    history: Seq<R>,
    results: Seq<Option<(StepType, R::Step)>>,
) -> bool {
    &&& history.len() == results.len() + 1
    &&& forall|i: int|
        0 <= i < results.len() ==> may_step::<StepType, R>(
            history[i],
            history[i + 1],
            #[trigger] results[i],
        )
}

/// Whether a step can be made depends on the step alone: `makeable` says which ones.
pub open spec fn makes_just<StepType: Copy + Debug + PartialEq, R: RecoveryIterator<StepType>>(
    makeable: spec_fn(StepType) -> bool,
) -> bool {
    forall|at: R, step_type: StepType, made: RecoveryResult<R::Step>| #[trigger]
        at.may_make(step_type, made) ==> (made is Ok <==> makeable(step_type))
}

/// The types of the steps in `results`.
pub open spec fn types_of<StepType, S>(results: Seq<Option<(StepType, S)>>) -> Seq<StepType> {
    Seq::new(results.len(), |i: int| (results[i]->0).0)
}

/// Where it depends on a step alone whether it can be made, a recovery that is asked for its
/// next step until there is none gives those of its steps that can be made, in their order and
/// each once. It has no steps left then, and the last that it got to hear of is that no step
/// comes next.
pub proof fn law_iterations_give_the_steps_that_can_be_made<
    StepType: Copy + Debug + PartialEq,
    R: RecoveryIterator<StepType>,
>(
    history: Seq<R>,
    results: Seq<Option<(StepType, R::Step)>>,
    makeable: spec_fn(StepType) -> bool,
)
    requires
        makes_just::<StepType, R>(makeable),
        is_iteration::<StepType, R>(history, results),
        results.len() > 0,
        forall|i: int|
            0 <= i < results.len() ==> (#[trigger] results[i] is None <==> i == results.len() - 1),
    ensures
        types_of(results.drop_last()) == history[0].remaining().filter(makeable),
        history.last().remaining().len() == 0,
        history.last().calls().len() > 0,
        history.last().calls().last() == crate::recovery::RecoveryCall::StoreNextStep(
            None::<StepType>,
        ),
    decreases results.len(),
{
    let before = history[0].remaining();
    assert(may_step::<StepType, R>(history[0], history[1], results[0]));
    let attempts = choose|attempts: Seq<(R, RecoveryResult<R::Step>)>|
        {
            &&& crate::recovery::may_come_of(
                before,
                history[0].calls(),
                history[0].is_interactive(),
                #[trigger] crate::recovery::outcomes(attempts),
                results[0],
                history[1].remaining(),
                history[1].calls(),
            )
            &&& forall|i: int|
                #![trigger attempts[i]]
                0 <= i < attempts.len() ==> {
                    let (at, made) = attempts[i];
                    &&& crate::recovery::is_at_attempt(
                        before,
                        history[0].calls(),
                        history[0].is_interactive(),
                        i,
                        at.remaining(),
                        at.calls(),
                    )
                    &&& at.may_make(before[i], made)
                }
        };
    let made = crate::recovery::outcomes(attempts);
    let count = made.len() as int;
    assert forall|i: int| 0 <= i < count implies (makeable(#[trigger] before[i]) <==> results[0]
        is Some && i == count - 1) by {
        assert(attempts[i].0.may_make(before[i], attempts[i].1));
        assert(made[i] == attempts[i].1);
    }
    if results[0] is None {
        lemma_nothing_passes(before, makeable);
        assert(types_of(results.drop_last()) == before.filter(makeable));
    } else {
        let taken = before.take(count);
        lemma_nothing_passes(taken.drop_last(), makeable);
        reveal(Seq::filter);
        assert(taken.filter(makeable) == seq![before[count - 1]]);
        assert(before == taken + before.skip(count));
        Seq::filter_distributes_over_add(taken, before.skip(count), makeable);
        let later = results.drop_first();
        assert forall|i: int| 0 <= i < later.len() implies may_step::<StepType, R>(
            history.drop_first()[i],
            history.drop_first()[i + 1],
            #[trigger] later[i],
        ) by {
            assert(later[i] == results[i + 1]);
        }
        law_iterations_give_the_steps_that_can_be_made::<StepType, R>(
            history.drop_first(),
            later,
            makeable,
        );
        assert(types_of(results.drop_last()) == seq![before[count - 1]] + types_of(
            later.drop_last(),
        ));
    }
}

/// A recovery gives no more steps than it has ahead, so that every iteration ends.
pub proof fn law_iterations_end<
    StepType: Copy + Debug + PartialEq,
    R: RecoveryIterator<StepType>,
>(history: Seq<R>, results: Seq<Option<(StepType, R::Step)>>)
    requires
        is_iteration::<StepType, R>(history, results),
        forall|i: int| 0 <= i < results.len() ==> #[trigger] results[i] is Some,
    ensures
        results.len() + history.last().remaining().len() <= history[0].remaining().len(),
    decreases results.len(),
{
    if results.len() > 0 {
        let earlier = results.drop_last();
        let last = results.len() - 1;
        assert(may_step::<StepType, R>(history[last], history[last + 1], results[last]));
        assert forall|i: int| 0 <= i < earlier.len() implies may_step::<StepType, R>(
            history.drop_last()[i],
            history.drop_last()[i + 1],
            #[trigger] earlier[i],
        ) by {
            assert(earlier[i] == results[i]);
        }
        law_iterations_end::<StepType, R>(history.drop_last(), earlier);
    }
}

/// A recovery of distinct steps that is started anew and resumed at the step that an earlier
/// iteration stored last has the same steps ahead as the earlier one had in the end. This is
/// said of iterations that asked for a step at least once: before that nothing is stored.
pub proof fn law_resuming_continues_an_iteration<
    StepType: Copy + Debug + PartialEq,
    R: RecoveryIterator<StepType>,
>(
    history: Seq<R>,
    results: Seq<Option<(StepType, R::Step)>>,
    step: StepType,
    after: Seq<StepType>,
)
    requires
        is_iteration::<StepType, R>(history, results),
        results.len() > 0,
        are_distinct(history[0].remaining()),
        history.last().calls().last() == crate::recovery::RecoveryCall::StoreNextStep(Some(step)),
        crate::recovery::resumes_at(history[0].remaining(), step, after),
    ensures
        after == history.last().remaining(),
{
    let steps = history[0].remaining();
    let last = results.len() - 1;
    lemma_iterations_take_from_the_front::<StepType, R>(history, results);
    assert(may_step::<StepType, R>(history[last], history[last + 1], results[last]));
    let done = steps.len() - history.last().remaining().len();
    assert(crate::recovery::first_of(steps.skip(done)) == Some(step));
    law_resuming_at_a_step_continues_with_it(steps, done, after);
}

/// What is left in the end of an iteration is the end of what was ahead at first.
proof fn lemma_iterations_take_from_the_front<
    StepType: Copy + Debug + PartialEq,
    R: RecoveryIterator<StepType>,
>(history: Seq<R>, results: Seq<Option<(StepType, R::Step)>>)
    requires
        is_iteration::<StepType, R>(history, results),
    ensures
        history.last().remaining().len() <= history[0].remaining().len(),
        history.last().remaining() == history[0].remaining().skip(
            history[0].remaining().len() - history.last().remaining().len(),
        ),
    decreases results.len(),
{
    if results.len() > 0 {
        let earlier = results.drop_last();
        let last = results.len() - 1;
        assert(may_step::<StepType, R>(history[last], history[last + 1], results[last]));
        assert forall|i: int| 0 <= i < earlier.len() implies may_step::<StepType, R>(
            history.drop_last()[i],
            history.drop_last()[i + 1],
            #[trigger] earlier[i],
        ) by {
            assert(earlier[i] == results[i]);
        }
        lemma_iterations_take_from_the_front::<StepType, R>(history.drop_last(), earlier);
    }
}

/// If no step can be made, none passes.
proof fn lemma_nothing_passes<StepType>(
    steps: Seq<StepType>,
    makeable: spec_fn(StepType) -> bool,
)
    requires
        forall|i: int| 0 <= i < steps.len() ==> !makeable(#[trigger] steps[i]),
    ensures
        steps.filter(makeable) == Seq::<StepType>::empty(),
    decreases steps.len(),
{
    reveal(Seq::filter);
    if steps.len() > 0 {
        lemma_nothing_passes(steps.drop_last(), makeable);
    }
}

/// The number of steps that are skipped when `steps` are resumed at `step`.
spec fn landing<StepType: PartialEq>(
    steps: Seq<StepType>,
    step: StepType,
    after: Seq<StepType>,
) -> int {
    choose|skipped: int|
        {
            &&& 0 <= skipped <= steps.len()
            &&& after == #[trigger] steps.skip(skipped)
            &&& forall|i: int| 0 <= i < skipped ==> !(#[trigger] steps[i]).eq_spec(&step)
            &&& skipped < steps.len() ==> steps[skipped].eq_spec(&step)
        }
}

} // verus!
