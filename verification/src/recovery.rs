//! Recovery of a subnet as a sequence of steps, which can be resumed at any of them.

use std::fmt::Debug;
use vstd::prelude::*;
use vstd::std_specs::cmp::PartialEqSpec;

use crate::step_iterator::StepIterator;

verus! {

/// Why a recovery step could not be made or executed.
#[derive(Debug, PartialEq, Eq)]
pub enum RecoveryError {
    /// The user chose to skip the step.
    StepSkipped,
    /// Anything else, in words.
    Failed(String),
}

pub type RecoveryResult<T> = Result<T, RecoveryError>;

/// A recovery step that is ready to be executed.
pub trait Step {
    fn descr(&self) -> String;

    fn exec(&self) -> RecoveryResult<()>;
}

/// A call that a recovery got to hear of.
pub enum RecoveryCall<StepType> {
    ReadStepParams(StepType),
    StoreNextStep(Option<StepType>),
}

/// The first of `steps`, if there is one.
pub open spec fn first_of<StepType>(steps: Seq<StepType>) -> Option<StepType> {
    if steps.len() > 0 {
        Some(steps[0])
    } else {
        None
    }
}

/// The calls by which an interactive recovery reads the parameters of `steps`. One that is
/// not interactive reads none.
pub open spec fn params_read<StepType>(
    steps: Seq<StepType>,
    interactive: bool,
) -> Seq<RecoveryCall<StepType>> {
    if interactive {
        Seq::new(steps.len(), |i: int| RecoveryCall::ReadStepParams(steps[i]))
    } else {
        Seq::empty()
    }
}

/// The calls by which `next` is stored so many times.
pub open spec fn stored<StepType>(next: Option<StepType>, times: nat) -> Seq<
    RecoveryCall<StepType>,
> {
    Seq::new(times, |i: int| RecoveryCall::StoreNextStep(next))
}

/// A recovery that had the steps `before` ahead and had got `calls_before` is about to make
/// step `attempt` of them: it took the step, and if it is interactive it read the
/// parameters of all steps up to it.
pub open spec fn is_at_attempt<StepType>(
    before: Seq<StepType>,
    calls_before: Seq<RecoveryCall<StepType>>,
    interactive: bool,
    attempt: int,
    remaining: Seq<StepType>,
    calls: Seq<RecoveryCall<StepType>>,
) -> bool {
    &&& remaining == before.skip(attempt + 1)
    &&& calls == calls_before + params_read(before.take(attempt + 1), interactive)
}

/// One more step read adds one call.
proof fn lemma_params_read_push<StepType>(steps: Seq<StepType>, count: int, interactive: bool)
    requires
        0 <= count < steps.len(),
    ensures
        params_read(steps.take(count + 1), interactive) == if interactive {
            params_read(steps.take(count), interactive).push(
                RecoveryCall::ReadStepParams(steps[count]),
            )
        } else {
            params_read(steps.take(count), interactive)
        },
{
    if interactive {
        assert(params_read(steps.take(count + 1), true) =~= params_read(
            steps.take(count),
            true,
        ).push(RecoveryCall::ReadStepParams(steps[count])));
    }
}

/// `after` is what is left of `before` at the first step that equals `step`, or nothing if
/// there is no such step.
pub open spec fn resumes_at<StepType: PartialEq>(
    before: Seq<StepType>,
    step: StepType,
    after: Seq<StepType>,
) -> bool {
    exists|skipped: int|
        {
            &&& 0 <= skipped <= before.len()
            &&& after == #[trigger] before.skip(skipped)
            &&& forall|i: int| 0 <= i < skipped ==> !(#[trigger] before[i]).eq_spec(&step)
            &&& skipped < before.len() ==> before[skipped].eq_spec(&step)
        }
}

/// What came of the attempts to make a step, each of which is given with the recovery that
/// made it.
pub open spec fn outcomes<R, S>(attempts: Seq<(R, RecoveryResult<S>)>) -> Seq<RecoveryResult<S>> {
    Seq::new(attempts.len(), |i: int| attempts[i].1)
}

/// A recovery that had the steps `before` ahead and had got `calls_before` may come to
/// `result`, with the steps `after` ahead and the calls `calls_after`, if the attempts to make
/// its next steps came to `made`, one for each step: the first that succeeds is the last of
/// them, and there is one for every step if none succeeds. An interactive recovery reads the
/// parameters of each step that it attempts. Then the step that comes next is stored, once for
/// each step that was passed over and once more.
pub open spec fn may_come_of<StepType, S>(
    before: Seq<StepType>,
    calls_before: Seq<RecoveryCall<StepType>>,
    interactive: bool,
    made: Seq<RecoveryResult<S>>,
    result: Option<(StepType, S)>,
    after: Seq<StepType>,
    calls_after: Seq<RecoveryCall<StepType>>,
) -> bool {
    &&& made.len() <= before.len()
    &&& forall|i: int|
        0 <= i < made.len() ==> (#[trigger] made[i] is Ok <==> result is Some && i == made.len()
            - 1)
    &&& match result {
        Some((step_type, step)) => {
            &&& made.len() > 0
            &&& step_type == before[made.len() - 1]
            &&& made.last() == Ok::<S, RecoveryError>(step)
        },
        None => made.len() == before.len(),
    }
    &&& after == before.skip(made.len() as int)
    &&& calls_after == calls_before + params_read(before.take(made.len() as int), interactive)
        + stored(
        first_of(after),
        if result is Some {
            made.len()
        } else {
            made.len() + 1
        },
    )
}

/// Takes a step on if it could be made, and passes over it otherwise, whether it was
/// skipped or failed.
pub fn take_if_made<StepType, S>(step_type: StepType, made: RecoveryResult<S>) -> (taken: Option<
    (StepType, S),
>)
    ensures
        taken == match made {
            Ok(step) => Some((step_type, step)),
            Err(_) => None,
        },
{
    match made {
        Ok(step) => Some((step_type, step)),
        Err(_) => None,
    }
}

/// A recovery: a sequence of steps of given types, and a way to make each of them.
///
/// Contracts speak of a recovery through four things: the steps that are still ahead of
/// it, whether it is interactive, the calls of `read_step_params` and `store_next_step` that
/// it got to hear of, and what may come of making a step. They are left open here: it is for
/// an implementation to say what they are. It promises that its methods touch them as
/// stated, and nothing about whether a step can be made.
pub trait RecoveryIterator<StepType: Copy + Debug + PartialEq>: Sized {
    /// A step that is ready to be executed, such as a `Box<dyn Step>`.
    type Step;

    /// The steps that are still ahead.
    open spec fn remaining(&self) -> Seq<StepType> {
        arbitrary()
    }

    /// Whether the recovery asks its user for the parameters of each step.
    open spec fn is_interactive(&self) -> bool {
        arbitrary()
    }

    /// The calls so far, in their order.
    open spec fn calls(&self) -> Seq<RecoveryCall<StepType>> {
        arbitrary()
    }

    /// `made` may come of making the step of type `step_type`.
    open spec fn may_make(&self, step_type: StepType, made: RecoveryResult<Self::Step>) -> bool {
        true
    }

    fn get_step_iterator(&mut self) -> (steps: &mut StepIterator<StepType>)
        ensures
            steps@ == old(self).remaining(),
            final(self).remaining() == final(steps)@,
            final(self).is_interactive() == old(self).is_interactive(),
            final(self).calls() == old(self).calls(),
    ;

    fn get_step_impl(&self, step_type: StepType) -> (made: RecoveryResult<Self::Step>)
        ensures
            self.may_make(step_type, made),
    ;

    fn store_next_step(&mut self, step_type: Option<StepType>)
        ensures
            final(self).remaining() == old(self).remaining(),
            final(self).is_interactive() == old(self).is_interactive(),
            final(self).calls() == old(self).calls().push(
                RecoveryCall::StoreNextStep(step_type),
            ),
    ;

    fn interactive(&self) -> (interactive: bool)
        ensures
            interactive == self.is_interactive(),
    ;

    fn read_step_params(&mut self, step_type: StepType)
        ensures
            final(self).remaining() == old(self).remaining(),
            final(self).is_interactive() == old(self).is_interactive(),
            final(self).calls() == old(self).calls().push(
                RecoveryCall::ReadStepParams(step_type),
            ),
    ;

    /// Advances the iterator to the specified step.
    fn resume(&mut self, step: StepType)
        ensures
            StepType::obeys_eq_spec() ==> resumes_at(
                old(self).remaining(),
                step,
                final(self).remaining(),
            ),
            exists|skipped: int|
                0 <= skipped <= old(self).remaining().len() && final(self).remaining()
                    == #[trigger] old(self).remaining().skip(skipped),
            final(self).is_interactive() == old(self).is_interactive(),
            final(self).calls() == old(self).calls(),
    {
        let ghost before = self.remaining();
        let ghost mut skipped: int = 0;
        assert(before.skip(0) == before);
        loop
            invariant
                before == old(self).remaining(),
                0 <= skipped <= before.len(),
                self.remaining() == before.skip(skipped),
                StepType::obeys_eq_spec() ==> forall|i: int|
                    0 <= i < skipped ==> !(#[trigger] before[i]).eq_spec(&step),
                self.is_interactive() == old(self).is_interactive(),
                self.calls() == old(self).calls(),
            ensures
                StepType::obeys_eq_spec() ==> skipped < before.len() ==> before[skipped].eq_spec(
                    &step,
                ),
            decreases self.remaining().len(),
        {
            let differs = |current: &StepType| -> (b: bool)
                ensures
                    StepType::obeys_eq_spec() ==> b == !current.eq_spec(&step),
                { *current != step };
            match self.get_step_iterator().next_if(differs) {
                Some(current_step) => {
                    proof {
                        assert(before.skip(skipped).skip(1) == before.skip(skipped + 1));
                        skipped = skipped + 1;
                    }
                    if current_step == step {
                        break;
                    }
                },
                None => {
                    break;
                },
            }
        }
    }

    /// Makes the first step that can be made, and passes over those that cannot. Before each
    /// attempt an interactive recovery reads the parameters of the step. In the end the step
    /// that comes next is stored, once for each step that was passed over and once more.
    fn next_step(&mut self) -> (result: Option<(StepType, Self::Step)>)
        ensures
            exists|attempts: Seq<(Self, RecoveryResult<Self::Step>)>|
                {
                    &&& may_come_of(
                        old(self).remaining(),
                        old(self).calls(),
                        old(self).is_interactive(),
                        #[trigger] outcomes(attempts),
                        result,
                        final(self).remaining(),
                        final(self).calls(),
                    )
                    &&& forall|i: int|
                        #![trigger attempts[i]]
                        0 <= i < attempts.len() ==> {
                            let (at, made) = attempts[i];
                            &&& is_at_attempt(
                                old(self).remaining(),
                                old(self).calls(),
                                old(self).is_interactive(),
                                i,
                                at.remaining(),
                                at.calls(),
                            )
                            &&& at.may_make(old(self).remaining()[i], made)
                            &&& old(self).is_interactive() ==> {
                                &&& at.calls().len() > 0
                                &&& at.calls().last() == RecoveryCall::ReadStepParams(
                                    old(self).remaining()[i],
                                )
                            }
                            &&& !old(self).is_interactive() ==> at.calls() == old(self).calls()
                        }
                },
            final(self).is_interactive() == old(self).is_interactive(),
    {
        let ghost before = self.remaining();
        let ghost calls = self.calls();
        let ghost interactive = self.is_interactive();
        let ghost mut attempts: Seq<(Self, RecoveryResult<Self::Step>)> = Seq::empty();
        let mut passed: usize = 0;
        let mut result: Option<(StepType, Self::Step)> = None;
        assert(before.skip(0) == before);
        assert(calls + params_read(before.take(0), interactive) == calls);
        loop
            invariant_except_break
                result is None,
                attempts.len() == passed,
            invariant
                before == old(self).remaining(),
                calls == old(self).calls(),
                interactive == old(self).is_interactive(),
                self.is_interactive() == interactive,
                passed <= attempts.len() <= before.len(),
                passed > 0 ==> before.len() <= usize::MAX,
                self.remaining() == before.skip(attempts.len() as int),
                self.calls() == calls + params_read(
                    before.take(attempts.len() as int),
                    interactive,
                ),
                forall|i: int|
                    #![trigger attempts[i]]
                    0 <= i < attempts.len() ==> {
                        let (at, made) = attempts[i];
                        &&& is_at_attempt(
                            before,
                            calls,
                            interactive,
                            i,
                            at.remaining(),
                            at.calls(),
                        )
                        &&& at.may_make(before[i], made)
                        &&& made is Ok <==> result is Some && i == attempts.len() - 1
                    },
            ensures
                match result {
                    Some((step_type, step)) => {
                        &&& attempts.len() == passed + 1
                        &&& step_type == before[passed as int]
                        &&& attempts.last().1 == Ok::<Self::Step, RecoveryError>(step)
                    },
                    None => attempts.len() == passed == before.len(),
                },
            decreases self.remaining().len(),
        {
            let current_step = match self.get_step_iterator().next() {
                Some(current_step) => current_step,
                None => {
                    break;
                },
            };
            if self.interactive() {
                self.read_step_params(current_step);
            }
            proof {
                assert(before.skip(passed as int).skip(1) == before.skip(passed + 1));
                lemma_params_read_push(before, passed as int, interactive);
            }
            let made = self.get_step_impl(current_step);
            proof {
                attempts = attempts.push((*self, made));
            }
            result = take_if_made(current_step, made);
            if result.is_some() {
                break;
            }
            passed = passed + 1;
        }
        let next_step = match self.get_step_iterator().peek() {
            Some(next) => Some(*next),
            None => None,
        };
        self.store_next_step(next_step);
        let mut repeated: usize = 0;
        let ghost after = before.skip(attempts.len() as int);
        let ghost done = calls + params_read(before.take(attempts.len() as int), interactive);
        assert(self.calls() == done + stored(first_of(after), 1));
        while repeated < passed
            invariant
                repeated <= passed,
                self.remaining() == after,
                self.is_interactive() == interactive,
                self.calls() == done + stored(first_of(after), (repeated + 1) as nat),
            decreases passed - repeated,
        {
            let next_step = match self.get_step_iterator().peek() {
                Some(next) => Some(*next),
                None => None,
            };
            self.store_next_step(next_step);
            assert(self.calls() == done + stored(first_of(after), (repeated + 2) as nat));
            repeated = repeated + 1;
        }
        assert(calls + Seq::<RecoveryCall<StepType>>::empty() == calls);
        assert(may_come_of(
            before,
            calls,
            interactive,
            outcomes(attempts),
            result,
            self.remaining(),
            self.calls(),
        ));
        result
    }
}

} // verus!
