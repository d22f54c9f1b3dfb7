//! A queue of steps that can be looked at before one is taken.

use vstd::prelude::*;

verus! {

/// Steps that are taken from the front, one after the other.
#[derive(Debug)]
pub struct StepIterator<T> {
    steps: Vec<T>,
    taken: usize,
}

impl<T> View for StepIterator<T> {
    type V = Seq<T>;

    /// The steps that are not taken yet.
    closed spec fn view(&self) -> Seq<T> {
        self.steps@.skip(self.taken as int)
    }
}

impl<T> StepIterator<T> {
    #[verifier::type_invariant]
    spec fn is_within_bounds(self) -> bool {
        self.taken <= self.steps@.len()
    }

    /// All of `steps`, in their order.
    pub fn new(steps: Vec<T>) -> (iterator: Self)
        ensures
            iterator@ == steps@,
    {
        StepIterator { steps, taken: 0 }
    }

    /// The step that comes next, which stays where it is.
    pub fn peek(&self) -> (next: Option<&T>)
        ensures
            self@.len() == 0 ==> next is None,
            self@.len() > 0 ==> next == Some(&self@[0]),
    {
        proof {
            use_type_invariant(self);
        }
        if self.taken < self.steps.len() {
            Some(&self.steps[self.taken])
        } else {
            None
        }
    }
}

impl<T: Copy> StepIterator<T> {
    /// Takes the next step.
    pub fn next(&mut self) -> (next: Option<T>)
        ensures
            old(self)@.len() <= usize::MAX,
            old(self)@.len() == 0 ==> next is None && final(self)@ == old(self)@,
            old(self)@.len() > 0 ==> next == Some(old(self)@[0]) && final(self)@ == old(
                self,
            )@.skip(1),
    {
        proof {
            use_type_invariant(&*self);
        }
        if self.taken < self.steps.len() {
            let next = self.steps[self.taken];
            self.taken = self.taken + 1;
            Some(next)
        } else {
            None
        }
    }

    /// Takes the next step if `func` holds of it.
    pub fn next_if<F: FnOnce(&T) -> bool>(&mut self, func: F) -> (next: Option<T>)
        requires
            old(self)@.len() > 0 ==> call_requires(func, (&old(self)@[0],)),
        ensures
            old(self)@.len() == 0 ==> next is None,
            match next {
                Some(step) => {
                    &&& old(self)@.len() > 0
                    &&& step == old(self)@[0]
                    &&& call_ensures(func, (&old(self)@[0],), true)
                    &&& final(self)@ == old(self)@.skip(1)
                },
                None => {
                    &&& old(self)@.len() > 0 ==> call_ensures(func, (&old(self)@[0],), false)
                    &&& final(self)@ == old(self)@
                },
            },
    {
        proof {
            use_type_invariant(&*self);
        }
        if self.taken < self.steps.len() && func(&self.steps[self.taken]) {
            let next = self.steps[self.taken];
            self.taken = self.taken + 1;
            Some(next)
        } else {
            None
        }
    }
}

} // verus!
