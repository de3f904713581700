//! The steps of a start-up.

use vstd::prelude::*;

verus! {

/// A step of a start-up that something is awaited in. Only the step before it
/// makes one, and going on uses it up.
pub struct Awaiting<D> {
    data: D,
}

impl<D> View for Awaiting<D> {
    type V = D;

    closed spec fn view(&self) -> D {
        self.data
    }
}

impl<D> Awaiting<D> {
    /// What the step has to do, and what it goes on with.
    pub fn get(&self) -> (r: &D)
        ensures
            *r == self@,
    {
        &self.data
    }

    /// What the step has to do, to be changed in the course of it.
    pub(crate) fn get_mut(&mut self) -> (r: &mut D)
        ensures
            *r == old(self)@,
            final(self)@ == *final(r),
    {
        &mut self.data
    }

    /// The step with this data.
    pub(crate) fn new(data: D) -> (r: Self)
        ensures
            r@ == data,
    {
        Awaiting { data }
    }

    /// Ends the step.
    pub(crate) fn take(self) -> (r: D)
        ensures
            r == self@,
    {
        self.data
    }
}

} // verus!
