//! The box whose accessors test the slot when they run.

use vstd::prelude::*;
use crate::slot::{empty_slot, fill, is_filled, stored};

verus! {

/// A box that is made empty and filled later.
///
/// `get_value`, `deref` and `deref_mut` come to a hard stop on an empty box:
/// to use a box before it is ready is a programming error, not a condition to
/// recover from. Each of them therefore names initialisation as its
/// precondition, and a verified caller never reaches the stop. The test itself
/// stays in the compiled code, for callers that no verifier has seen.
///
/// Access is by the methods `deref` and `deref_mut`, not by the operator
/// traits of those names, whose methods cannot state a precondition.
pub struct Lateinit<T>(Option<T>);

impl<T> View for Lateinit<T> {
    type V = Option<T>;

    /// The slot: `None` until the first `init`, then `Some` of the value
    /// stored last.
    closed spec fn view(&self) -> Option<T> {
        self.0
    }
}

impl<T> Lateinit<T> {
    /// What `is_initialized` means in a contract.
    pub open spec fn spec_is_initialized(&self) -> bool {
        is_filled(self@)
    }

    /// Makes an empty box. No `T` is needed for it.
    pub fn new() -> (fresh: Self)
        ensures
            fresh@ == empty_slot::<T>(),
            !fresh.is_initialized(),
    {
        Lateinit(None)
    }

    /// Stores `value` and drops whatever the box held before. The box may be
    /// empty or filled when this is called; it is filled afterwards.
    pub fn init(&mut self, value: T)
        ensures
            final(self)@ == fill(old(self)@, value),
            final(self).is_initialized(),
    {
        self.0 = Some(value)
    }

    /// Whether the box holds a value at this moment.
    #[verifier::when_used_as_spec(spec_is_initialized)]
    pub fn is_initialized(&self) -> (filled: bool)
        ensures
            filled == is_filled(self@),
    {
        self.0.is_some()
    }

    /// Consumes the box and hands out the value it holds.
    pub fn get_value(self) -> (value: T)
        requires
            self.is_initialized(),
        ensures
            value == stored(self@),
    {
        self.0.unwrap()
    }

    /// Shared access to the value in the box.
    pub fn deref(&self) -> (value: &T)
        requires
            self.is_initialized(),
        ensures
            *value == stored(self@),
    {
        self.0.as_ref().unwrap()
    }

    /// Exclusive access to the value in the box. The borrow starts at the
    /// stored value, and whatever it holds when it ends is what the box holds
    /// from then on.
    pub fn deref_mut(&mut self) -> (value: &mut T)
        requires
            old(self).is_initialized(),
        ensures
            *value == stored(old(self)@),
            final(self)@ == fill(old(self)@, *final(value)),
            final(self).is_initialized(),
    {
        self.0.as_mut().unwrap()
    }
}

} // verus!
