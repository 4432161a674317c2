//! An owning slot for a value handed to a host that collects garbage on its
//! own schedule and calls a finalizer for each object it reclaims.
//!
//! The slot is either live, holding its value, or released. Finalizing a
//! live slot tears the value down and releases the slot; finalizing a
//! released slot does nothing, so a repeated finalizer call never tears the
//! value down twice. The accessor requires a live slot.

use vstd::prelude::*;

verus! {

/// A value owned on behalf of a garbage-collecting host.
pub struct Foreign<T> {
    slot: Option<T>,
}

/// Whether finalizing a slot in the given condition tears a value down.
pub open spec fn finalize_tears_down<T>(slot: Option<T>) -> bool {
    slot is Some
}

/// How many teardowns finalizing a slot twice in a row performs.
pub open spec fn teardowns_of_two_finalizes<T>(slot: Option<T>) -> nat {
    (if finalize_tears_down(slot) { 1nat } else { 0nat }) + (if finalize_tears_down(None::<T>) {
        1nat
    } else {
        0nat
    })
}

impl<T> View for Foreign<T> {
    type V = Option<T>;

    closed spec fn view(&self) -> Option<T> {
        self.slot
    }
}

impl<T> Foreign<T> {
    /// Takes ownership of `value`; the slot starts live.
    pub fn new(value: T) -> (r: Self)
        ensures
            r@ == Some(value),
    {
        Foreign { slot: Some(value) }
    }

    /// Whether the slot still holds its value.
    pub fn is_live(&self) -> (r: bool)
        ensures
            r == self@ is Some,
    {
        self.slot.is_some()
    }

    /// The value, while the slot is live.
    pub fn get(&self) -> (r: &T)
        requires
            self@ is Some,
        ensures
            self@ == Some(*r),
    {
        self.slot.as_ref().unwrap()
    }

    /// Hands the value back to the caller, if the slot was live, and leaves
    /// the slot released.
    pub fn release(&mut self) -> (r: Option<T>)
        ensures
            r == old(self)@,
            final(self)@ is None,
    {
        self.slot.take()
    }

    /// The finalizer: tears the value down if the slot is live, then leaves
    /// it released. Returns whether a value was torn down.
    pub fn finalize(&mut self) -> (torn_down: bool)
        ensures
            torn_down == finalize_tears_down(old(self)@),
            final(self)@ is None,
    {
        match self.slot.take() {
            Some(_value) => true,
            None => false,
        }
    }
}

/// A new wrapper that is finalized twice tears its value down exactly once,
/// on the first call; a wrapper finalized twice never tears down more than
/// once.
pub proof fn lemma_finalize_once<T>(value: T, slot: Option<T>)
    ensures
        finalize_tears_down(Some(value)),
        !finalize_tears_down(None::<T>),
        teardowns_of_two_finalizes(Some(value)) == 1,
        teardowns_of_two_finalizes(slot) <= 1,
{
}

} // verus!
