//! Staged initialization: the hand-off protocol for a value that is built
//! up in steps before it is wrapped in a poisoning container.
//!
//! A [`MaybeUninitSlot`] holds whatever has been staged so far. Completing
//! initialization turns it into an [`InitSlot`], whose value is definitely
//! present; abandoning initialization turns it into an [`UnwoundSlot`],
//! which hands the partial remains to cleanup code so nothing is leaked.
//! The unwind-catching glue that decides which conversion to perform lives
//! with the caller; the hand-off itself is what this module pins down.

use vstd::prelude::*;

verus! {

/// A potentially uninitialized value: nothing, or the partial value staged
/// so far.
pub struct MaybeUninitSlot<T> {
    value: Option<T>,
}

/// An initialized value: the result of completing a `MaybeUninitSlot`.
pub struct InitSlot<T> {
    value: T,
}

/// A potentially initialized value, recovered from initialization that was
/// abandoned part-way. It is up to the caller to decide how to dispose of
/// any partial state in it.
pub struct UnwoundSlot<T> {
    value: Option<T>,
}

impl<T> MaybeUninitSlot<T> {
    /// What has been staged so far.
    pub closed spec fn spec_value(&self) -> Option<T> {
        self.value
    }

    /// A slot with nothing staged yet.
    pub fn empty() -> (s: Self)
        ensures
            s.spec_value() is None,
    {
        MaybeUninitSlot { value: None }
    }

    /// A reference to the staged state, for reading part-way through
    /// initialization.
    pub fn get(&self) -> (v: &Option<T>)
        ensures
            *v == self.spec_value(),
    {
        &self.value
    }

    /// A reference to the value to initialize: staging happens through it.
    pub fn get_mut(&mut self) -> (v: &mut Option<T>)
        ensures
            *v == old(self).spec_value(),
            final(self).spec_value() == *final(v),
    {
        &mut self.value
    }

    /// Initialize the value. Any previously staged state is replaced by the
    /// completed value.
    pub fn init(self, value: T) -> (s: InitSlot<T>)
        ensures
            s.spec_value() == value,
    {
        InitSlot { value }
    }

    /// Abandon initialization, handing whatever was staged to cleanup code.
    pub fn into_unwound(self) -> (s: UnwoundSlot<T>)
        ensures
            s.spec_value() == self.spec_value(),
    {
        UnwoundSlot { value: self.value }
    }
}

impl<T> InitSlot<T> {
    /// The completed value.
    pub closed spec fn spec_value(&self) -> T {
        self.value
    }

    /// Take the completed value out of the slot.
    pub fn into_inner(slot: Self) -> (v: T)
        ensures
            v == slot.spec_value(),
    {
        slot.value
    }

    /// Read access to the completed value.
    pub fn get(&self) -> (v: &T)
        ensures
            *v == self.spec_value(),
    {
        &self.value
    }

    /// Write access to the completed value.
    pub fn get_mut(&mut self) -> (v: &mut T)
        ensures
            *v == old(self).spec_value(),
            final(self).spec_value() == *final(v),
    {
        &mut self.value
    }
}

impl<T> UnwoundSlot<T> {
    /// The partial remains this slot carries.
    pub closed spec fn spec_value(&self) -> Option<T> {
        self.value
    }

    /// Take the partially initialized value, if one was staged.
    pub fn into_inner(self) -> (v: Option<T>)
        ensures
            v == self.spec_value(),
    {
        self.value
    }
}

} // verus!
