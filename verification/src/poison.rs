//! The poisoning container and its checkout protocol: the container itself,
//! the guard a successful checkout yields, and the recovery handle a checkout
//! against poisoned state yields.
//!
//! Ownership moves through the protocol: a checkout consumes the container
//! and the guard owns it until it is released, so exactly one live handle
//! exists at a time. A release is an explicit, caller-visible event that says
//! whether the checkout ended normally or abnormally; the state transition it
//! performs is the one the state machine in [`crate::state`] prescribes.

use vstd::prelude::*;

use crate::error::PoisonError;
use crate::state::Origin;
use crate::state::PoisonState;
use crate::state::cleared_if_checked_out;
use crate::state::poisoned_by_error;
use crate::state::poisoned_by_unwind;
use crate::state::with_new_cause;

verus! {

/// A container that holds a potentially poisoned value.
///
/// The container performs no synchronization of its own; exclusive access
/// comes from ownership, or from whatever lock the caller wraps it in.
pub struct Poison<T> {
    value: T,
    state: PoisonState,
}

/// A guard for a live checkout. It owns the container for the checkout's
/// duration and gives read and write access to the value.
///
/// A lenient guard (from [`Poison::on_unwind`]) holds the container in the
/// checkout sentinel state; a strict guard (from [`Poison::unless_recovered`])
/// holds it already poisoned, so that only an explicit recovery clears it.
pub struct PoisonGuard<T> {
    poison: Poison<T>,
    origin: Origin,
    strict: bool,
}

/// A handle for a checkout that found the container poisoned. It owns the
/// container, whose state it leaves untouched until a recovery operation
/// consumes the handle.
pub struct PoisonRecover<T> {
    poison: Poison<T>,
    strict: bool,
}

impl<T> Poison<T> {
    /// The protected value.
    pub closed spec fn spec_value(&self) -> T {
        self.value
    }

    /// The container's poison state.
    pub closed spec fn spec_state(&self) -> PoisonState {
        self.state
    }

    /// Create a new `Poison<T>` with a valid inner value.
    pub fn new(v: T) -> (p: Self)
        ensures
            p.spec_state() is Unpoisoned,
            p.spec_value() == v,
    {
        Poison { value: v, state: PoisonState::Unpoisoned }
    }

    /// Create a new `Poison<T>` from a zero-argument initializer.
    ///
    /// An initializer verified by this crate cannot unwind, so the container
    /// is always unpoisoned; catching the unwind of an unverified initializer
    /// and folding it into a poisoned container is the caller's glue, built
    /// from [`Poison::new_poisoned_by_unwind`].
    pub fn new_catch_unwind<F: FnOnce() -> T>(f: F) -> (p: Self)
        requires
            call_requires(f, ()),
        ensures
            p.spec_state() is Unpoisoned,
            call_ensures(f, (), p.spec_value()),
    {
        Poison::new(f())
    }

    /// Create a new `Poison<T>` from a fallible initializer, capturing its
    /// failure into poison at construction time: on failure the value is
    /// defaulted and the container starts poisoned with the reported cause.
    pub fn try_new_catch_unwind<F: FnOnce() -> Result<T, String>>(f: F, origin: Origin) -> (p:
        Self) where T: Default
        requires
            call_requires(f, ()),
        ensures
            exists|r: Result<T, String>|
                #[trigger] call_ensures(f, (), r) && match r {
                    Ok(v) => p.spec_state() is Unpoisoned && p.spec_value() == v,
                    Err(e) => p.spec_state() == (PoisonState::PoisonedByError {
                        origin,
                        cause: Some(e),
                    }) && call_ensures(T::default, (), p.spec_value()),
                },
    {
        match f() {
            Ok(v) => Poison::new(v),
            Err(e) => Poison::new_poisoned_by_error(T::default(), origin, Some(e)),
        }
    }

    /// Create a container that is already poisoned by a reported failure,
    /// as when a fallible constructor failed before the value was usable.
    pub fn new_poisoned_by_error(value: T, origin: Origin, cause: Option<String>) -> (p: Self)
        ensures
            p.spec_value() == value,
            p.spec_state() == (PoisonState::PoisonedByError { origin, cause }),
    {
        Poison { value, state: PoisonState::PoisonedByError { origin, cause } }
    }

    /// Create a container that is already poisoned by an observed unwind,
    /// as when a constructor's call stack terminated abnormally.
    pub fn new_poisoned_by_unwind(value: T, origin: Origin, payload: Option<String>) -> (p: Self)
        ensures
            p.spec_value() == value,
            p.spec_state() == (PoisonState::PoisonedByUnwind { origin, payload }),
    {
        Poison { value, state: PoisonState::PoisonedByUnwind { origin, payload } }
    }

    pub(crate) fn into_parts(self) -> (out: (T, PoisonState))
        ensures
            out.0 == self.spec_value(),
            out.1 == self.spec_state(),
    {
        let Poison { value, state } = self;
        (value, state)
    }

    pub(crate) fn from_parts(value: T, state: PoisonState) -> (p: Self)
        ensures
            p.spec_value() == value,
            p.spec_state() == state,
    {
        Poison { value, state }
    }

    pub(crate) fn value_mut(&mut self) -> (v: &mut T)
        ensures
            *v == old(self).spec_value(),
            final(self).spec_value() == *final(v),
            final(self).spec_state() == old(self).spec_state(),
    {
        &mut self.value
    }

    /// Whether or not the value is poisoned. An outstanding checkout
    /// sentinel counts as poisoned: observing it here means the checkout was
    /// abandoned without release.
    pub fn is_poisoned(&self) -> (r: bool)
        ensures
            r == self.spec_state().spec_is_poisoned(),
    {
        self.state.is_poisoned()
    }

    /// Try to read the inner value; fails exactly when the value is
    /// poisoned, with the captured state as the error.
    pub fn get(&self) -> (r: Result<&T, PoisonError>)
        ensures
            match r {
                Ok(v) => !self.spec_state().spec_is_poisoned() && *v == self.spec_value(),
                Err(e) => self.spec_state().spec_is_poisoned() && e.spec_state()
                    == self.spec_state(),
            },
    {
        if self.state.is_poisoned() {
            Err(PoisonError::from_state(self.state.clone()))
        } else {
            Ok(&self.value)
        }
    }

    /// The lenient checkout: poison only on an abnormal release.
    ///
    /// Succeeds exactly when the container is unpoisoned, moving it into the
    /// checkout sentinel state and yielding a guard; a poisoned container
    /// yields a recovery handle instead, with the state untouched.
    pub fn on_unwind(poison: Self, origin: Origin) -> (r: Result<
        PoisonGuard<T>,
        PoisonRecover<T>,
    >)
        ensures
            match r {
                Ok(g) => {
                    &&& !poison.spec_state().spec_is_poisoned()
                    &&& g.wf()
                    &&& !g.spec_strict()
                    &&& g.spec_origin() == origin
                    &&& g.spec_value() == poison.spec_value()
                },
                Err(h) => {
                    &&& poison.spec_state().spec_is_poisoned()
                    &&& h.wf()
                    &&& !h.spec_strict()
                    &&& h.spec_state() == poison.spec_state()
                    &&& h.spec_value() == poison.spec_value()
                },
            },
    {
        if poison.state.is_poisoned() {
            Err(PoisonRecover { poison, strict: false })
        } else {
            let mut poison = poison;
            poison.state = PoisonState::CheckedOut { origin };
            Ok(PoisonGuard { poison, origin, strict: false })
        }
    }

    /// The strict checkout: poison immediately, and stay poisoned unless the
    /// checkout is explicitly recovered.
    ///
    /// Succeeds exactly when the container is unpoisoned, moving it straight
    /// into an error poison with no cause; a poisoned container yields a
    /// recovery handle instead, with the state untouched.
    pub fn unless_recovered(poison: Self, origin: Origin) -> (r: Result<
        PoisonGuard<T>,
        PoisonRecover<T>,
    >)
        ensures
            match r {
                Ok(g) => {
                    &&& !poison.spec_state().spec_is_poisoned()
                    &&& g.wf()
                    &&& g.spec_strict()
                    &&& g.spec_origin() == origin
                    &&& g.spec_value() == poison.spec_value()
                },
                Err(h) => {
                    &&& poison.spec_state().spec_is_poisoned()
                    &&& h.wf()
                    &&& h.spec_strict()
                    &&& h.spec_state() == poison.spec_state()
                    &&& h.spec_value() == poison.spec_value()
                },
            },
    {
        if poison.state.is_poisoned() {
            Err(PoisonRecover { poison, strict: true })
        } else {
            let mut poison = poison;
            poison.state = PoisonState::PoisonedByError { origin, cause: None };
            Ok(PoisonGuard { poison, origin, strict: true })
        }
    }

    /// Recover a guard, unpoisoning the container and handing it back.
    ///
    /// This is how a strict checkout is declared successful; a lenient guard
    /// may also be returned this way, with the same effect as a normal
    /// release.
    pub fn recover(guard: PoisonGuard<T>) -> (p: Poison<T>)
        requires
            guard.wf(),
        ensures
            p.spec_state() is Unpoisoned,
            p.spec_value() == guard.spec_value(),
    {
        let PoisonGuard { mut poison, .. } = guard;
        poison.state = PoisonState::Unpoisoned;
        poison
    }

    /// Recover a guard based on a result: a success unpoisons the container,
    /// a failure poisons it with the reported cause under the checkout's
    /// origin, and the error handed back carries the captured state.
    pub fn try_recover<O>(r: Result<O, String>, guard: PoisonGuard<T>) -> (out: (
        Result<O, PoisonError>,
        Poison<T>,
    ))
        requires
            guard.wf(),
        ensures
            out.1.spec_value() == guard.spec_value(),
            match r {
                Ok(v) => out.1.spec_state() is Unpoisoned && out.0 == Ok::<O, PoisonError>(v),
                Err(e) => {
                    &&& out.1.spec_state() == poisoned_by_error(
                        guard.spec_container_state(),
                        guard.spec_origin(),
                        Some(e),
                    )
                    &&& out.0 matches Err(pe) && pe.spec_state() == out.1.spec_state()
                },
            },
    {
        match r {
            Ok(v) => (Ok(v), Poison::recover(guard)),
            Err(e) => {
                let PoisonGuard { mut poison, origin, .. } = guard;
                let o = match &poison.state {
                    PoisonState::CheckedOut { origin: co } => *co,
                    _ => origin,
                };
                poison.state = PoisonState::PoisonedByError { origin: o, cause: Some(e) };
                (Err(PoisonError::from_state(poison.state.clone())), poison)
            },
        }
    }

    /// Poison a guard explicitly with a cause, consuming it: the container
    /// is forced into an error poison under the checkout's origin, and the
    /// recovery handle for it is handed back.
    pub fn err(guard: PoisonGuard<T>, e: String) -> (h: PoisonRecover<T>)
        requires
            guard.wf(),
        ensures
            h.wf(),
            !h.spec_strict(),
            h.spec_value() == guard.spec_value(),
            h.spec_state() == poisoned_by_error(
                guard.spec_container_state(),
                guard.spec_origin(),
                Some(e),
            ),
    {
        let PoisonGuard { mut poison, origin, .. } = guard;
        let o = match &poison.state {
            PoisonState::CheckedOut { origin: co } => *co,
            _ => origin,
        };
        poison.state = PoisonState::PoisonedByError { origin: o, cause: Some(e) };
        PoisonRecover { poison, strict: false }
    }
}

impl<T> PoisonGuard<T> {
    /// The protected value as the guard sees it.
    pub closed spec fn spec_value(&self) -> T {
        self.poison.value
    }

    /// The origin of the checkout this guard represents.
    pub closed spec fn spec_origin(&self) -> Origin {
        self.origin
    }

    /// Whether this guard came from a strict checkout.
    pub closed spec fn spec_strict(&self) -> bool {
        self.strict
    }

    /// The state the guard holds the container in.
    pub closed spec fn spec_container_state(&self) -> PoisonState {
        self.poison.state
    }

    /// A live guard holds the container in exactly the state its checkout
    /// put it in: the sentinel for a lenient checkout, an uncaused error
    /// poison for a strict one, under the checkout's origin either way.
    pub open spec fn wf(&self) -> bool {
        if self.spec_strict() {
            self.spec_container_state() == (PoisonState::PoisonedByError {
                origin: self.spec_origin(),
                cause: None,
            })
        } else {
            self.spec_container_state() == (PoisonState::CheckedOut { origin: self.spec_origin() })
        }
    }

    pub(crate) fn into_parts(self) -> (out: (T, PoisonState, Origin, bool))
        ensures
            out.0 == self.spec_value(),
            out.1 == self.spec_container_state(),
            out.2 == self.spec_origin(),
            out.3 == self.spec_strict(),
    {
        let PoisonGuard { poison, origin, strict } = self;
        let Poison { value, state } = poison;
        (value, state, origin, strict)
    }

    pub(crate) fn from_checkout(value: T, origin: Origin, strict: bool) -> (g: Self)
        ensures
            g.wf(),
            g.spec_value() == value,
            g.spec_origin() == origin,
            g.spec_strict() == strict,
    {
        let state = if strict {
            PoisonState::PoisonedByError { origin, cause: None }
        } else {
            PoisonState::CheckedOut { origin }
        };
        PoisonGuard { poison: Poison { value, state }, origin, strict }
    }

    /// Read access to the protected value.
    pub fn get(&self) -> (v: &T)
        ensures
            *v == self.spec_value(),
    {
        &self.poison.value
    }

    /// Write access to the protected value.
    pub fn get_mut(&mut self) -> (v: &mut T)
        ensures
            *v == old(self).spec_value(),
            final(self).spec_value() == *final(v),
            final(self).spec_origin() == old(self).spec_origin(),
            final(self).spec_strict() == old(self).spec_strict(),
            final(self).spec_container_state() == old(self).spec_container_state(),
    {
        &mut self.poison.value
    }

    /// The normal-exit finalizer: release the checkout and hand the
    /// container back. The sentinel of a lenient checkout clears to
    /// unpoisoned; the poison of a strict checkout stays in place, since
    /// only an explicit recovery may clear it.
    pub fn release(self) -> (p: Poison<T>)
        requires
            self.wf(),
        ensures
            p.spec_value() == self.spec_value(),
            p.spec_state() == cleared_if_checked_out(self.spec_container_state()),
    {
        let PoisonGuard { mut poison, .. } = self;
        if let PoisonState::CheckedOut { .. } = &poison.state {
            poison.state = PoisonState::Unpoisoned;
        }
        poison
    }

    /// The abnormal-exit finalizer: the checkout's call stack is unwinding,
    /// so the container is poisoned by the unwind, under the checkout's
    /// origin, with whatever payload the unwind signal carried.
    pub fn release_unwinding(self, payload: Option<String>) -> (p: Poison<T>)
        requires
            self.wf(),
        ensures
            p.spec_value() == self.spec_value(),
            p.spec_state() == poisoned_by_unwind(
                self.spec_container_state(),
                self.spec_origin(),
                payload,
            ),
    {
        let PoisonGuard { mut poison, origin, .. } = self;
        let o = match &poison.state {
            PoisonState::CheckedOut { origin: co } => *co,
            _ => origin,
        };
        poison.state = PoisonState::PoisonedByUnwind { origin: o, payload };
        poison
    }
}

impl<T> PoisonRecover<T> {
    /// The protected value as the handle sees it.
    pub closed spec fn spec_value(&self) -> T {
        self.poison.value
    }

    /// The poisoned state the handle was created against.
    pub closed spec fn spec_state(&self) -> PoisonState {
        self.poison.state
    }

    /// Whether the checkout that yielded this handle was strict; a
    /// successful repair reuses that discipline for the fresh guard.
    pub closed spec fn spec_strict(&self) -> bool {
        self.strict
    }

    /// A recovery handle only exists for a container that is not
    /// unpoisoned: checkouts yield one exactly when they find poison.
    pub open spec fn wf(&self) -> bool {
        self.spec_state().spec_is_poisoned()
    }

    pub(crate) fn from_poisoned(value: T, state: PoisonState, strict: bool) -> (h: Self)
        requires
            state.spec_is_poisoned(),
        ensures
            h.wf(),
            h.spec_value() == value,
            h.spec_state() == state,
            h.spec_strict() == strict,
    {
        PoisonRecover { poison: Poison { value, state }, strict }
    }

    /// Recover the value as it stands: unconditionally clear the poison and
    /// produce a fresh guard under the lenient discipline. The caller
    /// asserts the value is actually fine; nothing is rolled back.
    pub fn recover(self, origin: Origin) -> (g: PoisonGuard<T>)
        requires
            self.wf(),
        ensures
            g.wf(),
            !g.spec_strict(),
            g.spec_origin() == origin,
            g.spec_value() == self.spec_value(),
    {
        let PoisonRecover { mut poison, .. } = self;
        poison.state = PoisonState::CheckedOut { origin };
        PoisonGuard { poison, origin, strict: false }
    }

    /// Recover the value by repairing it: `f` is applied to the value
    /// exactly once and the poison is cleared, producing a fresh guard under
    /// the lenient discipline.
    pub fn recover_with<F: FnOnce(T) -> T>(self, f: F, origin: Origin) -> (g: PoisonGuard<T>)
        requires
            self.wf(),
            call_requires(f, (self.spec_value(),)),
        ensures
            g.wf(),
            !g.spec_strict(),
            g.spec_origin() == origin,
            call_ensures(f, (self.spec_value(),), g.spec_value()),
    {
        let PoisonRecover { poison, strict: _ } = self;
        let Poison { value, state: _ } = poison;
        let value = f(value);
        let state = PoisonState::CheckedOut { origin };
        PoisonGuard { poison: Poison { value, state }, origin, strict: false }
    }

    /// Try to recover the value with a fallible repair.
    ///
    /// On success the poison clears and a fresh guard comes back under the
    /// discipline of the checkout that found the poison. On failure the
    /// container keeps its poison tag but the stored cause is replaced with
    /// the new one, and the handle comes back so the caller can retry or
    /// give up.
    pub fn try_recover_with<F: FnOnce(T) -> (T, Result<(), String>)>(
        self,
        f: F,
        origin: Origin,
    ) -> (r: Result<PoisonGuard<T>, PoisonRecover<T>>)
        requires
            self.wf(),
            call_requires(f, (self.spec_value(),)),
        ensures
            match r {
                Ok(g) => {
                    &&& g.wf()
                    &&& g.spec_strict() == self.spec_strict()
                    &&& g.spec_origin() == origin
                    &&& exists|out: (T, Result<(), String>)|
                        #[trigger] call_ensures(f, (self.spec_value(),), out) && out.1 is Ok
                            && g.spec_value() == out.0
                },
                Err(h) => {
                    &&& h.wf()
                    &&& h.spec_strict() == self.spec_strict()
                    &&& exists|out: (T, Result<(), String>)|
                        #[trigger] call_ensures(f, (self.spec_value(),), out)
                            && (out.1 matches Err(e) && h.spec_value() == out.0 && h.spec_state()
                            == with_new_cause(self.spec_state(), origin, e))
                },
            },
    {
        let PoisonRecover { poison, strict } = self;
        let Poison { value, state } = poison;
        let (value, outcome) = f(value);
        match outcome {
            Ok(()) => {
                let state = if strict {
                    PoisonState::PoisonedByError { origin, cause: None }
                } else {
                    PoisonState::CheckedOut { origin }
                };
                Ok(PoisonGuard { poison: Poison { value, state }, origin, strict })
            },
            Err(e) => {
                let state = match state {
                    PoisonState::PoisonedByUnwind { origin: o, .. } => {
                        PoisonState::PoisonedByUnwind { origin: o, payload: Some(e) }
                    },
                    PoisonState::PoisonedByError { origin: o, .. } => {
                        PoisonState::PoisonedByError { origin: o, cause: Some(e) }
                    },
                    PoisonState::CheckedOut { origin: o } => {
                        PoisonState::PoisonedByError { origin: o, cause: Some(e) }
                    },
                    PoisonState::Unpoisoned => {
                        PoisonState::PoisonedByError { origin, cause: Some(e) }
                    },
                };
                Err(PoisonRecover { poison: Poison { value, state }, strict })
            },
        }
    }

    /// Convert this handle into a plain error carrying the captured state,
    /// for propagation without recovery; the container comes back poisoned
    /// exactly as it was.
    pub fn into_error(self) -> (out: (PoisonError, Poison<T>))
        ensures
            out.0.spec_state() == self.spec_state(),
            out.1.spec_value() == self.spec_value(),
            out.1.spec_state() == self.spec_state(),
    {
        let e = PoisonError::from_state(self.poison.state.clone());
        (e, self.poison)
    }
}

} // verus!
