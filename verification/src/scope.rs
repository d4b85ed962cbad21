//! The scope: one checkout stretched across a sequence of separately
//! fallible steps, sharing a single poisoning transaction.
//!
//! A scope takes ownership of the container from a guard and keeps a private
//! shadow state, initially the container's checked-out sentinel. Steps mutate
//! only the shadow: the first captured failure disarms the scope, so later
//! steps short-circuit without running. Closing the scope swaps the shadow
//! into the container and applies the usual release rule: a shadow still at
//! the sentinel clears to unpoisoned, a captured failure stays as real
//! poison.
//!
//! A step run by [`PoisonScope::try_catch_unwind`] is an immediately
//! evaluated fallible function. A driver that runs its steps elsewhere, such
//! as a poll loop resuming a suspendable step and catching its unwinds,
//! feeds the outcome back through [`PoisonScope::record_error`] and
//! [`PoisonScope::record_unwind`] instead; the transitions are the same.

use vstd::prelude::*;
use vstd::pervasive::unreached;

use crate::error::PoisonError;
use crate::poison::Poison;
use crate::poison::PoisonGuard;
use crate::poison::PoisonRecover;
use crate::state::Origin;
use crate::state::PoisonState;
use crate::state::cleared_if_checked_out;
use crate::state::poisoned_by_error;
use crate::state::poisoned_by_unwind;

verus! {

/// A scope for a checked-out value: the container, taken from a guard, plus
/// the shadow state that the scope's steps poison in place of it.
pub struct PoisonScope<T> {
    poison: Poison<T>,
    shadow: PoisonState,
    origin: Origin,
    strict: bool,
}

/// The outcome of one scope step: either the step's own result, or the
/// failure the scope captured, as an error carrying the captured state.
#[must_use]
pub struct TryCatchUnwind<R> {
    result: Result<R, PoisonError>,
}

impl<T> Poison<T> {
    /// Convert a guard into a scope. The scope owns the container; its
    /// shadow starts as a copy of the state the checkout left in the
    /// container, so only a lenient checkout's sentinel arms the scope.
    pub fn scope(guard: PoisonGuard<T>) -> (s: PoisonScope<T>)
        requires
            guard.wf(),
        ensures
            s.wf(),
            s.spec_value() == guard.spec_value(),
            s.spec_origin() == guard.spec_origin(),
            s.spec_strict() == guard.spec_strict(),
            s.spec_shadow() == guard.spec_container_state(),
    {
        let (value, state, origin, strict) = guard.into_parts();
        let shadow = state.clone();
        PoisonScope { poison: Poison::from_parts(value, state), shadow, origin, strict }
    }
}

impl<T> PoisonScope<T> {
    /// The protected value as the scope sees it.
    pub closed spec fn spec_value(&self) -> T {
        self.poison.spec_value()
    }

    /// The scope's shadow state: the sentinel until a step fails, the
    /// captured failure afterwards.
    pub closed spec fn spec_shadow(&self) -> PoisonState {
        self.shadow
    }

    /// The origin of the checkout this scope extends.
    pub closed spec fn spec_origin(&self) -> Origin {
        self.origin
    }

    /// Whether the checkout this scope extends was strict.
    pub closed spec fn spec_strict(&self) -> bool {
        self.strict
    }

    /// The state the container itself is held in while the scope runs.
    pub closed spec fn spec_container_state(&self) -> PoisonState {
        self.poison.spec_state()
    }

    /// While the scope runs, the container keeps exactly the state its
    /// checkout put it in; the steps touch only the shadow.
    pub open spec fn wf(&self) -> bool {
        if self.spec_strict() {
            self.spec_container_state() == (PoisonState::PoisonedByError {
                origin: self.spec_origin(),
                cause: None,
            })
        } else {
            self.spec_container_state() == (PoisonState::CheckedOut { origin: self.spec_origin() })
        }
    }

    /// Whether a step may still run: the shadow is still the sentinel.
    pub fn is_armed(&self) -> (r: bool)
        ensures
            r == (self.spec_shadow() is CheckedOut),
    {
        match &self.shadow {
            PoisonState::CheckedOut { .. } => true,
            _ => false,
        }
    }

    /// Run one fallible step against the value.
    ///
    /// While the scope is armed the step runs exactly once: a success leaves
    /// the shadow at the sentinel and hands the step's result through
    /// unchanged, a failure poisons the shadow with the step's cause under
    /// the checkout's origin. Once a failure has been captured the step does
    /// not run at all: the value and shadow stay as they are and the
    /// captured failure comes back immediately.
    pub fn try_catch_unwind<R, F: FnOnce(T) -> (T, Result<R, String>)>(self, f: F) -> (out: (
        PoisonScope<T>,
        TryCatchUnwind<R>,
    ))
        requires
            self.wf(),
            self.spec_shadow() is CheckedOut ==> call_requires(f, (self.spec_value(),)),
        ensures
            out.0.wf(),
            out.0.spec_origin() == self.spec_origin(),
            out.0.spec_strict() == self.spec_strict(),
            !(self.spec_shadow() is CheckedOut) ==> {
                &&& out.0.spec_value() == self.spec_value()
                &&& out.0.spec_shadow() == self.spec_shadow()
                &&& out.1.spec_result() matches Err(e) && e.spec_state() == self.spec_shadow()
            },
            self.spec_shadow() is CheckedOut ==> exists|step: (T, Result<R, String>)|
                #[trigger] call_ensures(f, (self.spec_value(),), step) && out.0.spec_value()
                    == step.0 && match step.1 {
                    Ok(v) => out.0.spec_shadow() == self.spec_shadow() && out.1.spec_result()
                        == Ok::<R, PoisonError>(v),
                    Err(e) => {
                        &&& out.0.spec_shadow() == poisoned_by_error(
                            self.spec_shadow(),
                            self.spec_origin(),
                            Some(e),
                        )
                        &&& out.1.spec_result() matches Err(pe) && pe.spec_state()
                            == out.0.spec_shadow()
                    },
                },
    {
        let PoisonScope { poison, shadow, origin, strict } = self;
        let armed = match &shadow {
            PoisonState::CheckedOut { .. } => true,
            _ => false,
        };
        if !armed {
            let e = PoisonError::from_state(shadow.clone());
            (PoisonScope { poison, shadow, origin, strict }, TryCatchUnwind { result: Err(e) })
        } else {
            let (value, state) = poison.into_parts();
            let (value, outcome) = f(value);
            let poison = Poison::from_parts(value, state);
            match outcome {
                Ok(v) => (
                    PoisonScope { poison, shadow, origin, strict },
                    TryCatchUnwind { result: Ok(v) },
                ),
                Err(e) => {
                    let o = match &shadow {
                        PoisonState::CheckedOut { origin: co } => *co,
                        _ => origin,
                    };
                    let shadow = PoisonState::PoisonedByError { origin: o, cause: Some(e) };
                    let err = PoisonError::from_state(shadow.clone());
                    (
                        PoisonScope { poison, shadow, origin, strict },
                        TryCatchUnwind { result: Err(err) },
                    )
                },
            }
        }
    }

    /// Record that a step reported a failure, poisoning the shadow with the
    /// given cause. This is the step-failure transition itself, for a driver
    /// that runs its steps outside this crate.
    pub fn record_error(&mut self, cause: Option<String>)
        ensures
            final(self).spec_value() == old(self).spec_value(),
            final(self).spec_origin() == old(self).spec_origin(),
            final(self).spec_strict() == old(self).spec_strict(),
            final(self).spec_container_state() == old(self).spec_container_state(),
            final(self).spec_shadow() == poisoned_by_error(
                old(self).spec_shadow(),
                old(self).spec_origin(),
                cause,
            ),
    {
        let o = match &self.shadow {
            PoisonState::CheckedOut { origin: co } => *co,
            _ => self.origin,
        };
        self.shadow = PoisonState::PoisonedByError { origin: o, cause };
    }

    /// Record that a step's call stack unwound, poisoning the shadow with
    /// the captured payload. This is the step-unwind transition itself, for
    /// a driver that catches unwinds outside this crate.
    pub fn record_unwind(&mut self, payload: Option<String>)
        ensures
            final(self).spec_value() == old(self).spec_value(),
            final(self).spec_origin() == old(self).spec_origin(),
            final(self).spec_strict() == old(self).spec_strict(),
            final(self).spec_container_state() == old(self).spec_container_state(),
            final(self).spec_shadow() == poisoned_by_unwind(
                old(self).spec_shadow(),
                old(self).spec_origin(),
                payload,
            ),
    {
        let o = match &self.shadow {
            PoisonState::CheckedOut { origin: co } => *co,
            _ => self.origin,
        };
        self.shadow = PoisonState::PoisonedByUnwind { origin: o, payload };
    }

    /// The failure the scope has captured, if any: absent exactly while the
    /// scope is still armed. A driver that runs its steps outside this crate
    /// reads the outcome of the whole scope here.
    pub fn captured(&self) -> (r: Option<PoisonError>)
        ensures
            match r {
                None => self.spec_shadow() is CheckedOut,
                Some(e) => !(self.spec_shadow() is CheckedOut) && e.spec_state()
                    == self.spec_shadow(),
            },
    {
        match &self.shadow {
            PoisonState::CheckedOut { .. } => None,
            _ => Some(PoisonError::from_state(self.shadow.clone())),
        }
    }

    /// Write access to the protected value, armed or not: a borrow taken
    /// during a step may deliberately outlive the step's failure, and the
    /// container still ends up poisoned when the scope closes.
    pub fn value_mut(&mut self) -> (v: &mut T)
        ensures
            *v == old(self).spec_value(),
            final(self).spec_value() == *final(v),
            final(self).spec_origin() == old(self).spec_origin(),
            final(self).spec_strict() == old(self).spec_strict(),
            final(self).spec_container_state() == old(self).spec_container_state(),
            final(self).spec_shadow() == old(self).spec_shadow(),
    {
        self.poison.value_mut()
    }

    /// Close the scope, collapsing it back into a guard or recovery handle:
    /// the shadow is swapped into the container and the release rule
    /// applies. A shadow still at the sentinel clears, yielding a fresh
    /// lenient guard; a captured failure stays as the container's poison,
    /// yielding the handle to recover it.
    pub fn poison(self) -> (r: Result<PoisonGuard<T>, PoisonRecover<T>>)
        requires
            self.wf(),
        ensures
            ({
                let swapped = cleared_if_checked_out(self.spec_shadow());
                match r {
                    Ok(g) => {
                        &&& !swapped.spec_is_poisoned()
                        &&& g.wf()
                        &&& !g.spec_strict()
                        &&& g.spec_origin() == self.spec_origin()
                        &&& g.spec_value() == self.spec_value()
                    },
                    Err(h) => {
                        &&& swapped.spec_is_poisoned()
                        &&& h.wf()
                        &&& !h.spec_strict()
                        &&& h.spec_state() == swapped
                        &&& h.spec_value() == self.spec_value()
                    },
                }
            }),
    {
        let PoisonScope { poison, shadow, origin, strict: _ } = self;
        let (value, _checkout_state) = poison.into_parts();
        match shadow {
            PoisonState::CheckedOut { .. } | PoisonState::Unpoisoned => Ok(
                PoisonGuard::from_checkout(value, origin, false),
            ),
            _ => Err(PoisonRecover::from_poisoned(value, shadow, false)),
        }
    }

    /// Abandon the scope while the surrounding call stack unwinds: whatever
    /// the shadow holds, the container is forced into an unwind poison under
    /// the checkout's origin, and handed back for the unwind to carry past.
    pub fn poison_unwinding(self, payload: Option<String>) -> (p: Poison<T>)
        requires
            self.wf(),
        ensures
            p.spec_value() == self.spec_value(),
            p.spec_state() == (PoisonState::PoisonedByUnwind {
                origin: self.spec_origin(),
                payload,
            }),
    {
        let PoisonScope { poison, shadow: _, origin, strict: _ } = self;
        let (value, _checkout_state) = poison.into_parts();
        Poison::from_parts(value, PoisonState::PoisonedByUnwind { origin, payload })
    }
}

impl<R> TryCatchUnwind<R> {
    /// The step's outcome this value carries.
    pub closed spec fn spec_result(&self) -> Result<R, PoisonError> {
        self.result
    }

    /// The outcome as a plain result.
    pub fn into_result(self) -> (r: Result<R, PoisonError>)
        ensures
            r == self.spec_result(),
    {
        self.result
    }

    /// Map the successful value produced by a scope.
    pub fn map<U, F: FnOnce(R) -> U>(self, op: F) -> (r: Result<U, PoisonError>)
        requires
            self.spec_result() matches Ok(v) ==> call_requires(op, (v,)),
        ensures
            match self.spec_result() {
                Ok(v) => r matches Ok(u) && call_ensures(op, (v,), u),
                Err(e) => r == Err::<U, PoisonError>(e),
            },
    {
        match self.result {
            Ok(v) => Ok(op(v)),
            Err(e) => Err(e),
        }
    }

    /// Map the error value produced by a scope.
    pub fn map_err<G, F: FnOnce(PoisonError) -> G>(self, op: F) -> (r: Result<R, G>)
        requires
            self.spec_result() matches Err(e) ==> call_requires(op, (e,)),
        ensures
            match self.spec_result() {
                Ok(v) => r == Ok::<R, G>(v),
                Err(e) => r matches Err(g) && call_ensures(op, (e,), g),
            },
    {
        match self.result {
            Ok(v) => Ok(v),
            Err(e) => Err(op(e)),
        }
    }

    /// Unwrap the successful value produced by a scope; the outcome must be
    /// a success.
    pub fn unwrap(self) -> (r: R)
        requires
            self.spec_result() is Ok,
        ensures
            self.spec_result() == Ok::<R, PoisonError>(r),
    {
        match self.result {
            Ok(v) => v,
            Err(_) => unreached(),
        }
    }

    /// Unwrap the error value produced by a scope; the outcome must be a
    /// failure.
    pub fn unwrap_err(self) -> (e: PoisonError)
        requires
            self.spec_result() is Err,
        ensures
            self.spec_result() == Err::<R, PoisonError>(e),
    {
        match self.result {
            Ok(_) => unreached(),
            Err(e) => e,
        }
    }

    /// Unwrap the successful value produced by a scope, naming the caller's
    /// expectation; the outcome must be a success.
    pub fn expect(self, msg: &str) -> (r: R)
        requires
            self.spec_result() is Ok,
        ensures
            self.spec_result() == Ok::<R, PoisonError>(r),
    {
        let _ = msg;
        match self.result {
            Ok(v) => v,
            Err(_) => unreached(),
        }
    }

    /// Unwrap the error value produced by a scope, naming the caller's
    /// expectation; the outcome must be a failure.
    pub fn expect_err(self, msg: &str) -> (e: PoisonError)
        requires
            self.spec_result() is Err,
        ensures
            self.spec_result() == Err::<R, PoisonError>(e),
    {
        let _ = msg;
        match self.result {
            Ok(_) => unreached(),
            Err(e) => e,
        }
    }
}

} // verus!
