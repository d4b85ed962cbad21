//! The poison state machine: the tagged condition of a protected value and
//! the transitions that checkouts, releases and recoveries perform on it.

use vstd::prelude::*;

verus! {

/// The source location at which a checkout began.
///
/// An origin is fixed at the moment a checkout starts and is carried through
/// every later poisoning of that same checkout, so that a poisoned state
/// always answers "where was the value checked out when it broke?".
#[derive(Clone, Copy, PartialEq, Eq, Structural, Debug)]
pub struct Origin {
    pub line: u32,
    pub col: u32,
}

impl Origin {
    pub fn new(line: u32, col: u32) -> (o: Origin)
        ensures
            o == (Origin { line, col }),
    {
        Origin { line, col }
    }
}

/// The condition of a protected value. Exactly one variant holds at any time.
///
/// - `Unpoisoned`: the initial and fully recovered condition.
/// - `CheckedOut`: a checkout is outstanding. This is a sentinel: a guard
///   released without incident clears it back to `Unpoisoned`, while any
///   other path that observes it must treat the value as poisoned (the
///   checkout was abandoned).
/// - `PoisonedByUnwind`: the checkout's call stack terminated abnormally;
///   `payload` is a best-effort captured message, absent when the unwind
///   signal carried no string-like value.
/// - `PoisonedByError`: the checkout, or a repair attempt, reported a regular
///   failure; `cause` is absent only when no cause was supplied.
#[derive(Debug)]
pub enum PoisonState {
    Unpoisoned,
    CheckedOut { origin: Origin },
    PoisonedByUnwind { origin: Origin, payload: Option<String> },
    PoisonedByError { origin: Origin, cause: Option<String> },
}

impl PoisonState {
    /// Every state other than `Unpoisoned` blocks ordinary access.
    pub open spec fn spec_is_poisoned(self) -> bool {
        !(self is Unpoisoned)
    }

    pub fn is_poisoned(&self) -> (r: bool)
        ensures
            r == self.spec_is_poisoned(),
    {
        match self {
            PoisonState::Unpoisoned => false,
            _ => true,
        }
    }
}

/// The origin a poisoning of state `s` records: the origin of the
/// outstanding checkout when one is outstanding, and `fallback` (the
/// poisoning caller's own origin) otherwise.
pub open spec fn origin_after(s: PoisonState, fallback: Origin) -> Origin {
    if s is CheckedOut {
        s->CheckedOut_origin
    } else {
        fallback
    }
}

/// The state after a regular failure is reported against state `s`.
pub open spec fn poisoned_by_error(s: PoisonState, fallback: Origin, cause: Option<String>) -> PoisonState {
    PoisonState::PoisonedByError { origin: origin_after(s, fallback), cause }
}

/// The state after an abnormal unwind is observed against state `s`.
pub open spec fn poisoned_by_unwind(s: PoisonState, fallback: Origin, payload: Option<String>) -> PoisonState {
    PoisonState::PoisonedByUnwind { origin: origin_after(s, fallback), payload }
}

/// The state after a failed repair attempt against state `s`: the poison
/// tag is unchanged but the stored cause is replaced with the new one. An
/// abandoned checkout sentinel becomes an error poison under the checkout's
/// own origin; `fallback` is recorded only where no origin was stored.
pub open spec fn with_new_cause(s: PoisonState, fallback: Origin, cause: String) -> PoisonState {
    match s {
        PoisonState::PoisonedByUnwind { origin, .. } => PoisonState::PoisonedByUnwind {
            origin,
            payload: Some(cause),
        },
        PoisonState::PoisonedByError { origin, .. } => PoisonState::PoisonedByError {
            origin,
            cause: Some(cause),
        },
        PoisonState::CheckedOut { origin } => PoisonState::PoisonedByError {
            origin,
            cause: Some(cause),
        },
        PoisonState::Unpoisoned => PoisonState::PoisonedByError { origin: fallback, cause: Some(cause) },
    }
}

/// The state after an uneventful release: the checkout sentinel clears back
/// to `Unpoisoned`, while any explicit poison stays in place.
pub open spec fn cleared_if_checked_out(s: PoisonState) -> PoisonState {
    if s is CheckedOut {
        PoisonState::Unpoisoned
    } else {
        s
    }
}

fn clone_message(m: &Option<String>) -> (r: Option<String>)
    ensures
        r == *m,
{
    match m {
        Option::None => Option::None,
        Option::Some(s) => Option::Some(s.clone()),
    }
}

impl Clone for PoisonState {
    fn clone(&self) -> (r: Self)
        ensures
            r == *self,
    {
        match self {
            PoisonState::Unpoisoned => PoisonState::Unpoisoned,
            PoisonState::CheckedOut { origin } => PoisonState::CheckedOut { origin: *origin },
            PoisonState::PoisonedByUnwind { origin, payload } => PoisonState::PoisonedByUnwind {
                origin: *origin,
                payload: clone_message(payload),
            },
            PoisonState::PoisonedByError { origin, cause } => PoisonState::PoisonedByError {
                origin: *origin,
                cause: clone_message(cause),
            },
        }
    }
}

} // verus!
