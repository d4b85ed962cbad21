//! Laws of the poison state machine: what the release, poisoning and repair
//! transitions guarantee across whole checkouts, stated over the spec
//! transitions that the executable protocol is proved against.

use vstd::prelude::*;

use crate::poison::Poison;
use crate::poison::PoisonRecover;
use crate::state::Origin;
use crate::state::PoisonState;
use crate::state::cleared_if_checked_out;
use crate::state::poisoned_by_error;
use crate::state::poisoned_by_unwind;
use crate::state::with_new_cause;

verus! {

/// A fresh container built from any value is unpoisoned and yields that
/// value unchanged on inspection: the state a construction establishes
/// blocks no access.
pub proof fn lemma_fresh_container_yields_value<T>(p: &Poison<T>, v: T)
    requires
        p.spec_state() is Unpoisoned,
        p.spec_value() == v,
    ensures
        !p.spec_state().spec_is_poisoned(),
        p.spec_value() == v,
{
}

/// A lenient checkout that is released normally leaves the container
/// unpoisoned: the sentinel the checkout set is exactly what an uneventful
/// release clears.
pub proof fn lemma_lenient_release_unpoisons(origin: Origin)
    ensures
        cleared_if_checked_out(PoisonState::CheckedOut { origin }) == PoisonState::Unpoisoned,
{
}

/// A checkout whose guard is released during an unwind leaves the container
/// poisoned by that unwind, and the origin recorded is the checkout's own,
/// whatever fallback origin the release site supplies.
pub proof fn lemma_unwind_poison_keeps_checkout_origin(
    origin: Origin,
    fallback: Origin,
    payload: Option<String>,
)
    ensures
        poisoned_by_unwind(PoisonState::CheckedOut { origin }, fallback, payload)
            == (PoisonState::PoisonedByUnwind { origin, payload }),
        poisoned_by_unwind(
            PoisonState::CheckedOut { origin },
            fallback,
            payload,
        ).spec_is_poisoned(),
{
}

/// A strict checkout poisons from the start, and a normal release without an
/// explicit recovery changes nothing: the container remains poisoned.
pub proof fn lemma_strict_release_stays_poisoned(origin: Origin, cause: Option<String>)
    ensures
        cleared_if_checked_out(PoisonState::PoisonedByError { origin, cause })
            == (PoisonState::PoisonedByError { origin, cause }),
        cleared_if_checked_out(
            PoisonState::PoisonedByError { origin, cause },
        ).spec_is_poisoned(),
{
}

/// A failed repair leaves the container poisoned with the new cause: the
/// poison tag survives, the stored cause is the one the repair reported,
/// and the origin already on record survives with it.
pub proof fn lemma_failed_repair_replaces_cause(s: PoisonState, fallback: Origin, cause: String)
    requires
        s.spec_is_poisoned(),
    ensures
        with_new_cause(s, fallback, cause).spec_is_poisoned(),
        (with_new_cause(s, fallback, cause) is PoisonedByUnwind) == (s is PoisonedByUnwind),
        s matches PoisonState::PoisonedByError { origin, .. } ==> with_new_cause(s, fallback, cause)
            == (PoisonState::PoisonedByError { origin, cause: Some(cause) }),
        s matches PoisonState::PoisonedByUnwind { origin, .. } ==> with_new_cause(
            s,
            fallback,
            cause,
        ) == (PoisonState::PoisonedByUnwind { origin, payload: Some(cause) }),
        s matches PoisonState::CheckedOut { origin } ==> with_new_cause(s, fallback, cause)
            == (PoisonState::PoisonedByError { origin, cause: Some(cause) }),
{
}

/// One failed step decides a whole scope. A step that fails captures its
/// cause in the shadow under the checkout's origin; the captured failure is
/// not the sentinel, so no later step runs; and closing the scope preserves
/// that failure as the container's poison.
pub proof fn lemma_scope_failure_sticks(origin: Origin, cause: String)
    ensures
        poisoned_by_error(PoisonState::CheckedOut { origin }, origin, Some(cause))
            == (PoisonState::PoisonedByError { origin, cause: Some(cause) }),
        !((PoisonState::PoisonedByError { origin, cause: Some(cause) }) is CheckedOut),
        cleared_if_checked_out(PoisonState::PoisonedByError { origin, cause: Some(cause) })
            == (PoisonState::PoisonedByError { origin, cause: Some(cause) }),
        cleared_if_checked_out(
            PoisonState::PoisonedByError { origin, cause: Some(cause) },
        ).spec_is_poisoned(),
{
}

/// A scope in which every step succeeds closes clean: a succeeding step
/// leaves the shadow at the sentinel, and closing a scope whose shadow is
/// still the sentinel leaves the container unpoisoned.
pub proof fn lemma_scope_success_clears(origin: Origin)
    ensures
        cleared_if_checked_out(PoisonState::CheckedOut { origin }) == PoisonState::Unpoisoned,
        !cleared_if_checked_out(PoisonState::CheckedOut { origin }).spec_is_poisoned(),
{
}

/// A recovery handle only exists for a poisoned container, so recovering an
/// already unpoisoned value is impossible by construction: every checkout
/// yields a handle exactly when it finds poison, and every handle carries
/// poisoned state.
pub proof fn lemma_recover_handle_only_for_poisoned<T>(h: &PoisonRecover<T>)
    requires
        h.wf(),
    ensures
        h.spec_state().spec_is_poisoned(),
{
}

} // verus!
