//! Poisoning for shared mutable state, independent of any lock.
//!
//! A [`Poison<T>`] owns a value together with a tagged [`PoisonState`]. Access
//! goes through checkouts: a lenient checkout poisons only when the checkout
//! ends abnormally, a strict checkout poisons immediately and stays poisoned
//! until it is explicitly recovered. A checkout against an already poisoned
//! container yields a [`PoisonRecover`] handle whose recovery operations
//! produce a fresh guard. A [`PoisonScope`] extends one checkout across
//! several separately fallible steps.

mod error;
mod laws;
mod poison;
mod scope;
mod slot;
mod state;

pub use error::PoisonError;
pub use error::spec_decimal;
pub use error::spec_digit;
pub use error::spec_message;
pub use error::spec_origin_suffix;
pub use laws::lemma_failed_repair_replaces_cause;
pub use laws::lemma_fresh_container_yields_value;
pub use laws::lemma_lenient_release_unpoisons;
pub use laws::lemma_recover_handle_only_for_poisoned;
pub use laws::lemma_scope_failure_sticks;
pub use laws::lemma_scope_success_clears;
pub use laws::lemma_strict_release_stays_poisoned;
pub use laws::lemma_unwind_poison_keeps_checkout_origin;
pub use poison::Poison;
pub use poison::PoisonGuard;
pub use poison::PoisonRecover;
pub use scope::PoisonScope;
pub use scope::TryCatchUnwind;
pub use slot::InitSlot;
pub use slot::MaybeUninitSlot;
pub use slot::UnwoundSlot;
pub use state::Origin;
pub use state::PoisonState;
pub use state::cleared_if_checked_out;
pub use state::origin_after;
pub use state::poisoned_by_error;
pub use state::poisoned_by_unwind;
pub use state::with_new_cause;
