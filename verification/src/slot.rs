//! The slot behind a late-initialised box, as a machine with two states.
//!
//! A slot is `None` while it is empty and `Some(v)` once it is filled with
//! `v`. It starts empty, and its only transition is [`fill`], which leads from
//! either state to the filled one. Nothing leads back to the empty state.

use vstd::prelude::*;

verus! {

/// The slot of a box that has just been made.
pub open spec fn empty_slot<T>() -> Option<T> {
    None
}

/// Whether `slot` holds a value.
pub open spec fn is_filled<T>(slot: Option<T>) -> bool {
    slot is Some
}

/// The value that a filled slot holds.
pub open spec fn stored<T>(slot: Option<T>) -> T
    recommends
        is_filled(slot),
{
    slot->0
}

/// The slot after `value` is put into it. What `slot` held before, if
/// anything, is gone.
pub open spec fn fill<T>(slot: Option<T>, value: T) -> Option<T> {
    Some(value)
}

/// A slot that was never filled holds nothing.
pub proof fn lemma_empty_slot_holds_nothing<T>()
    ensures
        !is_filled(empty_slot::<T>()),
{
}

/// Filling a slot, empty or not, leaves it filled, and the value read from it
/// is the value that was put in.
pub proof fn lemma_fill_then_read<T>(slot: Option<T>, value: T)
    ensures
        is_filled(fill(slot, value)),
        stored(fill(slot, value)) == value,
{
}

/// No step leads back to the empty state.
pub proof fn lemma_fill_never_empties<T>(slot: Option<T>, value: T)
    ensures
        fill(slot, value) != empty_slot::<T>(),
{
}

/// Filling twice: the slot is filled after either step, the value read at the
/// end is the second one, and the first has left no trace.
pub proof fn lemma_refill_keeps_last<T>(slot: Option<T>, first: T, second: T)
    ensures
        is_filled(fill(slot, first)),
        is_filled(fill(fill(slot, first), second)),
        stored(fill(fill(slot, first), second)) == second,
        fill(fill(slot, first), second) == fill(slot, second),
{
}

/// Writing through an exclusive borrow of the content. The borrow of a slot
/// filled with `value` starts out at `value`; a slot whose borrow ends at
/// `written` is filled and reads `written`; and a borrow that ends where it
/// started leaves the slot as it was.
pub proof fn lemma_borrow_writes_through<T>(slot: Option<T>, value: T, written: T)
    ensures
        stored(fill(slot, value)) == value,
        is_filled(fill(fill(slot, value), written)),
        stored(fill(fill(slot, value), written)) == written,
        fill(fill(slot, value), stored(fill(slot, value))) == fill(slot, value),
{
}

} // verus!
