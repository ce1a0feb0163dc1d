//! What holds of every use of a handle, whatever the cell holds.
//!
//! Each statement speaks of calls by their outcome: `acquires(cell, handle)`
//! says that `handle` is a result that `cell.some_mut()` can give, and so on
//! for the others. A `&mut` stands for the borrow: `*old(r)` is what it points
//! to when the call is made, `*final(r)` what it points to when the borrow ends.

use crate::handle::SomeMut;
use crate::option_ext::OptionExt;
use core::ops::{Deref, DerefMut};
use vstd::prelude::*;

verus! {

/// `cell.some_mut()` can return `handle`.
pub open spec fn acquires<T>(cell: &mut Option<T>, handle: Option<SomeMut<T>>) -> bool {
    call_ensures(<Option<T> as OptionExt<T>>::some_mut, (cell,), handle)
}

/// Reading through `handle` can give `seen`.
pub open spec fn reads<T>(handle: SomeMut<T>, seen: &T) -> bool {
    call_ensures(<SomeMut<T> as Deref>::deref, (&handle,), seen)
}

/// `handle.deref_mut()` can give `place`.
pub open spec fn lends<T>(handle: &mut SomeMut<T>, place: &mut T) -> bool {
    call_ensures(<SomeMut<T> as DerefMut>::deref_mut, (handle,), place)
}

/// `handle.take()` can return `taken`.
pub open spec fn takes<T>(handle: SomeMut<T>, taken: T) -> bool {
    call_ensures(SomeMut::<T>::take, (handle,), taken)
}

/// `handle.into_mut()` can return `place`.
pub open spec fn narrows<T>(handle: SomeMut<T>, place: &mut T) -> bool {
    call_ensures(SomeMut::<T>::into_mut, (handle,), place)
}

/// `handle.into_option_mut()` can return `cell`.
pub open spec fn releases<T>(handle: SomeMut<T>, cell: &mut Option<T>) -> bool {
    call_ensures(SomeMut::<T>::into_option_mut, (handle,), cell)
}

/// An empty cell gives no handle, and stays empty.
pub proof fn acquire_on_empty_gives_nothing<T>(cell: &mut Option<T>, handle: Option<SomeMut<T>>)
    requires
        *old(cell) is None,
        acquires(cell, handle),
    ensures
        handle is None,
        *final(cell) is None,
{
}

/// An occupied cell gives a handle, and a read through it gives the value
/// that the cell holds.
pub proof fn acquire_on_occupied_gives_value<T>(
    cell: &mut Option<T>,
    v: T,
    handle: Option<SomeMut<T>>,
    seen: &T,
)
    requires
        *old(cell) == Some(v),
        acquires(cell, handle),
        reads(handle->0, seen),
    ensures
        handle is Some,
        handle->0.occupied(),
        *seen == v,
{
}

/// A handle that is dropped as it came leaves the cell as it was.
pub proof fn drop_keeps_cell<T>(cell: &mut Option<T>, v: T, handle: Option<SomeMut<T>>)
    requires
        *old(cell) == Some(v),
        acquires(cell, handle),
        has_resolved(handle->0),
    ensures
        handle is Some,
        *final(cell) == Some(v),
{
}

/// Taking through a handle on an occupied cell returns the value and
/// leaves the cell empty: the next look at the cell gives no handle.
pub proof fn take_empties_cell<T>(
    cell: &mut Option<T>,
    v: T,
    handle: Option<SomeMut<T>>,
    taken: T,
    cell_after: &mut Option<T>,
    next: Option<SomeMut<T>>,
)
    requires
        *old(cell) == Some(v),
        acquires(cell, handle),
        takes(handle->0, taken),
        *old(cell_after) == *final(cell),
        acquires(cell_after, next),
    ensures
        handle is Some,
        taken == v,
        *final(cell) is None,
        next is None,
{
}

/// Whatever is written through a handle, the cell stays occupied, and the
/// same handle then reads what was written.
pub proof fn write_keeps_cell_occupied<T>(handle: &mut SomeMut<T>, place: &mut T, seen: &T)
    requires
        lends(handle, place),
        reads(*final(handle), seen),
    ensures
        *final(handle).slot() == Some(*final(place)),
        final(handle).occupied(),
        *seen == *final(place),
{
}

/// After a write through a handle that is then dropped, the cell is occupied
/// by what was written: a new handle on it reads that value.
pub proof fn write_is_seen_by_next_handle<T>(
    handle: &mut SomeMut<T>,
    place: &mut T,
    cell_after: &mut Option<T>,
    next: Option<SomeMut<T>>,
    seen: &T,
)
    requires
        lends(handle, place),
        has_resolved(*final(handle)),
        *old(cell_after) == *final(old(handle).slot()),
        acquires(cell_after, next),
        reads(next->0, seen),
    ensures
        *old(cell_after) == Some(*final(place)),
        next is Some,
        *seen == *final(place),
{
}

/// Giving up a handle for a reference to the value leaves the cell occupied:
/// the reference starts at the value, and the cell ends with whatever the
/// reference holds in the end.
pub proof fn into_mut_keeps_cell_occupied<T>(
    cell: &mut Option<T>,
    v: T,
    handle: Option<SomeMut<T>>,
    place: &mut T,
)
    requires
        *old(cell) == Some(v),
        acquires(cell, handle),
        narrows(handle->0, place),
    ensures
        *old(place) == v,
        *final(cell) == Some(*final(place)),
{
}

/// Giving up a handle for the reference to the cell and looking at the cell
/// again at once gives a handle on the same cell with the same value.
pub proof fn into_option_mut_round_trips<T>(
    handle: SomeMut<T>,
    cell: &mut Option<T>,
    next: Option<SomeMut<T>>,
)
    requires
        releases(handle, cell),
        acquires(cell, next),
    ensures
        next is Some,
        next->0.value() == handle.value(),
        *next->0.slot() == *handle.slot(),
        *final(next->0.slot()) == *final(handle.slot()),
{
}

} // verus!
