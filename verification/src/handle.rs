use core::borrow::Borrow;
use core::ops::{Deref, DerefMut};
use vstd::prelude::*;

verus! {

/// An exclusive borrow of an `Option<T>` that holds a value for as long as the
/// handle exists.
///
/// A handle comes from [`crate::OptionExt::some_mut`] and from nowhere else.
/// It can be read and written like a `&mut T`, and it ends in one of four
/// ways: [`take`](SomeMut::take) empties the cell,
/// [`into_mut`](SomeMut::into_mut) and
/// [`into_option_mut`](SomeMut::into_option_mut) trade it for a plain
/// reference, and a drop leaves the cell as it stands.
pub struct SomeMut<'a, T>(&'a mut Option<T>);

impl<'a, T> SomeMut<'a, T> {
    /// The borrowed cell. `*h.slot()` is the cell as it stands now;
    /// `*final(h.slot())` is the cell as its owner finds it when the borrow ends.
    pub closed spec fn slot(self) -> &'a mut Option<T> {
        self.0
    }

    /// What every handle carries: the cell is occupied.
    #[verifier::type_invariant]
    pub open spec fn occupied(self) -> bool {
        *self.slot() is Some
    }

    /// The value that the cell holds now.
    pub open spec fn value(self) -> T {
        (*self.slot())->0
    }

    /// Binds a handle to a cell that was found occupied.
    pub(crate) fn bind(cell: &'a mut Option<T>) -> (handle: Self)
        requires
            *old(cell) is Some,
        ensures
            *handle.slot() == *old(cell),
            *final(handle.slot()) == *final(cell),
            has_resolved(handle) ==> *final(cell) == *old(cell),
    {
        SomeMut(cell)
    }

    /// Takes the value out of the cell, which is left `None`.
    pub fn take(self) -> (value: T)
        ensures
            *self.slot() == Some(value),
            *final(self.slot()) == None::<T>,
    {
        proof {
            use_type_invariant(&self);
        }
        let SomeMut(cell) = self;
        cell.take().unwrap()
    }

    /// Gives up the handle for a reference to the value, which lives as long
    /// as the borrow of the cell. The cell stays occupied, by whatever the
    /// reference holds in the end.
    pub fn into_mut(self) -> (value: &'a mut T)
        ensures
            *self.slot() == Some(*value),
            *final(self.slot()) == Some(*final(value)),
    {
        proof {
            use_type_invariant(&self);
        }
        let SomeMut(cell) = self;
        cell.as_mut().unwrap()
    }

    /// Gives up the handle for the reference to the cell itself. The cell is
    /// occupied when it is handed back; nothing keeps it so afterwards.
    pub fn into_option_mut(self) -> (cell: &'a mut Option<T>)
        ensures
            *cell == *self.slot(),
            *cell is Some,
            *final(cell) == *final(self.slot()),
    {
        proof {
            use_type_invariant(&self);
        }
        let SomeMut(cell) = self;
        cell
    }
}

/// A handle that is dropped leaves the cell as it stands at that moment, so
/// still occupied. The operations that hand out or change a handle say this
/// of the handle they leave behind; this says it of every handle, wherever
/// it has been moved to.
pub broadcast proof fn lemma_dropped_handle_keeps_cell<T>(handle: SomeMut<T>)
    ensures
        #[trigger] has_resolved(handle) ==> *final(handle.slot()) == *handle.slot(),
{
}

/// The value of a cell that is known to be occupied, for writing.
fn occupied_mut<T>(cell: &mut Option<T>) -> (value: &mut T)
    requires
        *old(cell) is Some,
    ensures
        *old(cell) == Some(*value),
        *final(cell) == Some(*final(value)),
    no_unwind
{
    match cell {
        Some(value) => value,
        None => unreached(),
    }
}

impl<T> Deref for SomeMut<'_, T> {
    type Target = T;

    /// Reads the value.
    fn deref(&self) -> (value: &T)
        ensures
            *self.slot() == Some(*value),
    {
        proof {
            use_type_invariant(self);
        }
        self.0.as_ref().unwrap()
    }
}

impl<T> DerefMut for SomeMut<'_, T> {
    /// Lends the value for writing. Whatever is written, the cell stays
    /// occupied, and the handle stays bound to the same cell: dropped after
    /// the write, it leaves the cell holding what was written.
    fn deref_mut(&mut self) -> (value: &mut T)
        ensures
            *old(self).slot() == Some(*value),
            *final(self).slot() == Some(*final(value)),
            *final(final(self).slot()) == *final(old(self).slot()),
            has_resolved(*final(self)) ==> *final(old(self).slot()) == Some(*final(value)),
    {
        proof {
            use_type_invariant(&*self);
        }
        occupied_mut(&mut *self.0)
    }
}

impl<T> AsRef<T> for SomeMut<'_, T> {
    /// Reads the value, as `deref` does.
    fn as_ref(&self) -> (value: &T)
        ensures
            *self.slot() == Some(*value),
    {
        self.deref()
    }
}

impl<T> AsMut<T> for SomeMut<'_, T> {
    /// Lends the value for writing, as `deref_mut` does.
    fn as_mut(&mut self) -> (value: &mut T)
        ensures
            *old(self).slot() == Some(*value),
            *final(self).slot() == Some(*final(value)),
            *final(final(self).slot()) == *final(old(self).slot()),
            has_resolved(*final(self)) ==> *final(old(self).slot()) == Some(*final(value)),
    {
        self.deref_mut()
    }
}

impl<T> Borrow<T> for SomeMut<'_, T> {
    /// Reads the value, as `deref` does.
    fn borrow(&self) -> (value: &T)
        ensures
            *self.slot() == Some::<T>(*value),
    {
        self.deref()
    }
}

} // verus!
