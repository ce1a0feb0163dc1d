use crate::handle::SomeMut;
use crate::sealed::Sealed;
use vstd::prelude::*;

verus! {

/// Lets a cell hand out a [`SomeMut`].
///
/// The trait is sealed: `Option<T>` implements it, and nothing outside this
/// crate can. A handle therefore always comes from the one look at the cell
/// that `some_mut` takes.
pub trait OptionExt<T>: Sealed {
    /// What the cell holds.
    spec fn contents(&self) -> Option<T>;

    /// Looks at the cell. An occupied cell gives a handle bound to it, an
    /// empty one gives nothing. The cell is left as it was: it changes only
    /// by what is then done through the handle, and a handle that is dropped
    /// as it came leaves it unchanged.
    fn some_mut(&mut self) -> (handle: Option<SomeMut<'_, T>>)
        ensures
            handle is Some <==> old(self).contents() is Some,
            handle matches Some(h) ==> *h.slot() == old(self).contents(),
            handle matches Some(h) ==> *final(h.slot()) == final(self).contents(),
            handle matches Some(h) && has_resolved(h) ==> final(self).contents() == old(self).contents(),
            handle is None ==> final(self).contents() == old(self).contents(),
    ;
}

impl<T> OptionExt<T> for Option<T> {
    open spec fn contents(&self) -> Option<T> {
        *self
    }

    fn some_mut(&mut self) -> (handle: Option<SomeMut<'_, T>>) {
        match self {
            x @ Some(_) => Some(SomeMut::bind(x)),
            None => None,
        }
    }
}

} // verus!
