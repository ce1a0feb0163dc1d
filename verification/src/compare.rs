//! A handle compares with a plain value as the value it holds does.

use crate::handle::SomeMut;
use core::cmp::Ordering;
use core::ops::Deref;
use vstd::prelude::*;
use vstd::std_specs::cmp::{PartialEqSpec, PartialEqSpecImpl, PartialOrdSpec, PartialOrdSpecImpl};

verus! {

impl<T: PartialEq> PartialEq<T> for SomeMut<'_, T> {
    /// Compares the value with `other`, by the value's own `eq`.
    fn eq(&self, other: &T) -> (same: bool)
        ensures
            call_ensures(T::eq, (&self.value(), other), same),
    {
        T::eq(self.deref(), other)
    }
}

impl<T: PartialEq> PartialEqSpecImpl<T> for SomeMut<'_, T> {
    open spec fn obeys_eq_spec() -> bool {
        T::obeys_eq_spec()
    }

    open spec fn eq_spec(&self, other: &T) -> bool {
        self.value().eq_spec(other)
    }
}

impl<T: PartialOrd> PartialOrd<T> for SomeMut<'_, T> {
    /// Orders the value against `other`, by the value's own `partial_cmp`.
    fn partial_cmp(&self, other: &T) -> (order: Option<Ordering>)
        ensures
            call_ensures(T::partial_cmp, (&self.value(), other), order),
    {
        T::partial_cmp(self.deref(), other)
    }
}

impl<T: PartialOrd> PartialOrdSpecImpl<T> for SomeMut<'_, T> {
    open spec fn obeys_partial_cmp_spec() -> bool {
        T::obeys_partial_cmp_spec()
    }

    open spec fn partial_cmp_spec(&self, other: &T) -> Option<Ordering> {
        self.value().partial_cmp_spec(other)
    }
}

/// Comparing a handle with `w` is comparing its value with `w`: every
/// outcome of the one is an outcome that the other can give, and where the
/// value's type keeps to its model of `==` and `<`, it is what the model says.
pub proof fn comparison_is_the_values_own<T: PartialOrd>(
    handle: SomeMut<T>,
    w: T,
    same: bool,
    order: Option<Ordering>,
)
    requires
        call_ensures(SomeMut::<T>::eq, (&handle, &w), same),
        call_ensures(SomeMut::<T>::partial_cmp, (&handle, &w), order),
    ensures
        call_ensures(T::eq, (&handle.value(), &w), same),
        call_ensures(T::partial_cmp, (&handle.value(), &w), order),
        T::obeys_eq_spec() ==> same == handle.value().eq_spec(&w),
        T::obeys_partial_cmp_spec() ==> order == handle.value().partial_cmp_spec(&w),
{
}

} // verus!
