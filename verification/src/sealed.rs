use vstd::prelude::*;

verus! {

/// Closes [`crate::OptionExt`]: only types of this crate can implement it.
pub trait Sealed {

}

impl<T> Sealed for Option<T> {

}

} // verus!
