//! A handle is shown as the value it holds.
//!
//! `fmt` hands the formatter on to the value's own `fmt`, so flags, width and
//! precision apply to the value as if it had been formatted directly.

use crate::handle::SomeMut;
use core::fmt;
use core::ops::Deref;
use vstd::prelude::*;

verus! {

/// `core::fmt::Formatter`, carried through to the value's own formatting and
/// never looked into.
#[verifier::external_type_specification]
#[verifier::external_body]
pub struct ExFormatter<'a>(core::fmt::Formatter<'a>);

/// `core::fmt::Error`, handed back as the value's own formatting returned it.
#[verifier::external_type_specification]
#[verifier::external_body]
pub struct ExFmtError(core::fmt::Error);

/// Calls `core::fmt::Display::fmt` on `value`. Nothing is claimed of what it
/// writes or returns: that is up to the value's type and to the formatter.
#[verifier::external_body]
fn write_display<T: fmt::Display>(value: &T, f: &mut fmt::Formatter<'_>) -> (written: fmt::Result) {
    fmt::Display::fmt(value, f)
}

/// Calls `core::fmt::Debug::fmt` on `value`. Nothing is claimed of what it
/// writes or returns: that is up to the value's type and to the formatter.
#[verifier::external_body]
fn write_debug<T: fmt::Debug>(value: &T, f: &mut fmt::Formatter<'_>) -> (written: fmt::Result) {
    fmt::Debug::fmt(value, f)
}

impl<T: fmt::Display> fmt::Display for SomeMut<'_, T> {
    /// Writes the value as its own `Display` does.
    fn fmt(&self, f: &mut fmt::Formatter<'_>) -> (written: fmt::Result) {
        write_display(self.deref(), f)
    }
}

impl<T: fmt::Debug> fmt::Debug for SomeMut<'_, T> {
    /// Writes the value as its own `Debug` does: no wrapper shows around it.
    fn fmt(&self, f: &mut fmt::Formatter<'_>) -> (written: fmt::Result) {
        write_debug(self.deref(), f)
    }
}

impl<T: fmt::Display> SomeMut<'_, T> {
    /// The value's `Display` text as a `String`. A formatter is opaque to
    /// contracts, so `fmt` cannot say what it writes; this says it of the
    /// text: it is a text that the value's own `to_string` can give.
    pub fn display_string(&self) -> (text: String)
        ensures
            vstd::string::to_string_from_display_ensures::<T>(&self.value(), text),
    {
        self.deref().to_string()
    }
}

} // verus!
