//! A handle on an `Option` that is known to hold a value.
//!
//! Code that is entered again and again often has to ask whether a cell
//! holds a pending value long before it may consume that value. Asking twice
//! is wasteful, and unwrapping without asking is one slip away from a panic.
//! [`OptionExt::some_mut`] asks once: on an occupied cell it hands out a
//! [`SomeMut`], and every operation of a `SomeMut` is total. The value can be
//! read, changed in place, and taken out of the cell without a second look.
//!
//! ```
//! use some_mut::OptionExt;
//!
//! let mut pending = Some(String::from("job"));
//! let mut done = Vec::new();
//! for round in 0..3 {
//!     if let Some(mut job) = pending.some_mut() {
//!         job.push('!');
//!         if round == 1 {
//!             done.push(job.take());
//!         }
//!     }
//! }
//! assert_eq!(pending, None);
//! assert_eq!(done, ["job!!"]);
//! ```
//!
//! A handle borrows its cell exclusively, so nothing else can empty the cell
//! while the handle lives: the borrow checker turns down a second `some_mut`
//! on a cell whose handle is still in use. That the cell is occupied is the
//! type invariant of [`SomeMut`], and each operation is proved against it.

mod sealed;

pub mod compare;
pub mod handle;
pub mod laws;
pub mod option_ext;
pub mod render;

pub use handle::SomeMut;
pub use option_ext::OptionExt;
