//! Errors.

use vstd::prelude::*;

verus! {

/// Error type of the library.
#[derive(Debug)]
pub enum Error {
    /// A delay is too long to be added to a date.
    ChronoRange(chrono::OutOfRangeError),
}

/// Result type of the library.
pub type Result<T> = std::result::Result<T, Error>;

} // verus!
