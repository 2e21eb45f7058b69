//! The one recoverable error of the library: a failed native call, carrying
//! the platform's last-error code.

use vstd::prelude::*;

verus! {

/// A native call signalled failure; `code` is the platform's last-error
/// value queried right after the call.
#[derive(Clone, Copy, Debug, PartialEq, Eq, Structural)]
pub struct OsError {
    pub code: u32,
}

impl OsError {
    /// Wraps a raw last-error code.
    pub fn new(code: u32) -> (e: OsError)
        ensures
            e.code == code,
    {
        OsError { code }
    }

    /// The raw platform error code.
    pub fn code(&self) -> (c: u32)
        ensures
            c == self.code,
    {
        self.code
    }
}

} // verus!
