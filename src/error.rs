use vstd::prelude::*;

verus! {

/// The ways an operation on a key store can fail.
#[derive(Debug, Clone, Copy, PartialEq, Eq, Structural)]
pub enum Error {
    /// No entry is stored under the requested name.
    NotFound,
    /// An entry is already stored under the name; it must be deleted first.
    AlreadyExists,
    /// The stored bytes do not have the requested length, or could not be decoded.
    LengthOrFormatMismatch,
    /// A failure reported by a platform store, with its status code.
    Platform(i32),
}

} // verus!
