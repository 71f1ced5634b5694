use vstd::prelude::*;

verus! {

/// An error surfaced by the accessor layer.
///
/// The taxonomy is small: either text handed to a comment-setting call
/// cannot be represented as a C string, or the native library reported a
/// failure through a negative return code.  "No comment set" and "no name"
/// are not errors; the accessors normalize them to absent or empty results.
#[derive(Clone, Copy, Debug, PartialEq, Eq, Structural)]
pub enum H5Error {
    /// The supplied text cannot cross the C boundary: it holds an embedded
    /// terminator byte, or the returned bytes are not valid UTF-8.
    StringEncoding,
    /// The native library returned a negative status or identifier.
    LibraryFailure,
}

} // verus!
