//! The optional byte range restricting one transfer.

use vstd::prelude::*;

verus! {

/// Restricts a copy to a sub-region of the source. `offset` is the starting
/// byte position to read from; when absent the source's current position is
/// used. `length` bounds the number of bytes to copy; when absent the copy
/// runs until the end of the source. Immutable for the duration of one call.
#[derive(Clone, Copy, Debug, PartialEq, Eq, Structural)]
pub struct ByteRange {
    /// Starting byte position in the source, if restricted.
    pub offset: Option<u64>,
    /// Upper bound on the number of bytes to copy, if restricted.
    pub length: Option<u64>,
}

impl ByteRange {
    /// A range that restricts nothing: start at the current position and
    /// copy until the end of the source.
    pub fn unrestricted() -> (r: ByteRange)
        ensures
            r.offset is None,
            r.length is None,
    {
        ByteRange { offset: None, length: None }
    }

    /// A range that starts at `offset` and copies at most `length` bytes.
    pub fn at(offset: u64, length: u64) -> (r: ByteRange)
        ensures
            r.offset == Some(offset),
            r.length == Some(length),
    {
        ByteRange { offset: Some(offset), length: Some(length) }
    }

    /// A range bounded in length only, read from the current position.
    pub fn first(length: u64) -> (r: ByteRange)
        ensures
            r.offset is None,
            r.length == Some(length),
    {
        ByteRange { offset: None, length: Some(length) }
    }
}

} // verus!
