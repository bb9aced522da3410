//! How a transfer request is resolved against a source.
//!
//! A request may restrict the copy to a byte range; the source has a current
//! position and a measured length. Resolving gives the position the copy
//! starts at and the number of bytes it is expected to move: a requested
//! length larger than what the measured length says remains is clamped, not
//! rejected, matching "copy a file whose size may have changed since it was
//! measured".

use vstd::prelude::*;

use crate::handle::Source;
use crate::range::ByteRange;

verus! {

/// The position the copy starts reading at: the range's offset when given,
/// the source's current position otherwise.
pub open spec fn start_of(src: Source, range: Option<ByteRange>) -> int {
    match range {
        Some(r) => match r.offset {
            Some(o) => o as int,
            None => src.pos as int,
        },
        None => src.pos as int,
    }
}

/// How many bytes the measured length says remain from the start position.
pub open spec fn measured_remaining(src: Source, range: Option<ByteRange>) -> int {
    if src.reported_len > start_of(src, range) {
        src.reported_len - start_of(src, range)
    } else {
        0
    }
}

/// How many bytes the transfer is expected to move: the requested length,
/// clamped to what the measured length says remains; without a requested
/// length, everything the measured length says remains.
pub open spec fn target_of(src: Source, range: Option<ByteRange>) -> int {
    match range {
        Some(r) => match r.length {
            Some(m) => if m <= measured_remaining(src, range) {
                m as int
            } else {
                measured_remaining(src, range)
            },
            None => measured_remaining(src, range),
        },
        None => measured_remaining(src, range),
    }
}

/// Positions the source at the range's offset (when one is given) and
/// computes how many bytes the transfer is expected to move.
pub fn prepare(src: &mut Source, range: Option<ByteRange>) -> (target: u64)
    ensures
        final(src).same_content(old(src)),
        final(src).pos == start_of(*old(src), range),
        target == target_of(*old(src), range),
{
    match range {
        Some(r) => match r.offset {
            Some(o) => src.seek_to(o),
            None => {},
        },
        None => {},
    }
    let start = src.position();
    let reported = src.measured_len();
    let remaining: u64 = if reported > start {
        reported - start
    } else {
        0
    };
    match range {
        Some(r) => match r.length {
            Some(m) => if m <= remaining {
                m
            } else {
                remaining
            },
            None => remaining,
        },
        None => remaining,
    }
}

} // verus!
