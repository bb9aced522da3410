//! The engine's guarantees, stated on their own.
//!
//! Each proof function here spells out one promise of the transfer engine
//! for every input the promise covers, over the outcome statements
//! ([`buffered_outcome`], [`accelerated_outcome`]) that the copy functions
//! ensure; together with those ensures the promises hold of every call.

use vstd::prelude::*;

use crate::accelerated::accelerated_outcome;
use crate::buffered::buffered_outcome;
use crate::error::TransferError;
use crate::handle::AccelSupport;
use crate::handle::Source;
use crate::handle::bytes_at;
use crate::plan::start_of;
use crate::plan::target_of;
use crate::progress::ProgressEvent;
use crate::progress::reports_monotone_from;
use crate::range::ByteRange;

verus! {

/// Copying the full range of a source whose measured length is accurate,
/// with any chunk size and any destination that accepts at least one byte
/// per write, succeeds, leaves the destination byte-for-byte identical to
/// the source, and (for a non-empty source) ends with a progress event
/// reporting every byte.
pub proof fn lemma_full_copy_identical(
    chunk: u64,
    src_data: Seq<u8>,
    max_per_write: int,
    log0: Seq<ProgressEvent>,
    src_pos1: int,
    dst1: Seq<u8>,
    log1: Seq<ProgressEvent>,
    r: Result<(), TransferError>,
)
    requires
        chunk >= 1,
        max_per_write >= 1,
        src_data.len() <= u64::MAX,
        buffered_outcome(
            chunk,
            0,
            src_data.len() as u64,
            src_data,
            0,
            false,
            Seq::<u8>::empty(),
            max_per_write,
            false,
            log0,
            src_pos1,
            dst1,
            log1,
            r,
        ),
    ensures
        r == Ok::<(), TransferError>(()),
        dst1 == src_data,
        src_data.len() > 0 ==> log1.len() > log0.len() && log1[log1.len() - 1] == (ProgressEvent {
            copied: src_data.len() as u64,
            total: src_data.len() as u64,
        }),
{
    if src_data.len() > 0 {
        assert(bytes_at(src_data, 0, src_data.len() as int) =~= src_data);
        assert(Seq::<u8>::empty() + src_data =~= src_data);
    } else {
        assert(dst1 =~= src_data);
    }
}

/// A zero-length request succeeds at once — whatever the handles would
/// have done — moving no bytes and recording no progress event.
pub proof fn lemma_zero_length_copy(
    chunk: u64,
    src_data: Seq<u8>,
    s: int,
    fail_reads: bool,
    dst0: Seq<u8>,
    max_per_write: int,
    fail_writes: bool,
    log0: Seq<ProgressEvent>,
    src_pos1: int,
    dst1: Seq<u8>,
    log1: Seq<ProgressEvent>,
    r: Result<(), TransferError>,
)
    requires
        buffered_outcome(
            chunk,
            0,
            0,
            src_data,
            s,
            fail_reads,
            dst0,
            max_per_write,
            fail_writes,
            log0,
            src_pos1,
            dst1,
            log1,
            r,
        ),
    ensures
        r == Ok::<(), TransferError>(()),
        dst1 == dst0,
        log1 == log0,
{
}

/// For a range `{offset: k, length: m}` with `k + m` within a source whose
/// measured length is accurate, the request resolves to exactly `m` bytes
/// from `k`, and the copy appends exactly `source[k .. k + m]` to the
/// destination.
pub proof fn lemma_subrange_copy(
    chunk: u64,
    src: Source,
    k: u64,
    m: u64,
    dst0: Seq<u8>,
    max_per_write: int,
    log0: Seq<ProgressEvent>,
    src_pos1: int,
    dst1: Seq<u8>,
    log1: Seq<ProgressEvent>,
    r: Result<(), TransferError>,
)
    requires
        src.reported_len == src.data@.len(),
        !src.fail_reads,
        max_per_write >= 1,
        k + m <= src.data@.len(),
        buffered_outcome(
            chunk,
            0,
            target_of(src, Some(ByteRange { offset: Some(k), length: Some(m) })) as u64,
            src.data@,
            start_of(src, Some(ByteRange { offset: Some(k), length: Some(m) })),
            src.fail_reads,
            dst0,
            max_per_write,
            false,
            log0,
            src_pos1,
            dst1,
            log1,
            r,
        ),
    ensures
        target_of(src, Some(ByteRange { offset: Some(k), length: Some(m) })) == m,
        r == Ok::<(), TransferError>(()),
        dst1 == dst0 + src.data@.subrange(k as int, k + m),
{
    let range = Some(ByteRange { offset: Some(k), length: Some(m) });
    assert(start_of(src, range) == k);
    assert(target_of(src, range) == m);
    if m > 0 {
        assert(bytes_at(src.data@, k as int, m as int) =~= src.data@.subrange(k as int, k + m));
    } else {
        assert(dst1 =~= dst0 + src.data@.subrange(k as int, k + m));
    }
}

/// A requested length that exceeds what the measured length says remains
/// is clamped, not rejected: the request resolves to the measured
/// remainder, and — when the measured length is accurate — the copy
/// succeeds with exactly the bytes from the offset to the end of the
/// source.
pub proof fn lemma_overlong_request_clamped(
    chunk: u64,
    src: Source,
    k: u64,
    m: u64,
    dst0: Seq<u8>,
    max_per_write: int,
    log0: Seq<ProgressEvent>,
    src_pos1: int,
    dst1: Seq<u8>,
    log1: Seq<ProgressEvent>,
    r: Result<(), TransferError>,
)
    requires
        src.reported_len == src.data@.len(),
        !src.fail_reads,
        max_per_write >= 1,
        k <= src.data@.len(),
        k + m > src.data@.len(),
        buffered_outcome(
            chunk,
            0,
            target_of(src, Some(ByteRange { offset: Some(k), length: Some(m) })) as u64,
            src.data@,
            start_of(src, Some(ByteRange { offset: Some(k), length: Some(m) })),
            src.fail_reads,
            dst0,
            max_per_write,
            false,
            log0,
            src_pos1,
            dst1,
            log1,
            r,
        ),
    ensures
        target_of(src, Some(ByteRange { offset: Some(k), length: Some(m) })) == src.data@.len()
            - k,
        r == Ok::<(), TransferError>(()),
        dst1 == dst0 + src.data@.subrange(k as int, src.data@.len() as int),
{
    let range = Some(ByteRange { offset: Some(k), length: Some(m) });
    let rem = src.data@.len() - k;
    assert(start_of(src, range) == k);
    assert(target_of(src, range) == rem);
    if rem > 0 {
        assert(bytes_at(src.data@, k as int, rem) =~= src.data@.subrange(
            k as int,
            src.data@.len() as int,
        ));
    } else {
        assert(dst1 =~= dst0 + src.data@.subrange(k as int, src.data@.len() as int));
    }
}

/// When the source shrank after its length was measured — fewer bytes are
/// actually readable than an unrestricted request resolves to — the copy
/// moves exactly the bytes that are still readable and then fails with
/// `TruncatedSource`; the last progress event, if any, reports exactly
/// those bytes.
pub proof fn lemma_shrunken_source_truncated(
    chunk: u64,
    src: Source,
    dst0: Seq<u8>,
    max_per_write: int,
    log0: Seq<ProgressEvent>,
    src_pos1: int,
    dst1: Seq<u8>,
    log1: Seq<ProgressEvent>,
    r: Result<(), TransferError>,
)
    requires
        src.pos == 0,
        src.reported_len > src.data@.len(),
        !src.fail_reads,
        max_per_write >= 1,
        buffered_outcome(
            chunk,
            0,
            target_of(src, None) as u64,
            src.data@,
            start_of(src, None),
            src.fail_reads,
            dst0,
            max_per_write,
            false,
            log0,
            src_pos1,
            dst1,
            log1,
            r,
        ),
    ensures
        r == Err::<(), TransferError>(TransferError::TruncatedSource),
        dst1 == dst0 + src.data@,
        src.data@.len() > 0 ==> log1.len() > log0.len() && log1[log1.len() - 1]
            == (ProgressEvent {
            copied: src.data@.len() as u64,
            total: target_of(src, None) as u64,
        }),
{
    assert(start_of(src, None) == 0);
    assert(target_of(src, None) == src.reported_len);
    if src.data@.len() > 0 {
        assert(bytes_at(src.data@, 0, src.data@.len() as int) =~= src.data@);
    } else {
        assert(dst1 =~= dst0 + src.data@);
    }
}

/// An accelerated path that gives up as unsupported after any number of
/// bytes `p` still yields a complete, byte-identical copy of a source
/// whose measured length is accurate: the buffered fallback finishes the
/// remainder, the progress events never double-count the first `p` bytes
/// (they are non-decreasing and never overstate the total), and the last
/// event reports every byte.
pub proof fn lemma_unsupported_path_falls_back(
    chunk: u64,
    src_data: Seq<u8>,
    p: u64,
    max_per_write: int,
    log0: Seq<ProgressEvent>,
    src_pos1: int,
    dst1: Seq<u8>,
    log1: Seq<ProgressEvent>,
    r: Result<(), TransferError>,
)
    requires
        chunk >= 1,
        max_per_write >= 1,
        src_data.len() <= u64::MAX,
        accelerated_outcome(
            chunk,
            src_data.len() as u64,
            src_data,
            0,
            false,
            Seq::<u8>::empty(),
            max_per_write,
            false,
            AccelSupport::UnsupportedAfter(p),
            log0,
            src_pos1,
            dst1,
            log1,
            r,
        ),
    ensures
        r == Ok::<(), TransferError>(()),
        dst1 == src_data,
        reports_monotone_from(log1, log0.len() as int, src_data.len() as u64),
        src_data.len() > 0 ==> log1.len() > log0.len() && log1[log1.len() - 1] == (ProgressEvent {
            copied: src_data.len() as u64,
            total: src_data.len() as u64,
        }),
{
    let len = src_data.len() as int;
    if len == 0 {
        assert(dst1 =~= src_data);
    } else if len <= p {
        assert(bytes_at(src_data, 0, len) =~= src_data);
        assert(Seq::<u8>::empty() + src_data =~= src_data);
    } else {
        assert(dst1 =~= src_data);
    }
}

/// Across one buffered transfer the recorded progress events are
/// monotonically non-decreasing in bytes copied, never overstate the
/// total, and on a successful transfer of anything at all the final event
/// reports the whole total.
pub proof fn lemma_progress_monotone(
    chunk: u64,
    base: u64,
    total: u64,
    src_data: Seq<u8>,
    s: int,
    fail_reads: bool,
    dst0: Seq<u8>,
    max_per_write: int,
    fail_writes: bool,
    log0: Seq<ProgressEvent>,
    src_pos1: int,
    dst1: Seq<u8>,
    log1: Seq<ProgressEvent>,
    r: Result<(), TransferError>,
)
    requires
        buffered_outcome(
            chunk,
            base,
            total,
            src_data,
            s,
            fail_reads,
            dst0,
            max_per_write,
            fail_writes,
            log0,
            src_pos1,
            dst1,
            log1,
            r,
        ),
    ensures
        log1.len() >= log0.len(),
        log1.subrange(0, log0.len() as int) == log0,
        reports_monotone_from(log1, log0.len() as int, total),
        r == Ok::<(), TransferError>(()) && base < total ==> log1.len() > log0.len()
            && log1[log1.len() - 1].copied == total,
{
}

} // verus!
