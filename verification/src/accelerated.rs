//! The platform-accelerated transfer strategy.
//!
//! The accelerated path — an in-kernel copy that never round-trips the
//! bytes through a caller-owned buffer — is attempted first, once per call.
//! When it reports that this pair of handles is unsupported, the remainder
//! of the transfer transparently resumes with the buffered strategy,
//! continuing the progress counters from exactly the bytes the fast path
//! confirmed: the transfer never restarts from zero, never counts a byte
//! twice, and never reports a byte the kernel did not confirm. An actual
//! I/O error on the fast path is fatal, not a fallback trigger.

use vstd::prelude::*;

use crate::buffered::Copier;
use crate::buffered::buffered_outcome;
use crate::buffered::stream_chunks;
use crate::error::Phase;
use crate::error::TransferError;
use crate::handle::AccelOutcome;
use crate::handle::AccelSupport;
use crate::handle::Sink;
use crate::handle::Source;
use crate::handle::bytes_at;
use crate::plan::prepare;
use crate::plan::start_of;
use crate::plan::target_of;
use crate::progress::ProgressEvent;
use crate::progress::ProgressLog;
use crate::progress::reports_monotone_from;
use crate::range::ByteRange;

verus! {

/// The progress events after one report of `done` out of `total` bytes;
/// nothing is reported when nothing was confirmed.
pub open spec fn log_after(
    log0: Seq<ProgressEvent>,
    done: u64,
    total: u64,
) -> Seq<ProgressEvent> {
    if done > 0 {
        log0.push(ProgressEvent { copied: done, total })
    } else {
        log0
    }
}

/// What a transfer finished entirely by the accelerated path leaves
/// behind: when everything readable sufficed, the destination received
/// exactly the `total` requested bytes and the one recorded event reports
/// them all; when the source held fewer bytes than its measured length
/// promised, exactly those bytes arrived and the transfer aborts as
/// truncated.
pub open spec fn accel_fast_done(
    total: u64,
    src_data: Seq<u8>,
    s: int,
    dst0: Seq<u8>,
    log0: Seq<ProgressEvent>,
    src_pos1: int,
    dst1: Seq<u8>,
    log1: Seq<ProgressEvent>,
    r: Result<(), TransferError>,
) -> bool {
    let a = if 0 <= s < src_data.len() {
        src_data.len() - s
    } else {
        0
    };
    if total <= a {
        &&& r == Ok::<(), TransferError>(())
        &&& dst1 == dst0 + bytes_at(src_data, s, total as int)
        &&& src_pos1 == s + total
        &&& log1 == log_after(log0, total, total)
    } else {
        &&& r == Err::<(), TransferError>(TransferError::TruncatedSource)
        &&& dst1 == dst0 + bytes_at(src_data, s, a)
        &&& src_pos1 == s + a
        &&& log1 == log_after(log0, a as u64, total)
    }
}

/// What one accelerated-strategy transfer does, stated over plain values;
/// the parameters read as in [`buffered_outcome`], plus the accelerated
/// path's behaviour `accel` for this pair of handles.
///
/// - The recorded events are only ever appended to, report `total` as
///   their total, never overstate it, and are monotonically non-decreasing
///   — no byte is counted twice across the fallback boundary.
/// - A transfer asked for nothing succeeds at once, moving and recording
///   nothing, whatever the fast path would have done.
/// - When the fast path supports the whole transfer, the destination
///   receives exactly the requested bytes (or the transfer aborts as
///   truncated where the measured length overstated the source).
/// - When the fast path reports `unsupported` after moving `p` bytes,
///   those `p` bytes are reported once, and the buffered strategy finishes
///   the remainder from exactly byte `p`, with every outcome
///   [`buffered_outcome`] allows for that remainder.
/// - When the fast path reports an actual I/O error after `q` confirmed
///   bytes, those bytes were received and reported, and the transfer
///   aborts with `IoFailure(AcceleratedCopy)`.
pub open spec fn accelerated_outcome(
    chunk: u64,
    total: u64,
    src_data: Seq<u8>,
    s: int,
    fail_reads: bool,
    dst0: Seq<u8>,
    max_per_write: int,
    fail_writes: bool,
    accel: AccelSupport,
    log0: Seq<ProgressEvent>,
    src_pos1: int,
    dst1: Seq<u8>,
    log1: Seq<ProgressEvent>,
    r: Result<(), TransferError>,
) -> bool {
    let a = if 0 <= s < src_data.len() {
        src_data.len() - s
    } else {
        0
    };
    let c1 = if total <= a {
        total as int
    } else {
        a
    };
    &&& log1.len() >= log0.len()
    &&& log1.subrange(0, log0.len() as int) == log0
    &&& reports_monotone_from(log1, log0.len() as int, total)
    &&& if total == 0 {
        &&& r == Ok::<(), TransferError>(())
        &&& dst1 == dst0
        &&& log1 == log0
        &&& src_pos1 == s
    } else {
        match accel {
            AccelSupport::Full => accel_fast_done(
                total,
                src_data,
                s,
                dst0,
                log0,
                src_pos1,
                dst1,
                log1,
                r,
            ),
            AccelSupport::UnsupportedAfter(p) => if c1 <= p {
                accel_fast_done(total, src_data, s, dst0, log0, src_pos1, dst1, log1, r)
            } else {
                buffered_outcome(
                    chunk,
                    p,
                    total,
                    src_data,
                    s + p,
                    fail_reads,
                    dst0 + bytes_at(src_data, s, p as int),
                    max_per_write,
                    fail_writes,
                    log_after(log0, p, total),
                    src_pos1,
                    dst1,
                    log1,
                    r,
                )
            },
            AccelSupport::ErrorAfter(q) => if c1 <= q {
                accel_fast_done(total, src_data, s, dst0, log0, src_pos1, dst1, log1, r)
            } else {
                &&& r == Err::<(), TransferError>(TransferError::IoFailure(Phase::AcceleratedCopy))
                &&& dst1 == dst0 + bytes_at(src_data, s, q as int)
                &&& src_pos1 == s + q
                &&& log1 == log_after(log0, q, total)
            },
        }
    }
}

/// The accelerated copier: tries the platform's in-kernel copy first and
/// transparently falls back to the buffered strategy — with this chunk
/// size — when the fast path is unsupported for the pair of handles.
pub struct AcceleratedCopier {
    fallback: Copier,
}

impl AcceleratedCopier {
    /// The buffer capacity the buffered fallback reads and writes with.
    pub closed spec fn chunk(&self) -> u64 {
        self.fallback.chunk()
    }

    /// A copier with the given fallback buffer capacity; a zero chunk size
    /// is invalid and is rejected here, at construction, never at first
    /// use.
    pub fn new(chunk_size: u64) -> (r: Result<AcceleratedCopier, TransferError>)
        ensures
            chunk_size >= 1 ==> (r matches Ok(c) && c.chunk() == chunk_size),
            chunk_size == 0 ==> r == Err::<AcceleratedCopier, TransferError>(
                TransferError::InvalidConfiguration,
            ),
    {
        match Copier::new(chunk_size) {
            Ok(c) => Ok(AcceleratedCopier { fallback: c }),
            Err(e) => Err(e),
        }
    }

    /// Copies the requested byte range of the source to the destination,
    /// attempting the accelerated path first and finishing with the
    /// buffered strategy when that path is unsupported for this pair. See
    /// [`accelerated_outcome`] for the full statement.
    pub fn copy(
        &self,
        src: &mut Source,
        dst: &mut Sink,
        range: Option<ByteRange>,
        log: &mut ProgressLog,
    ) -> (r: Result<(), TransferError>)
        ensures
            final(src).same_content(old(src)),
            final(dst).same_config(old(dst)),
            accelerated_outcome(
                self.chunk(),
                target_of(*old(src), range) as u64,
                old(src).data@,
                start_of(*old(src), range),
                old(src).fail_reads,
                old(dst).data@,
                old(dst).max_per_write as int,
                old(dst).fail_writes,
                old(dst).accel,
                old(log)@,
                final(src).pos as int,
                final(dst).data@,
                final(log)@,
                r,
            ),
    {
        let total = prepare(src, range);
        let ghost log0 = log@;
        if total == 0 {
            proof {
                assert(log@.subrange(0, log0.len() as int) =~= log0);
            }
            return Ok(());
        }
        match dst.accelerated_from(src, total) {
            AccelOutcome::Copied(c) => {
                if c == total {
                    log.record(total, total);
                    proof {
                        assert(log@.subrange(0, log0.len() as int) =~= log0);
                    }
                    Ok(())
                } else {
                    if c > 0 {
                        log.record(c, total);
                    }
                    proof {
                        assert(log@.subrange(0, log0.len() as int) =~= log0);
                    }
                    Err(TransferError::TruncatedSource)
                }
            },
            AccelOutcome::Failed(q) => {
                if q > 0 {
                    log.record(q, total);
                }
                proof {
                    assert(log@.subrange(0, log0.len() as int) =~= log0);
                }
                Err(TransferError::IoFailure(Phase::AcceleratedCopy))
            },
            AccelOutcome::Unsupported(p) => {
                if p > 0 {
                    log.record(p, total);
                }
                let ghost mid_log = log@;
                let chunk = self.fallback.chunk_size();
                let r = stream_chunks(chunk, p, total, src, dst, log);
                proof {
                    assert(log@.subrange(0, log0.len() as int) =~= log0);
                    assert forall|i: int|
                        log0.len() <= i < log@.len() implies (#[trigger] log@[i]).total == total
                        && log@[i].copied <= total by {
                        if i < mid_log.len() {
                            assert(log@[i] == mid_log[i]);
                        }
                    };
                    assert forall|i: int, j: int|
                        log0.len() <= i <= j < log@.len() implies (#[trigger] log@[i]).copied
                        <= (#[trigger] log@[j]).copied by {
                        if i < mid_log.len() {
                            assert(log@[i] == mid_log[i]);
                        }
                    };
                }
                r
            },
        }
    }
}

} // verus!
