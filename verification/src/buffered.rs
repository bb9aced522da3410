//! The portable buffered transfer strategy.
//!
//! One scratch chunk at a time is read from the source and written — whole,
//! across short writes — to the destination, with one progress event
//! recorded per completed chunk. The streaming pass is shared with the
//! accelerated strategy, which uses it to finish a transfer the fast path
//! gave up on; the `base` argument carries the bytes that earlier pass had
//! already confirmed, so progress never restarts from zero.

use vstd::prelude::*;

use crate::error::Phase;
use crate::error::TransferError;
use crate::handle::Sink;
use crate::handle::Source;
use crate::handle::bytes_at;
use crate::plan::prepare;
use crate::plan::start_of;
use crate::plan::target_of;
use crate::progress::ProgressEvent;
use crate::progress::ProgressLog;
use crate::progress::reports_monotone_from;
use crate::range::ByteRange;

verus! {

/// How many times a write that accepted zero bytes is retried before the
/// transfer fails with `PartialWrite`.
pub const SHORT_WRITE_RETRIES: u64 = 8;

/// How many bytes the first read of a buffered pass returns: the chunk
/// size, bounded by the bytes still wanted and the bytes actually readable
/// at position `s`.
pub open spec fn first_read_len(chunk: u64, amount: int, src_data: Seq<u8>, s: int) -> int {
    let a = if 0 <= s < src_data.len() {
        src_data.len() - s
    } else {
        0
    };
    let w = if chunk <= amount {
        chunk as int
    } else {
        amount
    };
    if w <= a {
        w
    } else {
        a
    }
}

/// What one buffered streaming pass does, stated over plain values.
///
/// The pass starts with the source at position `s` of content `src_data`,
/// with `dst0`/`log0` the destination bytes and progress events already
/// present, and is to move bytes `s .. s + (total - base)` of the source,
/// recording progress events whose `copied` runs from above `base` up to
/// `total`. `src_pos1`, `dst1`, `log1` are source position, destination
/// bytes and events after the pass, and `r` its result:
///
/// - the recorded events are only ever appended to, report `total` as their
///   total, never claim fewer than `base` or more than `total` bytes, and
///   are monotonically non-decreasing;
/// - a pass asked for nothing succeeds at once, moving and recording
///   nothing;
/// - a failing source read aborts with `IoFailure(Read)` before anything is
///   moved;
/// - a failing destination write aborts with `IoFailure(Write)` with
///   nothing moved, the source having consumed one chunk;
/// - a destination that accepts no bytes per write aborts with
///   `PartialWrite` in the same state;
/// - when fewer bytes are actually readable than the measured length
///   promised, exactly those readable bytes are appended to the
///   destination, the last event reports them, and the pass aborts with
///   `TruncatedSource`;
/// - otherwise the pass succeeds: the destination receives exactly the
///   requested bytes and the last event reports `total` out of `total`.
pub open spec fn buffered_outcome(
    chunk: u64,
    base: u64,
    total: u64,
    src_data: Seq<u8>,
    s: int,
    fail_reads: bool,
    dst0: Seq<u8>,
    max_per_write: int,
    fail_writes: bool,
    log0: Seq<ProgressEvent>,
    src_pos1: int,
    dst1: Seq<u8>,
    log1: Seq<ProgressEvent>,
    r: Result<(), TransferError>,
) -> bool {
    let amount = total - base;
    let a = if 0 <= s < src_data.len() {
        src_data.len() - s
    } else {
        0
    };
    let first_read = first_read_len(chunk, amount, src_data, s);
    &&& log1.len() >= log0.len()
    &&& log1.subrange(0, log0.len() as int) == log0
    &&& reports_monotone_from(log1, log0.len() as int, total)
    &&& forall|i: int| log0.len() <= i < log1.len() ==> (#[trigger] log1[i]).copied >= base
    &&& if amount == 0 {
        &&& r == Ok::<(), TransferError>(())
        &&& dst1 == dst0
        &&& log1 == log0
        &&& src_pos1 == s
    } else if fail_reads {
        &&& r == Err::<(), TransferError>(TransferError::IoFailure(Phase::Read))
        &&& dst1 == dst0
        &&& log1 == log0
        &&& src_pos1 == s
    } else if a == 0 {
        &&& r == Err::<(), TransferError>(TransferError::TruncatedSource)
        &&& dst1 == dst0
        &&& log1 == log0
        &&& src_pos1 == s
    } else if fail_writes {
        &&& r == Err::<(), TransferError>(TransferError::IoFailure(Phase::Write))
        &&& dst1 == dst0
        &&& log1 == log0
        &&& src_pos1 == s + first_read
    } else if max_per_write == 0 {
        &&& r == Err::<(), TransferError>(TransferError::PartialWrite)
        &&& dst1 == dst0
        &&& log1 == log0
        &&& src_pos1 == s + first_read
    } else if a < amount {
        &&& r == Err::<(), TransferError>(TransferError::TruncatedSource)
        &&& dst1 == dst0 + bytes_at(src_data, s, a)
        &&& src_pos1 == s + a
        &&& log1.len() > log0.len()
        &&& log1[log1.len() - 1] == (ProgressEvent { copied: (base + a) as u64, total })
    } else {
        &&& r == Ok::<(), TransferError>(())
        &&& dst1 == dst0 + bytes_at(src_data, s, amount)
        &&& src_pos1 == s + amount
        &&& log1.len() > log0.len()
        &&& log1[log1.len() - 1] == (ProgressEvent { copied: total, total })
    }
}

/// One buffered streaming pass: moves bytes `base .. total` of the transfer
/// from the source's current position to the destination, chunk by chunk,
/// recording one progress event per completed chunk.
pub(crate) fn stream_chunks(
    chunk: u64,
    base: u64,
    total: u64,
    src: &mut Source,
    dst: &mut Sink,
    log: &mut ProgressLog,
) -> (r: Result<(), TransferError>)
    requires
        1 <= chunk,
        base <= total,
    ensures
        final(src).same_content(old(src)),
        final(dst).same_config(old(dst)),
        buffered_outcome(
            chunk,
            base,
            total,
            old(src).data@,
            old(src).pos as int,
            old(src).fail_reads,
            old(dst).data@,
            old(dst).max_per_write as int,
            old(dst).fail_writes,
            old(log)@,
            final(src).pos as int,
            final(dst).data@,
            final(log)@,
            r,
        ),
{
    let amount: u64 = total - base;
    let mut copied: u64 = 0;
    while copied < amount
        invariant
            1 <= chunk,
            base + amount == total,
            copied <= amount,
            src.same_content(old(src)),
            src.pos == old(src).pos + copied,
            copied > 0 ==> old(src).pos + copied <= old(src).data@.len(),
            copied > 0 ==> !old(src).fail_reads,
            copied > 0 ==> !old(dst).fail_writes && old(dst).max_per_write >= 1,
            dst.same_config(old(dst)),
            dst.data@ == old(dst).data@ + bytes_at(old(src).data@, old(src).pos as int, copied as int),
            log@.len() >= old(log)@.len(),
            log@.subrange(0, old(log)@.len() as int) == old(log)@,
            reports_monotone_from(log@, old(log)@.len() as int, total),
            forall|i: int| old(log)@.len() <= i < log@.len() ==> (#[trigger] log@[i]).copied >= base,
            copied > 0 ==> log@.len() > old(log)@.len() && log@[log@.len() - 1]
                == (ProgressEvent { copied: (base + copied) as u64, total }),
            copied == 0 ==> log@ == old(log)@,
        decreases amount - copied,
    {
        let want: u64 = if chunk <= amount - copied {
            chunk
        } else {
            amount - copied
        };
        let ghost prev_copied = copied;
        let ghost dst_pre = dst.data@;
        let buf = match src.read_chunk(want) {
            None => {
                return Err(TransferError::IoFailure(Phase::Read));
            },
            Some(buf) => buf,
        };
        let buf_len: usize = buf.len();
        if buf_len == 0 {
            return Err(TransferError::TruncatedSource);
        }
        let mut written: usize = 0;
        let mut stalls: u64 = 0;
        while written < buf_len
            invariant
                written <= buf_len,
                buf_len == buf@.len(),
                1 <= buf_len,
                stalls <= SHORT_WRITE_RETRIES,
                stalls > 0 ==> dst.max_per_write == 0,
                dst.max_per_write == 0 ==> written == 0,
                written > 0 ==> !old(dst).fail_writes && old(dst).max_per_write >= 1,
                dst.same_config(old(dst)),
                dst.data@ == dst_pre + buf@.subrange(0, written as int),
                1 <= chunk,
                base + amount == total,
                copied == prev_copied,
                copied < amount,
                src.same_content(old(src)),
                src.pos == old(src).pos + copied + buf_len,
                old(src).pos + copied + buf_len <= old(src).data@.len(),
                !old(src).fail_reads,
                copied > 0 ==> !old(dst).fail_writes && old(dst).max_per_write >= 1,
                buf@ == bytes_at(old(src).data@, old(src).pos + copied, buf_len as int),
                copied == 0 ==> buf_len as int == first_read_len(
                    chunk,
                    amount as int,
                    old(src).data@,
                    old(src).pos as int,
                ),
                dst_pre == old(dst).data@ + bytes_at(
                    old(src).data@,
                    old(src).pos as int,
                    copied as int,
                ),
                log@.len() >= old(log)@.len(),
                log@.subrange(0, old(log)@.len() as int) == old(log)@,
                reports_monotone_from(log@, old(log)@.len() as int, total),
                forall|i: int| old(log)@.len() <= i < log@.len() ==> (#[trigger] log@[i]).copied
                    >= base,
                copied > 0 ==> log@.len() > old(log)@.len() && log@[log@.len() - 1]
                    == (ProgressEvent { copied: (base + copied) as u64, total }),
                copied == 0 ==> log@ == old(log)@,
            decreases buf_len - written, SHORT_WRITE_RETRIES - stalls,
        {
            match dst.write_from(&buf, written) {
                None => {
                    return Err(TransferError::IoFailure(Phase::Write));
                },
                Some(w) => {
                    if w == 0 {
                        if stalls >= SHORT_WRITE_RETRIES {
                            return Err(TransferError::PartialWrite);
                        }
                        stalls = stalls + 1;
                    } else {
                        proof {
                            assert(dst.data@ =~= dst_pre + buf@.subrange(0, written + w));
                        }
                        written = written + w;
                        stalls = 0;
                    }
                },
            }
        }
        proof {
            assert(buf@.subrange(0, buf_len as int) =~= buf@);
        }
        copied = copied + buf_len as u64;
        let ghost pre_log = log@;
        log.record(base + copied, total);
        proof {
            assert(dst.data@ =~= old(dst).data@ + bytes_at(
                old(src).data@,
                old(src).pos as int,
                copied as int,
            ));
            assert(log@.subrange(0, old(log)@.len() as int) =~= old(log)@);
            assert forall|i: int, j: int|
                old(log)@.len() <= i <= j < log@.len() implies (#[trigger] log@[i]).copied
                <= (#[trigger] log@[j]).copied by {
                if j < pre_log.len() {
                    assert(log@[i] == pre_log[i] && log@[j] == pre_log[j]);
                } else if i < pre_log.len() {
                    assert(log@[i] == pre_log[i]);
                    assert(pre_log[i].copied <= pre_log[pre_log.len() - 1].copied);
                }
            };
        }
    }
    Ok(())
}

/// The portable buffered copier: reads up to `chunk_size` bytes at a time
/// into a scratch buffer scoped to the call, and writes each chunk whole
/// before reading the next. It holds no per-file state, so one instance is
/// safely reused across files.
pub struct Copier {
    chunk_size: u64,
}

impl Copier {
    #[verifier::type_invariant]
    spec fn inv(&self) -> bool {
        self.chunk_size >= 1
    }

    /// The buffer capacity this copier reads and writes with, in bytes.
    pub closed spec fn chunk(&self) -> u64 {
        self.chunk_size
    }

    /// A copier with the given buffer capacity; a zero chunk size is
    /// invalid and is rejected here, at construction, never at first use.
    pub fn new(chunk_size: u64) -> (r: Result<Copier, TransferError>)
        ensures
            chunk_size >= 1 ==> (r matches Ok(c) && c.chunk() == chunk_size),
            chunk_size == 0 ==> r == Err::<Copier, TransferError>(
                TransferError::InvalidConfiguration,
            ),
    {
        if chunk_size == 0 {
            Err(TransferError::InvalidConfiguration)
        } else {
            Ok(Copier { chunk_size })
        }
    }

    /// The buffer capacity, in bytes; always at least one.
    pub fn chunk_size(&self) -> (r: u64)
        ensures
            r == self.chunk(),
            r >= 1,
    {
        proof {
            use_type_invariant(&*self);
        }
        self.chunk_size
    }

    /// Copies the requested byte range of the source to the destination
    /// with the buffered strategy, recording progress as it goes. See
    /// [`buffered_outcome`] for the full statement: on success the
    /// destination receives exactly the requested bytes of the source,
    /// clamped to the source's measured length, and the last progress
    /// event reports all of them.
    pub fn copy(
        &self,
        src: &mut Source,
        dst: &mut Sink,
        range: Option<ByteRange>,
        log: &mut ProgressLog,
    ) -> (r: Result<(), TransferError>)
        ensures
            final(src).same_content(old(src)),
            final(dst).same_config(old(dst)),
            buffered_outcome(
                self.chunk(),
                0,
                target_of(*old(src), range) as u64,
                old(src).data@,
                start_of(*old(src), range),
                old(src).fail_reads,
                old(dst).data@,
                old(dst).max_per_write as int,
                old(dst).fail_writes,
                old(log)@,
                final(src).pos as int,
                final(dst).data@,
                final(log)@,
                r,
            ),
    {
        proof {
            use_type_invariant(&*self);
        }
        let total = prepare(src, range);
        stream_chunks(self.chunk_size, 0, total, src, dst, log)
    }
}

} // verus!
