//! In-memory models of the open file handles a transfer works on.
//!
//! The engine never opens or closes files; the caller hands it an open,
//! positioned source and destination. Here a handle is held as plain values:
//! the bytes it contains, a read position, and the measured length the
//! caller obtained before the copy started. The destination carries the two
//! behaviours an environment can exhibit and the engine must survive: short
//! writes, and an accelerated path that is unsupported (or failing) for this
//! particular pair of handles. Callers doing real file I/O convert between
//! files and these values at the edge.

use vstd::prelude::*;

verus! {

/// The `n` bytes of `data` starting at `start`; empty when the window does
/// not lie inside `data`.
pub open spec fn bytes_at(data: Seq<u8>, start: int, n: int) -> Seq<u8> {
    if 0 <= start && 0 <= n && start + n <= data.len() {
        data.subrange(start, start + n)
    } else {
        Seq::<u8>::empty()
    }
}

/// A readable handle: its actual bytes, the current read position, and the
/// length that was measured (e.g. from metadata) before the copy started.
/// When the underlying file shrank after it was measured, `reported_len`
/// exceeds the actual content length.
pub struct Source {
    /// The bytes actually available to read.
    pub data: Vec<u8>,
    /// Current read position; may point past the end, as file seeks allow.
    pub pos: u64,
    /// The length the caller measured; the engine plans transfers with it.
    pub reported_len: u64,
    /// When set, every read reports an I/O failure.
    pub fail_reads: bool,
}

impl Source {
    /// Bytes actually readable from the current position.
    pub open spec fn remaining_actual(&self) -> int {
        if self.data@.len() > self.pos {
            self.data@.len() - self.pos
        } else {
            0
        }
    }

    /// How many bytes one read of at most `max` bytes returns.
    pub open spec fn read_amount(&self, max: u64) -> int {
        if max <= self.remaining_actual() {
            max as int
        } else {
            self.remaining_actual()
        }
    }

    /// The handle's content and behaviour, position aside, are unchanged.
    pub open spec fn same_content(&self, other: &Source) -> bool {
        &&& self.data@ == other.data@
        &&& self.reported_len == other.reported_len
        &&& self.fail_reads == other.fail_reads
    }

    /// An open handle on `data`, positioned at the start, whose measured
    /// length matches its content.
    pub fn new(data: Vec<u8>) -> (r: Source)
        ensures
            r.data@ == data@,
            r.pos == 0,
            r.reported_len == data@.len(),
            !r.fail_reads,
    {
        let reported_len = data.len() as u64;
        Source { data, pos: 0, reported_len, fail_reads: false }
    }

    /// A handle whose measured length differs from its content: the file
    /// shrank (or grew) between being measured and being read.
    pub fn with_reported_len(data: Vec<u8>, reported_len: u64) -> (r: Source)
        ensures
            r.data@ == data@,
            r.pos == 0,
            r.reported_len == reported_len,
            !r.fail_reads,
    {
        Source { data, pos: 0, reported_len, fail_reads: false }
    }

    /// A handle on which every read reports an I/O failure, as when the
    /// handle was closed from another thread mid-copy.
    pub fn failing_reads(data: Vec<u8>) -> (r: Source)
        ensures
            r.data@ == data@,
            r.pos == 0,
            r.reported_len == data@.len(),
            r.fail_reads,
    {
        let reported_len = data.len() as u64;
        Source { data, pos: 0, reported_len, fail_reads: true }
    }

    /// The current read position.
    pub fn position(&self) -> (r: u64)
        ensures
            r == self.pos,
    {
        self.pos
    }

    /// The measured length.
    pub fn measured_len(&self) -> (r: u64)
        ensures
            r == self.reported_len,
    {
        self.reported_len
    }

    /// Moves the read position, possibly past the end of the content.
    pub fn seek_to(&mut self, off: u64)
        ensures
            final(self).pos == off,
            final(self).same_content(old(self)),
    {
        self.pos = off;
    }

    /// Reads up to `max` bytes from the current position: all of them when
    /// that many remain, the remainder otherwise, none at or past the end.
    /// Fails exactly when the handle fails reads.
    pub fn read_chunk(&mut self, max: u64) -> (r: Option<Vec<u8>>)
        ensures
            final(self).same_content(old(self)),
            old(self).fail_reads ==> r is None && final(self).pos == old(self).pos,
            !old(self).fail_reads ==> r is Some && final(self).pos == old(self).pos
                + old(self).read_amount(max),
            r matches Some(v) ==> v@ == bytes_at(
                old(self).data@,
                old(self).pos as int,
                old(self).read_amount(max),
            ),
    {
        if self.fail_reads {
            return None;
        }
        let len_us: usize = self.data.len();
        let mut v: Vec<u8> = Vec::new();
        let mut n: u64 = 0;
        if self.pos < len_us as u64 {
            let pos_us: usize = self.pos as usize;
            let rem: usize = len_us - pos_us;
            let n_us: usize = if max < rem as u64 {
                max as usize
            } else {
                rem
            };
            let mut j: usize = 0;
            while j < n_us
                invariant
                    j <= n_us,
                    len_us == self.data@.len(),
                    pos_us == self.pos,
                    pos_us + n_us <= len_us,
                    n_us == self.read_amount(max),
                    v@ == bytes_at(self.data@, self.pos as int, j as int),
                decreases n_us - j,
            {
                v.push(self.data[pos_us + j]);
                j = j + 1;
                proof {
                    assert(v@ =~= bytes_at(self.data@, self.pos as int, j as int));
                }
            }
            n = n_us as u64;
        }
        self.pos = self.pos + n;
        Some(v)
    }
}

/// Whether the platform's accelerated copy path works for a given pair of
/// handles. Real kernels reject the fast path for some pairs (cross-device,
/// special files), possibly only after moving some bytes.
#[derive(Clone, Copy, Debug, PartialEq, Eq, Structural)]
pub enum AccelSupport {
    /// The accelerated path works for the whole transfer.
    Full,
    /// The accelerated path moves at most this many bytes, then reports
    /// that it is unsupported for this pair of handles.
    UnsupportedAfter(u64),
    /// The accelerated path moves at most this many bytes, then reports an
    /// actual I/O error.
    ErrorAfter(u64),
}

/// What one attempt of the accelerated path reports: in each case the
/// payload is the number of bytes the kernel confirmed as copied.
#[derive(Clone, Copy, Debug, PartialEq, Eq, Structural)]
pub enum AccelOutcome {
    /// The attempt moved this many bytes and stopped at the requested
    /// amount or at the end of the source.
    Copied(u64),
    /// The pair of handles is not supported: this many bytes were moved
    /// before the path gave up. Not an error; the caller should finish the
    /// transfer another way.
    Unsupported(u64),
    /// An I/O error after this many bytes were moved.
    Failed(u64),
}

/// A writable handle: the bytes written so far, plus the behaviours of the
/// environment behind it — how many bytes one write call accepts, whether
/// writes fail, and how the accelerated path treats this destination.
pub struct Sink {
    /// Everything written so far, in order.
    pub data: Vec<u8>,
    /// How many bytes one write call accepts at most; `0` models a
    /// destination that accepts nothing and stalls every write.
    pub max_per_write: usize,
    /// When set, every write reports an I/O failure.
    pub fail_writes: bool,
    /// How the accelerated path behaves for this destination.
    pub accel: AccelSupport,
}

impl Sink {
    /// How many bytes one write call accepts when offered `n`.
    pub open spec fn accepts(&self, n: int) -> int {
        if n <= self.max_per_write {
            n
        } else {
            self.max_per_write as int
        }
    }

    /// The handle's behaviour, written bytes aside, is unchanged.
    pub open spec fn same_config(&self, other: &Sink) -> bool {
        &&& self.max_per_write == other.max_per_write
        &&& self.fail_writes == other.fail_writes
        &&& self.accel == other.accel
    }

    /// How many bytes the accelerated path moves when asked for `want`
    /// bytes from `src`'s current position.
    pub open spec fn accel_moved(&self, src: Source, want: u64) -> int {
        let c1 = if want <= src.remaining_actual() {
            want as int
        } else {
            src.remaining_actual()
        };
        match self.accel {
            AccelSupport::Full => c1,
            AccelSupport::UnsupportedAfter(p) => if c1 <= p {
                c1
            } else {
                p as int
            },
            AccelSupport::ErrorAfter(q) => if c1 <= q {
                c1
            } else {
                q as int
            },
        }
    }

    /// What the accelerated path reports when asked for `want` bytes from
    /// `src`'s current position.
    pub open spec fn accel_outcome(&self, src: Source, want: u64) -> AccelOutcome {
        let c1 = if want <= src.remaining_actual() {
            want as int
        } else {
            src.remaining_actual()
        };
        match self.accel {
            AccelSupport::Full => AccelOutcome::Copied(c1 as u64),
            AccelSupport::UnsupportedAfter(p) => if c1 <= p {
                AccelOutcome::Copied(c1 as u64)
            } else {
                AccelOutcome::Unsupported(p)
            },
            AccelSupport::ErrorAfter(q) => if c1 <= q {
                AccelOutcome::Copied(c1 as u64)
            } else {
                AccelOutcome::Failed(q)
            },
        }
    }

    /// An empty destination that accepts writes of any size and supports
    /// the accelerated path fully.
    pub fn new() -> (r: Sink)
        ensures
            r.data@ == Seq::<u8>::empty(),
            r.max_per_write == usize::MAX,
            !r.fail_writes,
            r.accel == AccelSupport::Full,
    {
        Sink { data: Vec::new(), max_per_write: usize::MAX, fail_writes: false, accel: AccelSupport::Full }
    }

    /// An empty destination that accepts at most `max_per_write` bytes per
    /// write call (short writes; `0` stalls every write).
    pub fn with_max_write(max_per_write: usize) -> (r: Sink)
        ensures
            r.data@ == Seq::<u8>::empty(),
            r.max_per_write == max_per_write,
            !r.fail_writes,
            r.accel == AccelSupport::Full,
    {
        Sink { data: Vec::new(), max_per_write, fail_writes: false, accel: AccelSupport::Full }
    }

    /// An empty destination on which every write reports an I/O failure.
    pub fn failing_writes() -> (r: Sink)
        ensures
            r.data@ == Seq::<u8>::empty(),
            r.max_per_write == usize::MAX,
            r.fail_writes,
            r.accel == AccelSupport::Full,
    {
        Sink { data: Vec::new(), max_per_write: usize::MAX, fail_writes: true, accel: AccelSupport::Full }
    }

    /// An empty destination whose accelerated path behaves as `accel` says.
    pub fn with_accel(accel: AccelSupport) -> (r: Sink)
        ensures
            r.data@ == Seq::<u8>::empty(),
            r.max_per_write == usize::MAX,
            !r.fail_writes,
            r.accel == accel,
    {
        Sink { data: Vec::new(), max_per_write: usize::MAX, fail_writes: false, accel }
    }

    /// How many bytes were written so far.
    pub fn written_len(&self) -> (r: usize)
        ensures
            r == self.data@.len(),
    {
        self.data.len()
    }

    /// The byte written at position `i`.
    pub fn written_at(&self, i: usize) -> (r: u8)
        requires
            i < self.data@.len(),
        ensures
            r == self.data@[i as int],
    {
        self.data[i]
    }

    /// One write call: offers `buf[from..]`, and the destination accepts a
    /// prefix of it, at most `max_per_write` bytes (a short write when that
    /// is less than what was offered). Fails exactly when the handle fails
    /// writes, accepting nothing.
    pub fn write_from(&mut self, buf: &Vec<u8>, from: usize) -> (r: Option<usize>)
        requires
            from <= buf@.len(),
        ensures
            final(self).same_config(old(self)),
            old(self).fail_writes ==> r is None && final(self).data@ == old(self).data@,
            !old(self).fail_writes ==> {
                let w = old(self).accepts(buf@.len() - from);
                &&& r == Some(w as usize)
                &&& final(self).data@ == old(self).data@ + buf@.subrange(from as int, from + w)
            },
    {
        if self.fail_writes {
            return None;
        }
        let buf_len: usize = buf.len();
        let offered: usize = buf_len - from;
        let w: usize = if offered <= self.max_per_write {
            offered
        } else {
            self.max_per_write
        };
        let mut k: usize = 0;
        while k < w
            invariant
                k <= w,
                buf_len == buf@.len(),
                from + w <= buf_len,
                self.same_config(old(self)),
                self.data@ == old(self).data@ + buf@.subrange(from as int, from + k),
            decreases w - k,
        {
            self.data.push(buf[from + k]);
            k = k + 1;
            proof {
                assert(self.data@ =~= old(self).data@ + buf@.subrange(from as int, from + k));
            }
        }
        Some(w)
    }

    /// One attempt of the platform's accelerated copy path: moves bytes
    /// from `src`'s current position into this destination without
    /// round-tripping them through a caller-owned buffer, stopping at the
    /// requested amount, at the end of the source, or where this pair of
    /// handles stops supporting the path. The bytes it confirms as moved
    /// are exactly the bytes appended and consumed. The read/write failure
    /// behaviours do not apply here: this path's own failure mode is
    /// `AccelSupport::ErrorAfter`.
    pub fn accelerated_from(&mut self, src: &mut Source, want: u64) -> (r: AccelOutcome)
        ensures
            r == old(self).accel_outcome(*old(src), want),
            final(self).same_config(old(self)),
            final(src).same_content(old(src)),
            final(self).data@ == old(self).data@ + bytes_at(
                old(src).data@,
                old(src).pos as int,
                old(self).accel_moved(*old(src), want),
            ),
            final(src).pos == old(src).pos + old(self).accel_moved(*old(src), want),
    {
        let len_us: usize = src.data.len();
        let avail: u64 = if src.pos < len_us as u64 {
            len_us as u64 - src.pos
        } else {
            0
        };
        let c1: u64 = if want <= avail {
            want
        } else {
            avail
        };
        let moved: u64 = match self.accel {
            AccelSupport::Full => c1,
            AccelSupport::UnsupportedAfter(p) => if c1 <= p {
                c1
            } else {
                p
            },
            AccelSupport::ErrorAfter(q) => if c1 <= q {
                c1
            } else {
                q
            },
        };
        if moved > 0 {
            let pos_us: usize = src.pos as usize;
            let moved_us: usize = moved as usize;
            let mut k: usize = 0;
            while k < moved_us
                invariant
                    k <= moved_us,
                    len_us == src.data@.len(),
                    pos_us == src.pos,
                    pos_us + moved_us <= len_us,
                    self.same_config(old(self)),
                    self.data@ == old(self).data@ + bytes_at(src.data@, src.pos as int, k as int),
                decreases moved_us - k,
            {
                self.data.push(src.data[pos_us + k]);
                k = k + 1;
                proof {
                    assert(self.data@ =~= old(self).data@ + bytes_at(
                        src.data@,
                        src.pos as int,
                        k as int,
                    ));
                }
            }
        }
        src.pos = src.pos + moved;
        match self.accel {
            AccelSupport::Full => AccelOutcome::Copied(c1),
            AccelSupport::UnsupportedAfter(p) => if c1 <= p {
                AccelOutcome::Copied(c1)
            } else {
                AccelOutcome::Unsupported(p)
            },
            AccelSupport::ErrorAfter(q) => if c1 <= q {
                AccelOutcome::Copied(c1)
            } else {
                AccelOutcome::Failed(q)
            },
        }
    }
}

} // verus!
