//! The contract both transfer strategies satisfy.
//!
//! A caller that only needs the interface can hold any strategy and rely
//! on the shared guarantee: on success the destination has received
//! exactly the requested byte range of the source, and the progress events
//! of the call are monotonically non-decreasing, ending — when anything
//! was to move — with one that reports the whole total. Which strategy to
//! construct is a per-platform or per-call choice of the caller.

use vstd::prelude::*;

use crate::accelerated::AcceleratedCopier;
use crate::buffered::Copier;
use crate::error::TransferError;
use crate::handle::Sink;
use crate::handle::Source;
use crate::handle::bytes_at;
use crate::plan::start_of;
use crate::plan::target_of;
use crate::progress::ProgressEvent;
use crate::progress::ProgressLog;
use crate::progress::reports_monotone_from;
use crate::range::ByteRange;

verus! {

/// What every transfer strategy guarantees of one call, whatever its
/// outcome: the handles' contents and behaviours are respected, progress
/// events are only appended and are monotonically non-decreasing toward
/// the resolved total, and on success the destination received exactly
/// the resolved byte range of the source, the last event reporting all of
/// it.
pub trait TransferStrategy: Sized {
    /// Copies the requested byte range of the source to the destination,
    /// recording progress into `log`.
    fn transfer(
        &self,
        src: &mut Source,
        dst: &mut Sink,
        range: Option<ByteRange>,
        log: &mut ProgressLog,
    ) -> (r: Result<(), TransferError>)
        ensures
            final(src).same_content(old(src)),
            final(dst).same_config(old(dst)),
            final(log)@.len() >= old(log)@.len(),
            final(log)@.subrange(0, old(log)@.len() as int) == old(log)@,
            reports_monotone_from(
                final(log)@,
                old(log)@.len() as int,
                target_of(*old(src), range) as u64,
            ),
            r == Ok::<(), TransferError>(()) ==> {
                let s = start_of(*old(src), range);
                let t = target_of(*old(src), range);
                &&& final(dst).data@ == old(dst).data@ + bytes_at(old(src).data@, s, t)
                &&& final(src).pos == s + t
                &&& t > 0 ==> final(log)@.len() > old(log)@.len()
                    && final(log)@[final(log)@.len() - 1] == (ProgressEvent {
                    copied: t as u64,
                    total: t as u64,
                })
            },
    ;
}

impl TransferStrategy for Copier {
    /// The buffered strategy's transfer; [`Copier::copy`] states the full
    /// outcome.
    fn transfer(
        &self,
        src: &mut Source,
        dst: &mut Sink,
        range: Option<ByteRange>,
        log: &mut ProgressLog,
    ) -> (r: Result<(), TransferError>) {
        let r = self.copy(src, dst, range, log);
        proof {
            let s = start_of(*old(src), range);
            let t = target_of(*old(src), range);
            if r == Ok::<(), TransferError>(()) && t == 0 {
                assert(dst.data@ =~= old(dst).data@ + bytes_at(old(src).data@, s, t));
            }
        }
        r
    }
}

impl TransferStrategy for AcceleratedCopier {
    /// The accelerated strategy's transfer; [`AcceleratedCopier::copy`]
    /// states the full outcome, including the fallback boundary.
    fn transfer(
        &self,
        src: &mut Source,
        dst: &mut Sink,
        range: Option<ByteRange>,
        log: &mut ProgressLog,
    ) -> (r: Result<(), TransferError>) {
        let r = self.copy(src, dst, range, log);
        proof {
            let s = start_of(*old(src), range);
            let t = target_of(*old(src), range);
            let data = old(src).data@;
            if r == Ok::<(), TransferError>(()) {
                if t == 0 {
                    assert(dst.data@ =~= old(dst).data@ + bytes_at(data, s, t));
                } else {
                    match old(dst).accel {
                        crate::handle::AccelSupport::UnsupportedAfter(p) => {
                            assert(dst.data@ =~= old(dst).data@ + bytes_at(data, s, t));
                        },
                        _ => {},
                    }
                }
            }
        }
        r
    }
}

} // verus!
