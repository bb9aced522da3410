//! Error taxonomy of the transfer engine.

use vstd::prelude::*;

verus! {

/// The operation during which an I/O failure was reported.
#[derive(Clone, Copy, Debug, PartialEq, Eq, Structural)]
pub enum Phase {
    /// Reading from the source.
    Read,
    /// Writing to the destination.
    Write,
    /// The platform-accelerated copy path.
    AcceleratedCopy,
}

/// A typed failure of one transfer. No partial-success value is returned to
/// the caller; partial progress is observable only through the progress log.
#[derive(Clone, Copy, Debug, PartialEq, Eq, Structural)]
pub enum TransferError {
    /// A copier was asked for with a zero chunk size.
    InvalidConfiguration,
    /// The source held fewer bytes than its measured length promised,
    /// discovered mid-copy.
    TruncatedSource,
    /// An I/O failure in the named phase; always fatal, never retried.
    IoFailure(Phase),
    /// The destination never completed a short write within the bounded
    /// number of retries.
    PartialWrite,
}

} // verus!
