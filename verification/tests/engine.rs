use copier::accelerated::AcceleratedCopier;
use copier::buffered::Copier;
use copier::error::Phase;
use copier::error::TransferError;
use copier::handle::AccelSupport;
use copier::handle::Sink;
use copier::handle::Source;
use copier::progress::ProgressLog;
use copier::range::ByteRange;
use copier::strategy::TransferStrategy;

fn pseudo_random_bytes(n: usize, seed: u64) -> Vec<u8> {
    let mut state = seed;
    let mut v = Vec::with_capacity(n);
    for _ in 0..n {
        state = state.wrapping_mul(6364136223846793005).wrapping_add(1442695040888963407);
        v.push((state >> 33) as u8);
    }
    v
}

fn assert_log_monotone(log: &ProgressLog, total: u64) {
    let mut prev: u64 = 0;
    for i in 0..log.len() {
        let e = log.get(i);
        assert_eq!(e.total, total);
        assert!(e.copied >= prev, "progress went backwards");
        assert!(e.copied <= total, "progress overstated the total");
        prev = e.copied;
    }
}

#[test]
fn full_copy_identical_across_chunk_sizes() {
    let content = pseudo_random_bytes(1000, 7);
    for chunk in [1u64, 2, 3, 7, 999, 1000, 1001, 100_000] {
        let copier = Copier::new(chunk).unwrap();
        let mut src = Source::new(content.clone());
        let mut dst = Sink::new();
        let mut log = ProgressLog::new();
        let r = copier.copy(&mut src, &mut dst, None, &mut log);
        assert_eq!(r, Ok(()));
        assert_eq!(dst.data, content);
        assert!(log.len() > 0);
        let last = log.get(log.len() - 1);
        assert_eq!(last.copied, 1000);
        assert_eq!(last.total, 1000);
    }
}

#[test]
fn zero_length_source_succeeds() {
    let copier = Copier::new(4096).unwrap();
    let mut src = Source::new(Vec::new());
    let mut dst = Sink::new();
    let mut log = ProgressLog::new();
    let r = copier.copy(&mut src, &mut dst, None, &mut log);
    assert_eq!(r, Ok(()));
    assert_eq!(dst.data.len(), 0);
    assert_eq!(log.len(), 0);
}

#[test]
fn explicit_zero_length_request_succeeds() {
    let copier = Copier::new(8).unwrap();
    let mut src = Source::new(vec![1, 2, 3]);
    let mut dst = Sink::new();
    let mut log = ProgressLog::new();
    let r = copier.copy(&mut src, &mut dst, Some(ByteRange::first(0)), &mut log);
    assert_eq!(r, Ok(()));
    assert_eq!(dst.data.len(), 0);
    assert_eq!(log.len(), 0);
}

#[test]
fn subrange_copy_exact() {
    let content: Vec<u8> = (0u8..20).collect();
    let copier = Copier::new(4).unwrap();
    let mut src = Source::new(content.clone());
    let mut dst = Sink::new();
    let mut log = ProgressLog::new();
    let r = copier.copy(&mut src, &mut dst, Some(ByteRange::at(5, 7)), &mut log);
    assert_eq!(r, Ok(()));
    assert_eq!(dst.data, content[5..12].to_vec());
    assert_eq!(src.pos, 12);
    let last = log.get(log.len() - 1);
    assert_eq!(last.copied, 7);
    assert_eq!(last.total, 7);
}

#[test]
fn overlong_request_clamped_not_rejected() {
    let content: Vec<u8> = (0u8..10).collect();
    let copier = Copier::new(4).unwrap();
    let mut src = Source::new(content.clone());
    let mut dst = Sink::new();
    let mut log = ProgressLog::new();
    let r = copier.copy(&mut src, &mut dst, Some(ByteRange::at(4, 100)), &mut log);
    assert_eq!(r, Ok(()));
    assert_eq!(dst.data, content[4..].to_vec());
    let last = log.get(log.len() - 1);
    assert_eq!(last.copied, 6);
    assert_eq!(last.total, 6);
}

#[test]
fn offset_past_measured_end_copies_nothing() {
    let content: Vec<u8> = (0u8..10).collect();
    let copier = Copier::new(4).unwrap();
    let mut src = Source::new(content);
    let mut dst = Sink::new();
    let mut log = ProgressLog::new();
    let r = copier.copy(&mut src, &mut dst, Some(ByteRange::at(50, 5)), &mut log);
    assert_eq!(r, Ok(()));
    assert_eq!(dst.data.len(), 0);
    assert_eq!(log.len(), 0);
}

#[test]
fn shrunken_source_reports_truncated() {
    let content: Vec<u8> = (0u8..6).collect();
    let copier = Copier::new(4).unwrap();
    let mut src = Source::with_reported_len(content.clone(), 10);
    let mut dst = Sink::new();
    let mut log = ProgressLog::new();
    let r = copier.copy(&mut src, &mut dst, None, &mut log);
    assert_eq!(r, Err(TransferError::TruncatedSource));
    assert_eq!(dst.data, content);
    let last = log.get(log.len() - 1);
    assert_eq!(last.copied, 6);
    assert_eq!(last.total, 10);
}

#[test]
fn accurate_measure_is_not_truncated() {
    let content: Vec<u8> = (0u8..6).collect();
    let copier = Copier::new(4).unwrap();
    let mut src = Source::new(content.clone());
    let mut dst = Sink::new();
    let mut log = ProgressLog::new();
    let r = copier.copy(&mut src, &mut dst, Some(ByteRange::first(10)), &mut log);
    assert_eq!(r, Ok(()));
    assert_eq!(dst.data, content);
}

#[test]
fn accelerated_unsupported_falls_back_correctly() {
    let content = pseudo_random_bytes(100, 11);
    for p in [0u64, 1, 37, 99] {
        let copier = AcceleratedCopier::new(8).unwrap();
        let mut src = Source::new(content.clone());
        let mut dst = Sink::with_accel(AccelSupport::UnsupportedAfter(p));
        let mut log = ProgressLog::new();
        let r = copier.copy(&mut src, &mut dst, None, &mut log);
        assert_eq!(r, Ok(()));
        assert_eq!(dst.data, content);
        assert_log_monotone(&log, 100);
        let last = log.get(log.len() - 1);
        assert_eq!(last.copied, 100);
    }
}

#[test]
fn accelerated_full_support_copies_everything() {
    let content = pseudo_random_bytes(50, 13);
    let copier = AcceleratedCopier::new(4).unwrap();
    let mut src = Source::new(content.clone());
    let mut dst = Sink::new();
    let mut log = ProgressLog::new();
    let r = copier.copy(&mut src, &mut dst, None, &mut log);
    assert_eq!(r, Ok(()));
    assert_eq!(dst.data, content);
    assert_eq!(log.len(), 1);
    assert_eq!(log.get(0).copied, 50);
    assert_eq!(log.get(0).total, 50);
}

#[test]
fn accelerated_error_is_fatal_not_fallback() {
    let content: Vec<u8> = (0u8..10).collect();
    let copier = AcceleratedCopier::new(4).unwrap();
    let mut src = Source::new(content.clone());
    let mut dst = Sink::with_accel(AccelSupport::ErrorAfter(3));
    let mut log = ProgressLog::new();
    let r = copier.copy(&mut src, &mut dst, None, &mut log);
    assert_eq!(r, Err(TransferError::IoFailure(Phase::AcceleratedCopy)));
    assert_eq!(dst.data, content[..3].to_vec());
    assert_eq!(log.len(), 1);
    assert_eq!(log.get(0).copied, 3);
    assert_eq!(log.get(0).total, 10);
}

#[test]
fn accelerated_on_shrunken_source_reports_truncated() {
    let content: Vec<u8> = (0u8..4).collect();
    let copier = AcceleratedCopier::new(4).unwrap();
    let mut src = Source::with_reported_len(content.clone(), 9);
    let mut dst = Sink::new();
    let mut log = ProgressLog::new();
    let r = copier.copy(&mut src, &mut dst, None, &mut log);
    assert_eq!(r, Err(TransferError::TruncatedSource));
    assert_eq!(dst.data, content);
    assert_eq!(log.len(), 1);
    assert_eq!(log.get(0).copied, 4);
    assert_eq!(log.get(0).total, 9);
}

#[test]
fn single_byte_writes_still_complete() {
    let content = pseudo_random_bytes(9, 17);
    let copier = Copier::new(4).unwrap();
    let mut src = Source::new(content.clone());
    let mut dst = Sink::with_max_write(1);
    let mut log = ProgressLog::new();
    let r = copier.copy(&mut src, &mut dst, None, &mut log);
    assert_eq!(r, Ok(()));
    assert_eq!(dst.data, content);
    let last = log.get(log.len() - 1);
    assert_eq!(last.copied, 9);
    assert_eq!(last.total, 9);
}

#[test]
fn progress_is_monotone_and_terminates_at_total() {
    let content = pseudo_random_bytes(9, 23);
    let copier = Copier::new(2).unwrap();
    let mut src = Source::new(content);
    let mut dst = Sink::new();
    let mut log = ProgressLog::new();
    let r = copier.copy(&mut src, &mut dst, None, &mut log);
    assert_eq!(r, Ok(()));
    assert!(log.len() >= 5);
    assert_log_monotone(&log, 9);
    assert_eq!(log.get(log.len() - 1).copied, 9);
}

#[test]
fn large_copy_scenario() {
    let content = pseudo_random_bytes(10_000, 42);
    let copier = Copier::new(4096).unwrap();
    let mut src = Source::new(content.clone());
    let mut dst = Sink::new();
    let mut log = ProgressLog::new();
    let r = copier.copy(&mut src, &mut dst, None, &mut log);
    assert_eq!(r, Ok(()));
    assert_eq!(dst.data, content);
    let mut saw_complete = false;
    for i in 0..log.len() {
        if log.get(i).copied == 10_000 {
            saw_complete = true;
        }
    }
    assert!(saw_complete);
}

#[test]
fn zero_chunk_size_rejected_at_construction() {
    assert_eq!(Copier::new(0).err(), Some(TransferError::InvalidConfiguration));
    assert_eq!(AcceleratedCopier::new(0).err(), Some(TransferError::InvalidConfiguration));
    assert_eq!(Copier::new(1).unwrap().chunk_size(), 1);
}

#[test]
fn failing_reads_surface_as_read_io_failure() {
    let copier = Copier::new(4).unwrap();
    let mut src = Source::failing_reads(vec![1, 2, 3]);
    let mut dst = Sink::new();
    let mut log = ProgressLog::new();
    let r = copier.copy(&mut src, &mut dst, None, &mut log);
    assert_eq!(r, Err(TransferError::IoFailure(Phase::Read)));
    assert_eq!(dst.data.len(), 0);
    assert_eq!(log.len(), 0);
}

#[test]
fn failing_writes_surface_as_write_io_failure() {
    let copier = Copier::new(4).unwrap();
    let mut src = Source::new(vec![1, 2, 3]);
    let mut dst = Sink::failing_writes();
    let mut log = ProgressLog::new();
    let r = copier.copy(&mut src, &mut dst, None, &mut log);
    assert_eq!(r, Err(TransferError::IoFailure(Phase::Write)));
    assert_eq!(dst.data.len(), 0);
    assert_eq!(log.len(), 0);
}

#[test]
fn stalled_destination_reports_partial_write() {
    let copier = Copier::new(4).unwrap();
    let mut src = Source::new(vec![1, 2, 3]);
    let mut dst = Sink::with_max_write(0);
    let mut log = ProgressLog::new();
    let r = copier.copy(&mut src, &mut dst, None, &mut log);
    assert_eq!(r, Err(TransferError::PartialWrite));
    assert_eq!(dst.data.len(), 0);
    assert_eq!(log.len(), 0);
}

#[test]
fn progress_log_is_append_only_across_calls() {
    let copier = Copier::new(2).unwrap();
    let mut log = ProgressLog::new();
    log.record(5, 5);
    let mut src = Source::new(vec![9, 9, 9]);
    let mut dst = Sink::new();
    let r = copier.copy(&mut src, &mut dst, None, &mut log);
    assert_eq!(r, Ok(()));
    assert_eq!(log.get(0).copied, 5);
    assert_eq!(log.get(0).total, 5);
    assert!(log.len() > 1);
    assert_eq!(log.get(log.len() - 1).copied, 3);
}

fn copy_with<S: TransferStrategy>(strategy: &S, content: &[u8]) -> (Result<(), TransferError>, Vec<u8>) {
    let mut src = Source::new(content.to_vec());
    let mut dst = Sink::new();
    let mut log = ProgressLog::new();
    let r = strategy.transfer(&mut src, &mut dst, None, &mut log);
    (r, dst.data)
}

#[test]
fn either_strategy_satisfies_the_interface() {
    let content = pseudo_random_bytes(33, 29);
    let (rb, db) = copy_with(&Copier::new(5).unwrap(), &content);
    let (ra, da) = copy_with(&AcceleratedCopier::new(5).unwrap(), &content);
    assert_eq!(rb, Ok(()));
    assert_eq!(ra, Ok(()));
    assert_eq!(db, content);
    assert_eq!(da, content);
}

#[test]
fn source_position_advances_with_reads() {
    let content: Vec<u8> = (0u8..8).collect();
    let copier = Copier::new(3).unwrap();
    let mut src = Source::new(content.clone());
    let mut dst = Sink::new();
    let mut log = ProgressLog::new();
    let r = copier.copy(&mut src, &mut dst, Some(ByteRange::at(2, 4)), &mut log);
    assert_eq!(r, Ok(()));
    assert_eq!(src.position(), 6);
    assert_eq!(src.measured_len(), 8);
    assert_eq!(dst.data, content[2..6].to_vec());
}
