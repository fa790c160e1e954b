use rust_cache_warmer::warming::libaio::{
    warm_file, warm_with_libaio_direct, BatchRead, LibaioAction, LibaioEvent, LibaioPhase,
    LibaioSession, MAX_QUEUE_DEPTH,
};
use rust_cache_warmer::warming::{Method, Os, Platform, WarmError, WarmingOptions};
use std::time::Duration;

struct Trace {
    outcome: Result<Method, WarmError>,
    batches: Vec<Vec<BatchRead>>,
    allocations: usize,
    releases: usize,
    max_held: usize,
}

/// Drives a session over a file of `len` bytes. `fail_every`: every read
/// whose number is a multiple of it fails (0: none fails).
fn drive(mut session: LibaioSession, len: u64, fail_every: usize) -> Trace {
    let mut batches: Vec<Vec<BatchRead>> = Vec::new();
    let mut allocations = 0usize;
    let mut releases = 0usize;
    let mut held = 0usize;
    let mut max_held = 0usize;
    let mut in_flight: Vec<BatchRead> = Vec::new();
    let mut issued = 0usize;
    for _ in 0..10_000_000 {
        match session.action() {
            LibaioAction::Open => session.advance(LibaioEvent::Opened),
            LibaioAction::StartRing => session.advance(LibaioEvent::RingStarted),
            LibaioAction::Allocate { size, align } => {
                assert_eq!(align, 4096);
                assert!(size == 4096 || size == 1048576);
                allocations += 1;
                held += 1;
                if held > max_held {
                    max_held = held;
                }
                session.advance(LibaioEvent::Allocated);
            }
            LibaioAction::Submit => {
                assert!(in_flight.is_empty());
                let batch = session.plan_batch();
                assert!(!batch.is_empty());
                assert!(batch.len() <= MAX_QUEUE_DEPTH);
                for (k, read) in batch.iter().enumerate() {
                    assert_eq!(read.buffer, k);
                    assert!(read.buffer < held);
                    assert_eq!(read.offset % 4096, 0);
                    assert_eq!(read.len % 4096, 0);
                    assert!(read.len > 0);
                    assert!(read.offset < session.state().file_size);
                }
                in_flight = batch.clone();
                batches.push(batch);
            }
            LibaioAction::Await => {
                let read = in_flight.remove(0);
                issued += 1;
                if fail_every > 0 && issued % fail_every == 0 {
                    session.advance(LibaioEvent::CompletionFailed);
                } else {
                    let n = if read.offset >= len {
                        0
                    } else if len - read.offset < read.len as u64 {
                        (len - read.offset) as usize
                    } else {
                        read.len
                    };
                    session.advance(LibaioEvent::Completed(n));
                }
            }
            LibaioAction::Release => {
                assert!(held > 0);
                held -= 1;
                releases += 1;
                session.advance(LibaioEvent::Released);
            }
            LibaioAction::Done(outcome) => {
                assert_eq!(held, 0);
                assert!(in_flight.is_empty());
                return Trace { outcome, batches, allocations, releases, max_held };
            }
        }
    }
    panic!("the session did not end");
}

#[test]
fn libaio_sparse_ten_megabytes_is_one_batch_of_153_samples() {
    let trace = drive(warm_with_libaio_direct(10_000_000, 1_000_000), 10_000_000, 0);
    assert_eq!(trace.outcome, Ok(Method::LibaioDirectSparse));
    assert_eq!(trace.batches.len(), 1);
    assert_eq!(trace.batches[0].len(), 153);
    for (i, r) in trace.batches[0].iter().enumerate() {
        assert_eq!(*r, BatchRead { buffer: i, offset: i as u64 * 65536, len: 4096 });
    }
    assert_eq!(trace.allocations, 153);
    assert_eq!(trace.releases, 153);
}

#[test]
fn libaio_sparse_large_file_goes_out_in_batches_of_256() {
    let size = 65536 * 600 + 1;
    let session = warm_with_libaio_direct(size, 1);
    assert_eq!(session.state().total, 601);
    assert_eq!(session.state().batch_size, 256);
    let trace = drive(session, size, 0);
    assert_eq!(trace.batches.iter().map(|b| b.len()).collect::<Vec<usize>>(), vec![256, 256, 89]);
    assert_eq!(trace.batches[1][0], BatchRead { buffer: 0, offset: 256 * 65536, len: 4096 });
    assert_eq!(trace.batches[2][88], BatchRead { buffer: 88, offset: 600 * 65536, len: 4096 });
    assert_eq!(trace.max_held, 256);
    assert_eq!(trace.allocations, 256);
    assert_eq!(trace.releases, 256);
}

#[test]
fn libaio_full_chunks_tile_the_file() {
    let size = 3 * 1048576 + 5000;
    let trace = drive(warm_with_libaio_direct(size, 0), size, 0);
    assert_eq!(trace.outcome, Ok(Method::LibaioDirectFull));
    assert_eq!(
        trace.batches,
        vec![vec![
            BatchRead { buffer: 0, offset: 0, len: 1048576 },
            BatchRead { buffer: 1, offset: 1048576, len: 1048576 },
            BatchRead { buffer: 2, offset: 2 * 1048576, len: 1048576 },
            BatchRead { buffer: 3, offset: 3 * 1048576, len: 8192 },
        ]]
    );
    assert_eq!(trace.allocations, 4);
    assert_eq!(trace.releases, 4);
}

#[test]
fn libaio_full_counts_the_bytes_that_completed() {
    let size = 3 * 1048576 + 5000;
    let mut s = warm_with_libaio_direct(size, 0);
    s.advance(LibaioEvent::Opened);
    s.advance(LibaioEvent::RingStarted);
    for _ in 0..4 {
        s.advance(LibaioEvent::Allocated);
    }
    let batch = s.plan_batch();
    assert_eq!(batch.len(), 4);
    s.advance(LibaioEvent::Completed(1048576));
    s.advance(LibaioEvent::Completed(1048576));
    s.advance(LibaioEvent::CompletionFailed);
    s.advance(LibaioEvent::Completed(5000));
    assert_eq!(s.state().bytes_read, 2 * 1048576 + 5000);
    assert_eq!(s.state().samples, 3);
    assert_eq!(s.state().phase, LibaioPhase::Releasing);
}

#[test]
fn libaio_empty_file_needs_no_buffer() {
    let session = warm_with_libaio_direct(0, 1_000_000);
    assert_eq!(session.state().total, 0);
    assert_eq!(session.state().batch_size, 0);
    let trace = drive(session, 0, 0);
    assert_eq!(trace.outcome, Ok(Method::LibaioDirectFull));
    assert!(trace.batches.is_empty());
    assert_eq!(trace.allocations, 0);
    assert_eq!(trace.releases, 0);
}

#[test]
fn libaio_failed_read_lets_the_batch_finish_and_ends_the_reading() {
    let size = 65536 * 600 + 1;
    let trace = drive(warm_with_libaio_direct(size, 1), size, 300);
    assert_eq!(trace.outcome, Ok(Method::LibaioDirectSparse));
    // The failure is the 300th read, in the second batch: the third never goes out.
    assert_eq!(trace.batches.iter().map(|b| b.len()).collect::<Vec<usize>>(), vec![256, 256]);
    assert_eq!(trace.allocations, 256);
    assert_eq!(trace.releases, 256);
}

#[test]
fn libaio_empty_read_ends_the_reading() {
    let size = 65536 * 600 + 1;
    // The file holds less than was measured: reads past its end return nothing.
    let trace = drive(warm_with_libaio_direct(size, 1), 65536 * 10, 0);
    assert_eq!(trace.outcome, Ok(Method::LibaioDirectSparse));
    assert_eq!(trace.batches.len(), 1);
    assert_eq!(trace.releases, 256);
    let mut s = warm_with_libaio_direct(size, 1);
    s.advance(LibaioEvent::Opened);
    s.advance(LibaioEvent::RingStarted);
    for _ in 0..256 {
        s.advance(LibaioEvent::Allocated);
    }
    assert_eq!(s.plan_batch().len(), 256);
    s.advance(LibaioEvent::Completed(0));
    assert!(s.state().stopped);
    assert_eq!(s.state().phase, LibaioPhase::Waiting);
    for _ in 0..255 {
        s.advance(LibaioEvent::Completed(4096));
    }
    assert_eq!(s.state().samples, 255);
    assert_eq!(s.action(), LibaioAction::Release);
}

#[test]
fn libaio_allocation_failure_frees_what_was_allocated() {
    let mut s = warm_with_libaio_direct(10_000_000, 1_000_000);
    s.advance(LibaioEvent::Opened);
    s.advance(LibaioEvent::RingStarted);
    s.advance(LibaioEvent::Allocated);
    s.advance(LibaioEvent::Allocated);
    s.advance(LibaioEvent::Allocated);
    assert_eq!(s.state().held, 3);
    s.advance(LibaioEvent::AllocationFailed);
    assert_eq!(s.action(), LibaioAction::Release);
    s.advance(LibaioEvent::Released);
    s.advance(LibaioEvent::Released);
    assert_eq!(s.action(), LibaioAction::Release);
    s.advance(LibaioEvent::Released);
    assert_eq!(s.action(), LibaioAction::Done(Err(WarmError::OutOfMemory)));
    assert_eq!(s.state().held, 0);
    s.advance(LibaioEvent::Released);
    assert_eq!(s.state().held, 0);
}

#[test]
fn libaio_first_allocation_failure_ends_at_once() {
    let mut s = warm_with_libaio_direct(100, 0);
    s.advance(LibaioEvent::Opened);
    s.advance(LibaioEvent::RingStarted);
    assert_eq!(s.action(), LibaioAction::Allocate { size: 1048576, align: 4096 });
    s.advance(LibaioEvent::AllocationFailed);
    assert_eq!(s.action(), LibaioAction::Done(Err(WarmError::OutOfMemory)));
}

#[test]
fn libaio_open_failure_is_the_outcome() {
    for class in [WarmError::NotFound, WarmError::PermissionDenied, WarmError::Other] {
        let mut s = warm_with_libaio_direct(100, 0);
        s.advance(LibaioEvent::OpenFailed(class));
        assert_eq!(s.action(), LibaioAction::Done(Err(class)));
    }
}

#[test]
fn libaio_ring_that_cannot_be_set_up_is_unsupported() {
    let mut s = warm_with_libaio_direct(100, 0);
    s.advance(LibaioEvent::Opened);
    assert_eq!(s.action(), LibaioAction::StartRing);
    s.advance(LibaioEvent::RingFailed);
    assert!(s.is_finished());
    assert_eq!(s.state().held, 0);
    assert_eq!(s.action(), LibaioAction::Done(Err(WarmError::Unsupported)));
    match s.result(Duration::from_secs(1)) {
        Some(Err(e)) => assert_eq!(e, WarmError::Unsupported),
        _ => panic!("an error was expected"),
    }
}

#[test]
fn libaio_plan_batch_out_of_turn_is_empty() {
    let mut s = warm_with_libaio_direct(100, 0);
    let before = s.state();
    assert!(s.plan_batch().is_empty());
    assert_eq!(s.state(), before);
    s.advance(LibaioEvent::Completed(5));
    s.advance(LibaioEvent::Released);
    s.advance(LibaioEvent::Allocated);
    assert_eq!(s.state(), before);
}

#[test]
fn libaio_result_carries_tag_and_duration() {
    let mut s = warm_with_libaio_direct(100, 0);
    assert!(s.result(Duration::from_millis(7)).is_none());
    s.advance(LibaioEvent::Opened);
    s.advance(LibaioEvent::RingStarted);
    s.advance(LibaioEvent::Allocated);
    assert_eq!(s.plan_batch(), vec![BatchRead { buffer: 0, offset: 0, len: 4096 }]);
    assert_eq!(s.action(), LibaioAction::Await);
    s.advance(LibaioEvent::Completed(100));
    s.advance(LibaioEvent::Released);
    assert!(s.is_finished());
    let r = s.result(Duration::from_millis(7)).unwrap().unwrap();
    assert_eq!(r.method, "libaio_direct_full");
    assert!(r.success);
    assert_eq!(r.duration, Duration::from_millis(7));
}

#[test]
fn libaio_needs_direct_io_and_the_platform() {
    let linux = Platform { os: Os::Linux, io_uring: false, libaio: true };
    let on = WarmingOptions { use_io_uring: false, use_libaio: true, use_direct_io: true, sparse_large_files: 0 };
    let off = WarmingOptions { use_direct_io: false, ..on };
    assert!(warm_file(100, &on, &linux).is_ok());
    match warm_file(100, &off, &linux) {
        Err(e) => assert_eq!(e, WarmError::Unsupported),
        Ok(_) => panic!("unsupported was expected"),
    }
    assert!(warm_file(100, &on, &Platform { libaio: false, ..linux }).is_err());
    assert!(warm_file(100, &on, &Platform { os: Os::Other, ..linux }).is_err());
    let sparse = WarmingOptions { sparse_large_files: 10, ..on };
    assert!(warm_file(100, &sparse, &linux).unwrap().state().sparse);
    assert!(!warm_file(10, &sparse, &linux).unwrap().state().sparse);
}

#[test]
fn libaio_handles_the_largest_size() {
    let s = warm_with_libaio_direct(u64::MAX, 1);
    assert_eq!(s.state().total, 1 << 48);
    assert_eq!(s.state().batch_size, 256);
    let f = warm_with_libaio_direct(u64::MAX, 0);
    assert_eq!(f.state().total, 1 << 44);
}
