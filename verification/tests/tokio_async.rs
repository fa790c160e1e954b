use rust_cache_warmer::warming::fallback::Advice;
use rust_cache_warmer::warming::sampling::ReadRequest;
use rust_cache_warmer::warming::tokio_async::{
    warm_file, warm_with_manual_reading, BufferedAction, BufferedEvent, BufferedPhase,
    TokioSession,
};
use rust_cache_warmer::warming::{Method, Os, Platform, WarmError, WarmingOptions};
use std::time::Duration;

#[test]
fn buffered_full_reads_until_the_end_of_the_file() {
    let mut s = warm_with_manual_reading(20_000, 0, Os::Other);
    assert_eq!(s.action(), BufferedAction::Open);
    s.advance(BufferedEvent::Opened);
    assert_eq!(s.action(), BufferedAction::ReadNext { len: 8192 });
    s.advance(BufferedEvent::ReadDone(8192));
    assert_eq!(s.action(), BufferedAction::ReadNext { len: 8192 });
    s.advance(BufferedEvent::ReadDone(8192));
    s.advance(BufferedEvent::ReadDone(3616));
    assert_eq!(s.state().bytes_read, 20_000);
    assert_eq!(s.action(), BufferedAction::ReadNext { len: 8192 });
    s.advance(BufferedEvent::ReadDone(0));
    assert_eq!(s.action(), BufferedAction::Done(Ok(Method::TokioFull)));
    let r = s.result(Duration::from_millis(2)).unwrap().unwrap();
    assert_eq!(r.method, "tokio_full");
    assert!(r.success);
    assert_eq!(r.duration, Duration::from_millis(2));
}

#[test]
fn buffered_full_reads_past_the_measured_size() {
    let mut s = warm_with_manual_reading(10, 0, Os::Other);
    s.advance(BufferedEvent::Opened);
    s.advance(BufferedEvent::ReadDone(8192));
    assert_eq!(s.action(), BufferedAction::ReadNext { len: 8192 });
    assert_eq!(s.state().bytes_read, 8192);
}

#[test]
fn buffered_full_byte_count_saturates() {
    let mut s = warm_with_manual_reading(10, 0, Os::Other);
    s.advance(BufferedEvent::Opened);
    s.advance(BufferedEvent::ReadDone(usize::MAX));
    s.advance(BufferedEvent::ReadDone(usize::MAX));
    s.advance(BufferedEvent::ReadDone(usize::MAX));
    assert_eq!(s.state().bytes_read, u64::MAX);
    assert_eq!(s.state().phase, BufferedPhase::Reading);
}

#[test]
fn buffered_sparse_samples_one_byte_every_page() {
    let size = 4096 * 3 + 1;
    let mut s = warm_with_manual_reading(size, 4096, Os::Other);
    s.advance(BufferedEvent::Opened);
    let mut offsets = Vec::new();
    while let BufferedAction::Sample(r) = s.action() {
        assert_eq!(r.len, 1);
        assert!(r.offset < size);
        offsets.push(r.offset);
        s.advance(BufferedEvent::ReadDone(1));
    }
    assert_eq!(offsets, vec![0, 4096, 8192, 12288]);
    assert_eq!(s.state().samples, 4);
    assert_eq!(s.action(), BufferedAction::Done(Ok(Method::TokioSparse)));
    assert_eq!(s.result(Duration::from_secs(1)).unwrap().unwrap().method, "tokio_sparse");
}

#[test]
fn buffered_sparse_sample_count_of_ten_megabytes() {
    let mut s = warm_with_manual_reading(10_000_000, 1_000_000, Os::Other);
    s.advance(BufferedEvent::Opened);
    let mut n = 0u64;
    while let BufferedAction::Sample(r) = s.action() {
        assert_eq!(r, ReadRequest { offset: n * 4096, len: 1 });
        n += 1;
        s.advance(BufferedEvent::ReadDone(1));
    }
    assert_eq!(n, 2442);
    assert_eq!(s.state().samples, 2442);
    assert_eq!(s.state().cursor, 10_000_000);
}

#[test]
fn buffered_sparse_stops_at_the_first_empty_or_failed_read() {
    let mut s = warm_with_manual_reading(10_000_000, 1_000_000, Os::Other);
    s.advance(BufferedEvent::Opened);
    s.advance(BufferedEvent::ReadDone(1));
    s.advance(BufferedEvent::ReadDone(1));
    s.advance(BufferedEvent::ReadDone(0));
    assert_eq!(s.action(), BufferedAction::Done(Ok(Method::TokioSparse)));
    assert_eq!(s.state().samples, 2);
    let mut s = warm_with_manual_reading(10_000_000, 1_000_000, Os::Other);
    s.advance(BufferedEvent::Opened);
    s.advance(BufferedEvent::ReadDone(1));
    s.advance(BufferedEvent::ReadFailed);
    assert_eq!(s.action(), BufferedAction::Done(Ok(Method::TokioSparse)));
    assert_eq!(s.state().samples, 1);
}

#[test]
fn buffered_drops_the_cache_on_linux_only() {
    let mut s = warm_with_manual_reading(100, 0, Os::Linux);
    s.advance(BufferedEvent::Opened);
    s.advance(BufferedEvent::ReadDone(100));
    s.advance(BufferedEvent::ReadDone(0));
    assert_eq!(s.action(), BufferedAction::Advise { advice: Advice::DontNeed, offset: 0, len: 100 });
    assert!(!s.is_finished());
    s.advance(BufferedEvent::Advised);
    assert_eq!(s.action(), BufferedAction::Done(Ok(Method::TokioFull)));
    for os in [Os::MacOs, Os::Other] {
        let mut s = warm_with_manual_reading(100, 0, os);
        s.advance(BufferedEvent::Opened);
        s.advance(BufferedEvent::ReadFailed);
        assert_eq!(s.action(), BufferedAction::Done(Ok(Method::TokioFull)));
    }
    let mut s = warm_with_manual_reading(100, 10, Os::Linux);
    s.advance(BufferedEvent::Opened);
    s.advance(BufferedEvent::ReadFailed);
    assert_eq!(s.action(), BufferedAction::Advise { advice: Advice::DontNeed, offset: 0, len: 100 });
}

#[test]
fn buffered_open_failure_is_the_outcome() {
    let mut s = warm_with_manual_reading(100, 0, Os::Linux);
    assert!(s.result(Duration::from_secs(1)).is_none());
    s.advance(BufferedEvent::OpenFailed(WarmError::PermissionDenied));
    assert_eq!(s.action(), BufferedAction::Done(Err(WarmError::PermissionDenied)));
    match s.result(Duration::from_secs(1)) {
        Some(Err(e)) => assert_eq!(e, WarmError::PermissionDenied),
        _ => panic!("an error was expected"),
    }
}

#[test]
fn buffered_events_out_of_turn_change_nothing() {
    let mut s = warm_with_manual_reading(100, 0, Os::Linux);
    let before = s.state();
    s.advance(BufferedEvent::ReadDone(5));
    s.advance(BufferedEvent::ReadFailed);
    s.advance(BufferedEvent::Advised);
    assert_eq!(s.state(), before);
}

#[test]
fn generic_backend_chooses_direct_on_linux_when_asked() {
    let direct = WarmingOptions { use_io_uring: false, use_libaio: false, use_direct_io: true, sparse_large_files: 50 };
    let buffered = WarmingOptions { use_direct_io: false, ..direct };
    let linux = Platform { os: Os::Linux, io_uring: false, libaio: false };
    let mac = Platform { os: Os::MacOs, ..linux };
    match warm_file(100, &direct, &linux) {
        TokioSession::Direct(s) => assert!(s.state().sparse),
        TokioSession::Buffered(_) => panic!("direct reads were expected"),
    }
    match warm_file(100, &direct, &mac) {
        TokioSession::Buffered(s) => {
            assert!(s.state().sparse);
            assert!(!s.state().drops_cache);
        }
        TokioSession::Direct(_) => panic!("buffered reads were expected"),
    }
    match warm_file(10, &buffered, &linux) {
        TokioSession::Buffered(s) => {
            assert!(!s.state().sparse);
            assert!(s.state().drops_cache);
        }
        TokioSession::Direct(_) => panic!("buffered reads were expected"),
    }
}
