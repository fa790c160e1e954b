use rust_cache_warmer::discovery::{Discovery, EntryKind};
use rust_cache_warmer::pipeline::{conclude, plan_file, FileOutcome, FilePlan, RunCounters};
use rust_cache_warmer::warming::direct::{DirectAction, DirectEvent, DirectSession};
use rust_cache_warmer::warming::fallback::{HintAction, HintEvent, HintSession};
use rust_cache_warmer::warming::io_uring::ring_set_up;
use rust_cache_warmer::warming::libaio::{LibaioAction, LibaioEvent, LibaioSession};
use rust_cache_warmer::warming::tokio_async::{BufferedAction, BufferedEvent, BufferedSession};
use rust_cache_warmer::warming::{
    begin, classify_outcome, warm_file, Attempt, Backend, Method, Os, Platform, Session, Step,
    WarmError, WarmingOptions, WarmingResult,
};
use std::time::Duration;

/// A file as the simulated operating system holds it.
#[derive(Clone, Copy)]
struct SimFile {
    /// What measuring the size gives; `None` where it fails.
    measured: Option<u64>,
    /// The bytes that reads find.
    len: u64,
    /// Whether the file can be opened.
    readable: bool,
}

fn plain(len: u64) -> SimFile {
    SimFile { measured: Some(len), len, readable: true }
}

fn bytes_at(file: &SimFile, offset: u64, len: usize) -> usize {
    if offset >= file.len {
        0
    } else if file.len - offset < len as u64 {
        (file.len - offset) as usize
    } else {
        len
    }
}

fn finish<T>(r: Option<Result<WarmingResult, WarmError>>, _session: T) -> Result<WarmingResult, WarmError> {
    r.expect("the session is finished")
}

fn run_direct(mut s: DirectSession, file: &SimFile) -> Result<WarmingResult, WarmError> {
    loop {
        match s.action() {
            DirectAction::Open => {
                if file.readable {
                    s.advance(DirectEvent::Opened)
                } else {
                    s.advance(DirectEvent::OpenFailed(WarmError::PermissionDenied))
                }
            }
            DirectAction::Allocate { .. } => s.advance(DirectEvent::Allocated),
            DirectAction::Read(r) => s.advance(DirectEvent::ReadDone(bytes_at(file, r.offset, r.len))),
            DirectAction::Release => s.advance(DirectEvent::Released),
            DirectAction::Done(_) => {
                let r = s.result(Duration::from_millis(1));
                return finish(r, s);
            }
        }
    }
}

fn run_libaio(mut s: LibaioSession, file: &SimFile) -> Result<WarmingResult, WarmError> {
    let mut in_flight = Vec::new();
    loop {
        match s.action() {
            LibaioAction::Open => {
                if file.readable {
                    s.advance(LibaioEvent::Opened)
                } else {
                    s.advance(LibaioEvent::OpenFailed(WarmError::PermissionDenied))
                }
            }
            LibaioAction::StartRing => s.advance(LibaioEvent::RingStarted),
            LibaioAction::Allocate { .. } => s.advance(LibaioEvent::Allocated),
            LibaioAction::Submit => in_flight = s.plan_batch(),
            LibaioAction::Await => {
                let r = in_flight.remove(0);
                s.advance(LibaioEvent::Completed(bytes_at(file, r.offset, r.len)));
            }
            LibaioAction::Release => s.advance(LibaioEvent::Released),
            LibaioAction::Done(_) => {
                let r = s.result(Duration::from_millis(1));
                return finish(r, s);
            }
        }
    }
}

fn run_hints(mut s: HintSession, file: &SimFile, hints_work: bool) -> Result<WarmingResult, WarmError> {
    loop {
        match s.action() {
            HintAction::Open => {
                if file.readable {
                    s.advance(HintEvent::Opened)
                } else {
                    s.advance(HintEvent::OpenFailed(WarmError::PermissionDenied))
                }
            }
            HintAction::Advise { .. } | HintAction::AdviseMapped { .. } => s.advance(HintEvent::Advised(hints_work)),
            HintAction::MapFile { len } => s.advance(HintEvent::Mapped(len > 0)),
            HintAction::Unmap { .. } => s.advance(HintEvent::Unmapped),
            HintAction::Done(_) => {
                let r = s.result(Duration::from_millis(1));
                return finish(r, s);
            }
        }
    }
}

fn run_buffered(mut s: BufferedSession, file: &SimFile) -> Result<WarmingResult, WarmError> {
    let mut position = 0u64;
    loop {
        match s.action() {
            BufferedAction::Open => {
                if file.readable {
                    s.advance(BufferedEvent::Opened)
                } else {
                    s.advance(BufferedEvent::OpenFailed(WarmError::PermissionDenied))
                }
            }
            BufferedAction::Sample(r) => {
                assert!(r.offset < s.state().file_size);
                s.advance(BufferedEvent::ReadDone(bytes_at(file, r.offset, r.len)))
            }
            BufferedAction::ReadNext { len } => {
                let n = bytes_at(file, position, len);
                position += n as u64;
                s.advance(BufferedEvent::ReadDone(n));
            }
            BufferedAction::Advise { .. } => s.advance(BufferedEvent::Advised),
            BufferedAction::Done(_) => {
                let r = s.result(Duration::from_millis(1));
                return finish(r, s);
            }
        }
    }
}

fn method_of_tag(tag: &str) -> Method {
    let all = [
        Method::IoUringDirectSparse,
        Method::IoUringDirectFull,
        Method::LibaioDirectSparse,
        Method::LibaioDirectFull,
        Method::LinuxFadvise,
        Method::MacosMadvise,
        Method::OsHintsUnsupported,
        Method::TokioDirectSparse,
        Method::TokioDirectFull,
        Method::TokioSparse,
        Method::TokioFull,
    ];
    for m in all {
        if m.tag() == tag {
            return m;
        }
    }
    panic!("no method is reported as {}", tag);
}

/// The engine, with every backend simulated. Returns the backend that had
/// the last word, the attempts in order, and the outcome.
fn warm(
    file: &SimFile,
    file_size: u64,
    options: &WarmingOptions,
    platform: &Platform,
    hints_work: bool,
) -> (Backend, Vec<Backend>, Result<WarmingResult, WarmError>) {
    let mut tried = Vec::new();
    let mut last: Option<(Backend, Attempt)> = None;
    let mut outcome: Option<Result<WarmingResult, WarmError>> = None;
    loop {
        match warm_file(options, platform, last) {
            Step::Return => {
                let (backend, _) = last.expect("an attempt was made");
                return (backend, tried, outcome.expect("an attempt was made"));
            }
            Step::Try(backend) => {
                tried.push(backend);
                let result = match begin(backend, file_size, options, platform) {
                    Err(e) => Err(e),
                    Ok(Session::Direct(s)) => run_direct(s, file),
                    Ok(Session::Batched(s)) => run_libaio(s, file),
                    Ok(Session::Hints(s)) => run_hints(s, file, hints_work),
                    Ok(Session::Buffered(s)) => run_buffered(s, file),
                };
                if let Ok(w) = &result {
                    assert!(method_of_tag(w.method).backend() == backend);
                }
                let attempt = classify_outcome(match &result {
                    Ok(w) => Ok(w.success),
                    Err(e) => Err(*e),
                });
                last = Some((backend, attempt));
                outcome = Some(result);
            }
        }
    }
}

struct Run {
    counters: RunCounters,
    discovered: u64,
    tags: Vec<&'static str>,
    errors: usize,
    backends_invoked: usize,
}

fn run(
    files: &[SimFile],
    max_file_size: u64,
    batch_size: usize,
    options: &WarmingOptions,
    platform: &Platform,
    hints_work: bool,
) -> Run {
    let mut discovery: Discovery<SimFile> = Discovery::new(batch_size);
    let mut batches = Vec::new();
    for f in files {
        if let Some(b) = discovery.on_entry(*f, Some(EntryKind::File)) {
            batches.push(b);
        }
    }
    if let Some(b) = discovery.finish() {
        batches.push(b);
    }
    let mut counters = RunCounters::new();
    let mut tags = Vec::new();
    let mut errors = 0;
    let mut logged = 0;
    let mut backends_invoked = 0;
    for batch in batches {
        for file in batch {
            let plan = plan_file(file.measured, max_file_size);
            let last = match plan {
                FilePlan::SkipUnmeasured => {
                    errors += 1;
                    None
                }
                FilePlan::SkipTooLarge { .. } => None,
                FilePlan::Warm { file_size } => {
                    let (backend, tried, result) = warm(&file, file_size, options, platform, hints_work);
                    backends_invoked += tried.len();
                    let attempt = match &result {
                        Ok(w) => {
                            tags.push(w.method);
                            classify_outcome(Ok(w.success))
                        }
                        Err(e) => {
                            errors += 1;
                            classify_outcome(Err(*e))
                        }
                    };
                    Some((backend, attempt))
                }
            };
            let outcome = conclude(plan, last);
            assert_eq!(outcome.is_failure(), matches!(outcome, FileOutcome::Unmeasured)
                || matches!(outcome, FileOutcome::Attempted { attempt: Attempt::Failed, .. }));
            if outcome.is_failure() {
                logged += 1;
            }
            counters.record(outcome);
        }
    }
    assert_eq!(errors, logged);
    Run { counters, discovered: discovery.discovered(), tags, errors, backends_invoked }
}

fn no_options(sparse: u64) -> WarmingOptions {
    WarmingOptions { use_io_uring: false, use_libaio: false, use_direct_io: false, sparse_large_files: sparse }
}

fn bare_platform() -> Platform {
    Platform { os: Os::Other, io_uring: false, libaio: false }
}

#[test]
fn three_files_with_a_sparse_threshold() {
    let files = [plain(0), plain(100), plain(10_000_000)];
    let r = run(&files, 0, 1000, &no_options(1_000_000), &bare_platform(), false);
    assert_eq!(r.tags, vec!["tokio_full", "tokio_full", "tokio_sparse"]);
    assert_eq!(r.counters.bytes_warmed, 10_000_100);
    assert_eq!(r.counters.files_processed, 3);
    assert_eq!(r.discovered, 3);
    assert_eq!(r.counters.tokio.succeeded, 3);
    assert_eq!(r.counters.tokio.failed, 0);
    assert_eq!(r.counters.sizes.tiny, 2);
    assert_eq!(r.counters.sizes.large, 1);
    assert_eq!(r.errors, 0);
}

#[test]
fn unreadable_file_and_normal_file() {
    let unreadable = SimFile { measured: None, len: 700, readable: false };
    let r = run(&[unreadable, plain(500)], 0, 1000, &no_options(0), &bare_platform(), false);
    assert_eq!(r.counters.files_processed, 2);
    assert_eq!(r.counters.bytes_warmed, 500);
    assert_eq!(r.errors, 1);
    assert_eq!(r.discovered, 2);
    assert_eq!(r.tags, vec!["tokio_full"]);
}

#[test]
fn file_over_the_size_limit() {
    let r = run(&[plain(2000)], 1000, 1000, &no_options(0), &bare_platform(), false);
    assert_eq!(r.counters.files_processed, 1);
    assert_eq!(r.counters.bytes_warmed, 0);
    assert_eq!(r.backends_invoked, 0);
    assert!(r.tags.is_empty());
    assert_eq!(r.counters.tokio.succeeded + r.counters.tokio.failed, 0);
    assert_eq!(r.counters.os_hints.succeeded + r.counters.os_hints.failed, 0);
    assert_eq!(r.counters.io_uring.succeeded + r.counters.io_uring.failed, 0);
    assert_eq!(r.counters.libaio.succeeded + r.counters.libaio.failed, 0);
}

#[test]
fn unsupported_advanced_backend_falls_back() {
    let options = WarmingOptions { use_io_uring: true, use_libaio: false, use_direct_io: false, sparse_large_files: 0 };
    let linux = Platform { os: Os::Linux, io_uring: false, libaio: false };
    let file = plain(4000);
    let (backend, tried, result) = warm(&file, 4000, &options, &linux, true);
    assert_eq!(tried, vec![Backend::IoUring, Backend::OsHints]);
    assert_eq!(backend, Backend::OsHints);
    assert_eq!(result.unwrap().method, "linux_fadvise");
    let (backend, tried, result) = warm(&file, 4000, &options, &linux, false);
    assert_eq!(tried, vec![Backend::IoUring, Backend::OsHints, Backend::Tokio]);
    assert_eq!(backend, Backend::Tokio);
    let w = result.unwrap();
    assert_eq!(w.method, "tokio_full");
    assert_ne!(w.method, "io_uring_direct_full");
    assert!(w.success);
}

#[test]
fn both_advanced_backends_unsupported_walks_the_whole_chain() {
    let options = WarmingOptions { use_io_uring: true, use_libaio: true, use_direct_io: false, sparse_large_files: 0 };
    let linux = Platform { os: Os::Linux, io_uring: true, libaio: true };
    let (backend, tried, result) = warm(&plain(10), 10, &options, &linux, false);
    assert_eq!(tried, vec![Backend::IoUring, Backend::Libaio, Backend::OsHints, Backend::Tokio]);
    assert_eq!(backend, Backend::Tokio);
    assert_eq!(result.unwrap().method, "tokio_full");
}

#[test]
fn advanced_backend_that_runs_has_the_last_word() {
    let options = WarmingOptions { use_io_uring: true, use_libaio: true, use_direct_io: true, sparse_large_files: 1_000_000 };
    let linux = Platform { os: Os::Linux, io_uring: true, libaio: true };
    let (backend, tried, result) = warm(&plain(10_000_000), 10_000_000, &options, &linux, true);
    assert_eq!(tried, vec![Backend::IoUring]);
    assert_eq!(backend, Backend::IoUring);
    assert_eq!(result.unwrap().method, "io_uring_direct_sparse");
    let only_aio = Platform { io_uring: false, ..linux };
    let (backend, tried, result) = warm(&plain(100), 100, &options, &only_aio, true);
    assert_eq!(tried, vec![Backend::IoUring, Backend::Libaio]);
    assert_eq!(backend, Backend::Libaio);
    assert_eq!(result.unwrap().method, "libaio_direct_full");
}

#[test]
fn hard_error_of_an_advanced_backend_is_final() {
    let options = WarmingOptions { use_io_uring: true, use_libaio: true, use_direct_io: true, sparse_large_files: 0 };
    let linux = Platform { os: Os::Linux, io_uring: true, libaio: true };
    let locked = SimFile { measured: Some(100), len: 100, readable: false };
    let (backend, tried, result) = warm(&locked, 100, &options, &linux, true);
    assert_eq!(tried, vec![Backend::IoUring]);
    assert_eq!(backend, Backend::IoUring);
    assert_eq!(result.err(), Some(WarmError::PermissionDenied));
}

#[test]
fn file_that_cannot_be_opened_still_adds_its_measured_size() {
    let locked = SimFile { measured: Some(700), len: 700, readable: false };
    let r = run(&[locked, plain(500)], 0, 1, &no_options(0), &bare_platform(), false);
    assert_eq!(r.counters.files_processed, 2);
    assert_eq!(r.counters.bytes_warmed, 1200);
    assert_eq!(r.counters.tokio.failed, 1);
    assert_eq!(r.counters.tokio.succeeded, 1);
    assert_eq!(r.errors, 1);
}

#[test]
fn direct_generic_backend_on_linux() {
    let options = WarmingOptions { use_io_uring: false, use_libaio: false, use_direct_io: true, sparse_large_files: 1_000_000 };
    let linux = Platform { os: Os::Linux, io_uring: false, libaio: false };
    // The hints would work, and are not taken: the files are read.
    let r = run(&[plain(0), plain(100), plain(10_000_000)], 0, 2, &options, &linux, true);
    assert_eq!(r.tags, vec!["tokio_direct_full", "tokio_direct_full", "tokio_direct_sparse"]);
    assert_eq!(r.backends_invoked, 3);
    assert_eq!(r.counters.tokio.succeeded, 3);
    assert_eq!(r.counters.os_hints.succeeded + r.counters.os_hints.failed, 0);
    let r = run(&[plain(100)], 0, 2, &options, &linux, false);
    assert_eq!(r.tags, vec!["tokio_direct_full"]);
    // Off Linux there are no direct reads, so the hints come first.
    let mac = Platform { os: Os::MacOs, ..linux };
    let r = run(&[plain(100)], 0, 2, &options, &mac, true);
    assert_eq!(r.tags, vec!["macos_madvise"]);
    let r = run(&[plain(100)], 0, 2, &options, &mac, false);
    assert_eq!(r.tags, vec!["tokio_full"]);
}

#[test]
fn direct_reads_never_end_at_the_hints() {
    let linux = Platform { os: Os::Linux, io_uring: false, libaio: false };
    let file = plain(5_000_000);
    for io_uring in [false, true] {
        for libaio in [false, true] {
            let options = WarmingOptions { use_io_uring: io_uring, use_libaio: libaio, use_direct_io: true, sparse_large_files: 0 };
            let (backend, tried, result) = warm(&file, 5_000_000, &options, &linux, true);
            assert!(!tried.contains(&Backend::OsHints));
            assert_eq!(backend, Backend::Tokio);
            assert_eq!(*tried.last().unwrap(), Backend::Tokio);
            assert_eq!(tried.len(), 1 + io_uring as usize + libaio as usize);
            assert_eq!(result.unwrap().method, "tokio_direct_full");
        }
    }
}

#[test]
fn ring_that_cannot_be_set_up_sends_the_engine_on() {
    let options = WarmingOptions { use_io_uring: false, use_libaio: true, use_direct_io: true, sparse_large_files: 0 };
    let linux = Platform { os: Os::Linux, io_uring: false, libaio: true };
    assert_eq!(warm_file(&options, &linux, None), Step::Try(Backend::Libaio));
    let mut session = match begin(Backend::Libaio, 100, &options, &linux) {
        Ok(Session::Batched(s)) => s,
        _ => panic!("a batched session was expected"),
    };
    session.advance(LibaioEvent::Opened);
    session.advance(LibaioEvent::RingFailed);
    let result = session.result(Duration::from_millis(1)).unwrap();
    let attempt = classify_outcome(match &result {
        Ok(w) => Ok(w.success),
        Err(e) => Err(*e),
    });
    assert_eq!(attempt, Attempt::Unsupported);
    assert_eq!(warm_file(&options, &linux, Some((Backend::Libaio, attempt))), Step::Try(Backend::Tokio));
    assert_eq!(ring_set_up(false), Err(WarmError::Unsupported));
    assert_eq!(ring_set_up(true), Ok(()));
    assert_eq!(classify_outcome(Err(ring_set_up(false).unwrap_err())), Attempt::Unsupported);
}

#[test]
fn processed_equals_discovered_over_mixed_files() {
    let mut files = Vec::new();
    for i in 0..57u64 {
        files.push(match i % 4 {
            0 => plain(i * 1000),
            1 => SimFile { measured: None, len: 0, readable: false },
            2 => SimFile { measured: Some(i), len: i, readable: false },
            _ => plain(5_000_000 + i),
        });
    }
    for batch_size in [0usize, 1, 7, 57, 1000] {
        let r = run(&files, 4_000_000, batch_size, &no_options(0), &bare_platform(), false);
        assert_eq!(r.counters.files_processed, 57);
        assert_eq!(r.discovered, 57);
        assert_eq!(r.counters.files_processed, r.discovered);
    }
}

#[test]
fn hints_warm_the_file_on_linux_without_reading() {
    let options = no_options(0);
    let linux = Platform { os: Os::Linux, io_uring: false, libaio: false };
    let r = run(&[plain(123_456)], 0, 10, &options, &linux, true);
    assert_eq!(r.tags, vec!["linux_fadvise"]);
    assert_eq!(r.counters.os_hints.succeeded, 1);
    assert_eq!(r.counters.bytes_warmed, 123_456);
    let mac = Platform { os: Os::MacOs, ..linux };
    let r = run(&[plain(123_456)], 0, 10, &options, &mac, true);
    assert_eq!(r.tags, vec!["macos_madvise"]);
}
