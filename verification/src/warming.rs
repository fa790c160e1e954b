//! The warming engine: what it is configured with, what it reports, and the
//! order in which it tries its backends.

use vstd::prelude::*;
use crate::warming::direct::{DirectFamily, DirectSession, DirectState};
use crate::warming::fallback::{HintSession, HintState};
use crate::warming::libaio::{LibaioSession, LibaioState};
use crate::warming::sampling::wants_sparse;
use crate::warming::tokio_async::{BufferedSession, BufferedState, TokioSession};

pub mod direct;
pub mod fallback;
pub mod io_uring;
pub mod libaio;
pub mod sampling;
pub mod tokio_async;

verus! {

/// Warming strategy options.
#[derive(Debug, Clone, Copy)]
pub struct WarmingOptions {
    pub use_io_uring: bool,
    pub use_libaio: bool,
    pub use_direct_io: bool,
    pub sparse_large_files: u64,
}

/// Result of a warming operation.
#[derive(Debug)]
pub struct WarmingResult {
    pub method: &'static str,
    pub success: bool,
    pub duration: std::time::Duration,
}

/// Why a warming attempt ended without a result.
#[derive(Debug, Clone, Copy, PartialEq, Eq, Structural)]
pub enum WarmError {
    /// The backend is absent from this build or platform, or failed its
    /// runtime probe. A soft signal: the engine moves on to the next backend.
    Unsupported,
    NotFound,
    PermissionDenied,
    /// No aligned buffer could be obtained.
    OutOfMemory,
    Other,
}

/// The operating systems the engine tells apart.
#[derive(Debug, Clone, Copy, PartialEq, Eq, Structural)]
pub enum Os {
    Linux,
    MacOs,
    Other,
}

/// What the running process can do, probed once at startup.
#[derive(Debug, Clone, Copy)]
pub struct Platform {
    pub os: Os,
    /// The submission-queue backend is built in and passed its runtime probe.
    pub io_uring: bool,
    /// The AIO-ring backend is built in and passed its runtime probe.
    pub libaio: bool,
}

/// Which backend ran, and in which mode.
#[derive(Debug, Clone, Copy, PartialEq, Eq, Structural)]
pub enum Method {
    IoUringDirectSparse,
    IoUringDirectFull,
    LibaioDirectSparse,
    LibaioDirectFull,
    LinuxFadvise,
    MacosMadvise,
    OsHintsUnsupported,
    TokioDirectSparse,
    TokioDirectFull,
    TokioSparse,
    TokioFull,
}

impl Method {
    /// The identifier under which a method is reported.
    pub open spec fn spec_tag(self) -> Seq<char> {
        match self {
            Method::IoUringDirectSparse => "io_uring_direct_sparse"@,
            Method::IoUringDirectFull => "io_uring_direct_full"@,
            Method::LibaioDirectSparse => "libaio_direct_sparse"@,
            Method::LibaioDirectFull => "libaio_direct_full"@,
            Method::LinuxFadvise => "linux_fadvise"@,
            Method::MacosMadvise => "macos_madvise"@,
            Method::OsHintsUnsupported => "os_hints_unsupported"@,
            Method::TokioDirectSparse => "tokio_direct_sparse"@,
            Method::TokioDirectFull => "tokio_direct_full"@,
            Method::TokioSparse => "tokio_sparse"@,
            Method::TokioFull => "tokio_full"@,
        }
    }

    pub fn tag(self) -> (s: &'static str)
        ensures
            s@ == self.spec_tag(),
    {
        match self {
            Method::IoUringDirectSparse => "io_uring_direct_sparse",
            Method::IoUringDirectFull => "io_uring_direct_full",
            Method::LibaioDirectSparse => "libaio_direct_sparse",
            Method::LibaioDirectFull => "libaio_direct_full",
            Method::LinuxFadvise => "linux_fadvise",
            Method::MacosMadvise => "macos_madvise",
            Method::OsHintsUnsupported => "os_hints_unsupported",
            Method::TokioDirectSparse => "tokio_direct_sparse",
            Method::TokioDirectFull => "tokio_direct_full",
            Method::TokioSparse => "tokio_sparse",
            Method::TokioFull => "tokio_full",
        }
    }

    /// Whether the method samples the file instead of reading all of it.
    pub open spec fn spec_is_sparse(self) -> bool {
        self == Method::IoUringDirectSparse || self == Method::LibaioDirectSparse || self
            == Method::TokioDirectSparse || self == Method::TokioSparse
    }

    pub fn is_sparse(self) -> (b: bool)
        ensures
            b == self.spec_is_sparse(),
    {
        match self {
            Method::IoUringDirectSparse | Method::LibaioDirectSparse | Method::TokioDirectSparse
            | Method::TokioSparse => true,
            _ => false,
        }
    }

    /// The result that reports this method.
    pub fn report(self, success: bool, duration: std::time::Duration) -> (r: WarmingResult)
        ensures
            r.method@ == self.spec_tag(),
            r.success == success,
            r.duration == duration,
    {
        WarmingResult { method: self.tag(), success, duration }
    }
}

/// No two methods are reported under the same identifier.
pub proof fn lemma_tags_distinct(a: Method, b: Method)
    requires
        a != b,
    ensures
        a.spec_tag() != b.spec_tag(),
{
    reveal_strlit("io_uring_direct_sparse");
    reveal_strlit("io_uring_direct_full");
    reveal_strlit("libaio_direct_sparse");
    reveal_strlit("libaio_direct_full");
    reveal_strlit("linux_fadvise");
    reveal_strlit("macos_madvise");
    reveal_strlit("os_hints_unsupported");
    reveal_strlit("tokio_direct_sparse");
    reveal_strlit("tokio_direct_full");
    reveal_strlit("tokio_sparse");
    reveal_strlit("tokio_full");
    let x: Seq<char> = a.spec_tag();
    let y: Seq<char> = b.spec_tag();
    if x.len() == y.len() {
        // Tags of the same length start with different letters.
        assert(x[0] != y[0]);
    }
}

/// The backends, in the order in which the engine tries them.
#[derive(Debug, Clone, Copy, PartialEq, Eq, Structural)]
pub enum Backend {
    /// Reads through a kernel submission queue.
    IoUring,
    /// Reads through a kernel AIO ring.
    Libaio,
    /// Hints to the operating system, no reads.
    OsHints,
    /// Ordinary reads. Always available.
    Tokio,
}

/// What an attempt with one backend came to.
#[derive(Debug, Clone, Copy, PartialEq, Eq, Structural)]
pub enum Attempt {
    /// The backend ran and reports the file as warmed.
    Warmed,
    /// The backend ran and reports the file as not warmed.
    NotWarmed,
    /// The backend does not exist here.
    Unsupported,
    /// The backend failed in any other way.
    Failed,
}

/// What the engine does next.
#[derive(Debug, Clone, Copy, PartialEq, Eq, Structural)]
pub enum Step {
    /// Attempt the file with this backend.
    Try(Backend),
    /// Hand back what the last attempt came to, result or error.
    Return,
}

impl Backend {
    /// The place of a backend in the order of attempts.
    pub open spec fn rank(self) -> int {
        match self {
            Backend::IoUring => 0,
            Backend::Libaio => 1,
            Backend::OsHints => 2,
            Backend::Tokio => 3,
        }
    }

    /// Whether the engine attempts this backend at all: the two advanced
    /// ones on Linux where the options ask for them; the hints unless the
    /// file is to be read past the page cache, which is always a transfer of
    /// data and never a hint; the generic backend always.
    pub open spec fn attempted(self, options: WarmingOptions, platform: Platform) -> bool {
        match self {
            Backend::IoUring => platform.os == Os::Linux && options.use_io_uring,
            Backend::Libaio => platform.os == Os::Linux && options.use_libaio,
            Backend::OsHints => !tokio_async::reads_direct(options, platform),
            Backend::Tokio => true,
        }
    }
}

/// The first backend at or after rank `from` that the engine attempts.
pub open spec fn first_attempted(from: int, options: WarmingOptions, platform: Platform) -> Backend {
    if from <= 0 && Backend::IoUring.attempted(options, platform) {
        Backend::IoUring
    } else if from <= 1 && Backend::Libaio.attempted(options, platform) {
        Backend::Libaio
    } else if from <= 2 && Backend::OsHints.attempted(options, platform) {
        Backend::OsHints
    } else {
        Backend::Tokio
    }
}

/// Whether an attempt sends the engine on to the next backend. An advanced
/// backend is left behind only where it is unsupported: its result is final,
/// and so is any other error. The hints are left behind unless they warmed
/// the file. After the generic backend there is nothing to go on to.
pub open spec fn falls_through(backend: Backend, attempt: Attempt) -> bool {
    match backend {
        Backend::IoUring | Backend::Libaio => attempt == Attempt::Unsupported,
        Backend::OsHints => attempt != Attempt::Warmed,
        Backend::Tokio => false,
    }
}

/// The engine's next step, after the last attempt or, with `None`, at the
/// start.
pub open spec fn next_step(
    options: WarmingOptions,
    platform: Platform,
    last: Option<(Backend, Attempt)>,
) -> Step {
    match last {
        None => Step::Try(first_attempted(0, options, platform)),
        Some((backend, attempt)) => if falls_through(backend, attempt) {
            Step::Try(first_attempted(backend.rank() + 1, options, platform))
        } else {
            Step::Return
        },
    }
}

/// Selects the backend for a file, one attempt at a time: the submission
/// queue, the AIO ring, the hints, the ordinary reads. Where the file is to
/// be read past the page cache the hints are left out: they would warm the
/// file without a byte being read. The caller carries out each attempt and
/// comes back with what it came to, until it is told to hand the last
/// attempt's outcome back.
pub fn warm_file(options: &WarmingOptions, platform: &Platform, last: Option<(Backend, Attempt)>)
    -> (step: Step)
    ensures
        step == next_step(*options, *platform, last),
        step matches Step::Try(next) ==> next.attempted(*options, *platform) && (
        last matches Some((backend, attempt)) ==> backend.rank() < next.rank()),
        last matches Some((backend, attempt)) && backend != Backend::Tokio && attempt
            == Attempt::Unsupported ==> step is Try,
        tokio_async::reads_direct(*options, *platform) ==> step != Step::Try(Backend::OsHints),
{
    let linux: bool = platform.os == Os::Linux;
    let after_advanced: Backend = if options.use_direct_io && linux {
        Backend::Tokio
    } else {
        Backend::OsHints
    };
    match last {
        None => {
            if linux && options.use_io_uring {
                Step::Try(Backend::IoUring)
            } else if linux && options.use_libaio {
                Step::Try(Backend::Libaio)
            } else {
                Step::Try(after_advanced)
            }
        },
        Some((Backend::IoUring, Attempt::Unsupported)) => {
            if linux && options.use_libaio {
                Step::Try(Backend::Libaio)
            } else {
                Step::Try(after_advanced)
            }
        },
        Some((Backend::Libaio, Attempt::Unsupported)) => Step::Try(after_advanced),
        Some((Backend::OsHints, attempt)) => {
            if attempt == Attempt::Warmed {
                Step::Return
            } else {
                Step::Try(Backend::Tokio)
            }
        },
        _ => Step::Return,
    }
}

/// The order of the backends is fixed: the engine only ever moves to a
/// backend of higher rank, one that it attempts under these options, and it
/// skips none that it attempts.
pub proof fn lemma_fallback_order(
    options: WarmingOptions,
    platform: Platform,
    backend: Backend,
    attempt: Attempt,
)
    ensures
        next_step(options, platform, Some((backend, attempt))) matches Step::Try(next) ==> {
            &&& backend.rank() < next.rank()
            &&& next.attempted(options, platform)
            &&& forall|b: Backend|
                backend.rank() < b.rank() < next.rank() ==> !#[trigger] b.attempted(
                    options,
                    platform,
                )
        },
        next_step(options, platform, None) matches Step::Try(first) && first.attempted(
            options,
            platform,
        ) && forall|b: Backend|
            b.rank() < first.rank() ==> !#[trigger] b.attempted(options, platform),
{
}

/// Where the file is to be read past the page cache, the hints are never
/// taken in place of a transfer of data: whatever the attempts came to, the
/// engine does not turn to them, and what it turns to after the advanced
/// backends is the generic backend, which then reads past the page cache.
pub proof fn lemma_direct_skips_hints(
    options: WarmingOptions,
    platform: Platform,
    last: Option<(Backend, Attempt)>,
)
    requires
        tokio_async::reads_direct(options, platform),
    ensures
        next_step(options, platform, last) != Step::Try(Backend::OsHints),
        !chain(options, platform).contains(Backend::OsHints),
        last matches Some((backend, attempt)) && backend != Backend::Tokio && attempt
            == Attempt::Unsupported && !Backend::Libaio.attempted(options, platform) ==> next_step(
            options,
            platform,
            last,
        ) == Step::Try(Backend::Tokio),
        next_step(options, platform, Some((Backend::Libaio, Attempt::Unsupported))) == Step::Try(
            Backend::Tokio,
        ),
{
}

/// An unsupported backend never ends the run: the engine goes on to the next
/// one, down to the generic backend, which is always there.
pub proof fn lemma_unsupported_falls_through(
    options: WarmingOptions,
    platform: Platform,
    backend: Backend,
)
    requires
        backend != Backend::Tokio,
    ensures
        next_step(options, platform, Some((backend, Attempt::Unsupported))) is Try,
        next_step(options, platform, Some((Backend::OsHints, Attempt::Unsupported))) == Step::Try(
            Backend::Tokio,
        ),
{
}

/// The backends that the engine goes through while each reports itself
/// unsupported: the submission queue, the AIO ring and the hints where they
/// are attempted, the ordinary reads.
pub open spec fn chain(options: WarmingOptions, platform: Platform) -> Seq<Backend> {
    (if Backend::IoUring.attempted(options, platform) {
        seq![Backend::IoUring]
    } else {
        Seq::<Backend>::empty()
    }) + (if Backend::Libaio.attempted(options, platform) {
        seq![Backend::Libaio]
    } else {
        Seq::<Backend>::empty()
    }) + (if Backend::OsHints.attempted(options, platform) {
        seq![Backend::OsHints]
    } else {
        Seq::<Backend>::empty()
    }) + seq![Backend::Tokio]
}

/// The engine walks the chain: it starts with the first backend of it, an
/// unsupported backend sends it on to the next, and the chain ends with the
/// generic backend, whose outcome is final whatever it is.
pub proof fn lemma_engine_walks_chain(options: WarmingOptions, platform: Platform, i: int)
    requires
        0 <= i < chain(options, platform).len(),
    ensures
        1 <= chain(options, platform).len() <= 4,
        next_step(options, platform, None) == Step::Try(chain(options, platform)[0]),
        i + 1 < chain(options, platform).len() ==> next_step(
            options,
            platform,
            Some((chain(options, platform)[i], Attempt::Unsupported)),
        ) == Step::Try(chain(options, platform)[i + 1]),
        i + 1 == chain(options, platform).len() ==> chain(options, platform)[i] == Backend::Tokio,
        forall|attempt: Attempt|
            next_step(options, platform, Some((Backend::Tokio, attempt))) == Step::Return,
{
}

/// What an attempt came to, read off the class of its error.
pub open spec fn attempt_of_error(error: WarmError) -> Attempt {
    if error == WarmError::Unsupported {
        Attempt::Unsupported
    } else {
        Attempt::Failed
    }
}

/// What an attempt came to, read off its outcome.
pub open spec fn attempt_of(outcome: Result<bool, WarmError>) -> Attempt {
    match outcome {
        Ok(true) => Attempt::Warmed,
        Ok(false) => Attempt::NotWarmed,
        Err(e) => attempt_of_error(e),
    }
}

/// What an attempt came to, given whether it warmed the file or how it
/// failed.
pub fn classify_outcome(outcome: Result<bool, WarmError>) -> (attempt: Attempt)
    ensures
        attempt == attempt_of(outcome),
{
    match outcome {
        Ok(true) => Attempt::Warmed,
        Ok(false) => Attempt::NotWarmed,
        Err(WarmError::Unsupported) => Attempt::Unsupported,
        Err(_) => Attempt::Failed,
    }
}

impl Method {
    /// The backend that a method belongs to.
    pub open spec fn spec_backend(self) -> Backend {
        match self {
            Method::IoUringDirectSparse | Method::IoUringDirectFull => Backend::IoUring,
            Method::LibaioDirectSparse | Method::LibaioDirectFull => Backend::Libaio,
            Method::LinuxFadvise | Method::MacosMadvise | Method::OsHintsUnsupported => Backend::OsHints,
            Method::TokioDirectSparse | Method::TokioDirectFull | Method::TokioSparse
            | Method::TokioFull => Backend::Tokio,
        }
    }

    pub fn backend(self) -> (b: Backend)
        ensures
            b == self.spec_backend(),
    {
        match self {
            Method::IoUringDirectSparse | Method::IoUringDirectFull => Backend::IoUring,
            Method::LibaioDirectSparse | Method::LibaioDirectFull => Backend::Libaio,
            Method::LinuxFadvise | Method::MacosMadvise | Method::OsHintsUnsupported => Backend::OsHints,
            Method::TokioDirectSparse | Method::TokioDirectFull | Method::TokioSparse
            | Method::TokioFull => Backend::Tokio,
        }
    }
}

/// The session of one attempt: what there is to do for a file with one
/// backend.
pub enum Session {
    /// Cache-bypassing reads, one at a time.
    Direct(DirectSession),
    /// Cache-bypassing reads in batches.
    Batched(LibaioSession),
    /// Hints, no reads.
    Hints(HintSession),
    /// Reads through the page cache.
    Buffered(BufferedSession),
}

impl Session {
    /// The method under which the session reports once it ran.
    pub open spec fn method(self) -> Method {
        match self {
            Session::Direct(s) => s@.method(),
            Session::Batched(s) => s@.method(),
            Session::Hints(s) => s@.method(),
            Session::Buffered(s) => s@.method(),
        }
    }

    /// Whether this is the session with which an attempt of `backend` on a
    /// file of `file_size` bytes starts.
    pub open spec fn starts(
        self,
        backend: Backend,
        file_size: u64,
        options: WarmingOptions,
        platform: Platform,
    ) -> bool {
        let sparse: bool = wants_sparse(file_size, options.sparse_large_files);
        match (backend, self) {
            (Backend::IoUring, Session::Direct(s)) => s@ == DirectState::start(
                DirectFamily::IoUring,
                file_size,
                sparse,
            ),
            (Backend::Libaio, Session::Batched(s)) => s@ == LibaioState::start(file_size, sparse),
            (Backend::OsHints, Session::Hints(s)) => s@ == HintState::start(platform.os, file_size),
            (Backend::Tokio, Session::Direct(s)) => tokio_async::reads_direct(options, platform)
                && s@ == DirectState::start(DirectFamily::Tokio, file_size, sparse),
            (Backend::Tokio, Session::Buffered(s)) => !tokio_async::reads_direct(options, platform)
                && s@ == BufferedState::start(file_size, sparse, platform.os == Os::Linux),
            _ => false,
        }
    }
}

/// Whether a backend takes a file on under these options on this platform.
/// The two advanced backends do where they are available and
/// cache-bypassing reads were asked for; the other two always do.
pub open spec fn supported(backend: Backend, options: WarmingOptions, platform: Platform) -> bool {
    match backend {
        Backend::IoUring => io_uring::accepts(options, platform),
        Backend::Libaio => libaio::accepts(options, platform),
        Backend::OsHints | Backend::Tokio => true,
    }
}

/// Begins an attempt: the session of `backend` for a file of `file_size`
/// bytes, or the report that the backend is not supported.
pub fn begin(backend: Backend, file_size: u64, options: &WarmingOptions, platform: &Platform) -> (r:
    Result<Session, WarmError>)
    ensures
        r is Ok <==> supported(backend, *options, *platform),
        r matches Ok(session) ==> session.starts(backend, file_size, *options, *platform),
        r matches Err(e) ==> e == WarmError::Unsupported,
{
    match backend {
        Backend::IoUring => match io_uring::warm_file(file_size, options, platform) {
            Ok(session) => Ok(Session::Direct(session)),
            Err(e) => Err(e),
        },
        Backend::Libaio => match libaio::warm_file(file_size, options, platform) {
            Ok(session) => Ok(Session::Batched(session)),
            Err(e) => Err(e),
        },
        Backend::OsHints => Ok(
            Session::Hints(fallback::warm_with_os_hints(platform.os, file_size)),
        ),
        Backend::Tokio => match tokio_async::warm_file(file_size, options, platform) {
            TokioSession::Direct(session) => Ok(Session::Direct(session)),
            TokioSession::Buffered(session) => Ok(Session::Buffered(session)),
        },
    }
}

/// What a session reports is a method of the backend that was attempted,
/// never of one that was only asked for: the tag of a result names what ran.
pub proof fn lemma_method_names_what_ran(
    session: Session,
    backend: Backend,
    file_size: u64,
    options: WarmingOptions,
    platform: Platform,
)
    requires
        session.starts(backend, file_size, options, platform),
    ensures
        session.method().spec_backend() == backend,
        session.method().spec_is_sparse() ==> wants_sparse(file_size, options.sparse_large_files),
{
}

} // verus!
