//! The pipeline around the engine: what is done with each discovered file,
//! and what a run adds up to.

use vstd::prelude::*;
use crate::discovery::{lemma_discovery_run, DiscoveryState};
use crate::warming::{Attempt, Backend};

verus! {

/// `a + b`, stopping at the largest value a counter can hold.
pub open spec fn sat_add(a: u64, b: u64) -> u64 {
    if a + b > u64::MAX {
        u64::MAX
    } else {
        (a + b) as u64
    }
}

/// A count of `n` things, as a counter that stops at its largest value
/// holds it.
pub open spec fn sat_count(n: nat) -> u64 {
    if n > u64::MAX {
        u64::MAX
    } else {
        n as u64
    }
}

/// The classes of file size that a run's histogram tells apart.
#[derive(Debug, Clone, Copy, PartialEq, Eq, Structural)]
pub enum SizeBucket {
    /// Up to 4 KiB.
    Tiny,
    /// Over 4 KiB, up to 64 KiB.
    Small,
    /// Over 64 KiB, up to 1 MiB.
    Medium,
    /// Over 1 MiB, up to 100 MiB.
    Large,
    /// Over 100 MiB.
    Huge,
}

impl SizeBucket {
    pub open spec fn of(file_size: u64) -> SizeBucket {
        if file_size <= 4096 {
            SizeBucket::Tiny
        } else if file_size <= 65536 {
            SizeBucket::Small
        } else if file_size <= 1048576 {
            SizeBucket::Medium
        } else if file_size <= 104857600 {
            SizeBucket::Large
        } else {
            SizeBucket::Huge
        }
    }

    /// The name under which a class is reported.
    pub open spec fn spec_label(self) -> Seq<char> {
        match self {
            SizeBucket::Tiny => "tiny"@,
            SizeBucket::Small => "small"@,
            SizeBucket::Medium => "medium"@,
            SizeBucket::Large => "large"@,
            SizeBucket::Huge => "huge"@,
        }
    }

    pub fn label(self) -> (s: &'static str)
        ensures
            s@ == self.spec_label(),
    {
        match self {
            SizeBucket::Tiny => "tiny",
            SizeBucket::Small => "small",
            SizeBucket::Medium => "medium",
            SizeBucket::Large => "large",
            SizeBucket::Huge => "huge",
        }
    }
}

/// The size class of a file.
pub fn size_category(file_size: u64) -> (bucket: SizeBucket)
    ensures
        bucket == SizeBucket::of(file_size),
{
    if file_size <= 4096 {
        SizeBucket::Tiny
    } else if file_size <= 65536 {
        SizeBucket::Small
    } else if file_size <= 1048576 {
        SizeBucket::Medium
    } else if file_size <= 104857600 {
        SizeBucket::Large
    } else {
        SizeBucket::Huge
    }
}

/// What is done with one discovered file.
#[derive(Debug, Clone, Copy, PartialEq, Eq, Structural)]
pub enum FilePlan {
    /// The size could not be measured: the file is counted and left alone.
    SkipUnmeasured,
    /// The file is over the size limit: it is counted and left alone.
    SkipTooLarge { file_size: u64 },
    /// The file goes to the engine.
    Warm { file_size: u64 },
}

/// Whether a file of `file_size` bytes is over the limit. A limit of zero is
/// no limit.
pub open spec fn over_limit(file_size: u64, max_file_size: u64) -> bool {
    max_file_size > 0 && file_size > max_file_size
}

pub open spec fn file_plan(measured: Option<u64>, max_file_size: u64) -> FilePlan {
    match measured {
        None => FilePlan::SkipUnmeasured,
        Some(file_size) => if over_limit(file_size, max_file_size) {
            FilePlan::SkipTooLarge { file_size }
        } else {
            FilePlan::Warm { file_size }
        },
    }
}

/// Decides what is done with a file, from its measured size, `None` where
/// measuring failed, and the configured size limit.
pub fn plan_file(measured: Option<u64>, max_file_size: u64) -> (plan: FilePlan)
    ensures
        plan == file_plan(measured, max_file_size),
{
    match measured {
        None => FilePlan::SkipUnmeasured,
        Some(file_size) => {
            if max_file_size > 0 && file_size > max_file_size {
                FilePlan::SkipTooLarge { file_size }
            } else {
                FilePlan::Warm { file_size }
            }
        },
    }
}

/// How one discovered file ended. Every file ends in exactly one of these.
#[derive(Debug, Clone, Copy, PartialEq, Eq, Structural)]
pub enum FileOutcome {
    /// Its size could not be measured.
    Unmeasured,
    /// It was over the size limit. No backend was invoked.
    TooLarge { file_size: u64 },
    /// The engine was invoked; this is the backend whose outcome it handed
    /// back, and what that attempt came to.
    Attempted { file_size: u64, backend: Backend, attempt: Attempt },
}

impl FileOutcome {
    /// The bytes that the file adds to the bytes warmed: its measured size
    /// once the engine was invoked, whatever came of it, and nothing
    /// otherwise.
    pub open spec fn bytes(self) -> u64 {
        match self {
            FileOutcome::Attempted { file_size, .. } => file_size,
            _ => 0,
        }
    }

    /// Whether the engine was invoked on the file.
    pub open spec fn invoked(self) -> bool {
        self is Attempted
    }

    /// The measured size of the file, where it was measured.
    pub open spec fn measured(self) -> Option<u64> {
        match self {
            FileOutcome::Unmeasured => None,
            FileOutcome::TooLarge { file_size } => Some(file_size),
            FileOutcome::Attempted { file_size, .. } => Some(file_size),
        }
    }

    /// What the attempt of `backend` came to, where that backend had the
    /// last word on the file.
    pub open spec fn attempt_of(self, backend: Backend) -> Option<Attempt> {
        match self {
            FileOutcome::Attempted { backend: last, attempt, .. } if last == backend => Some(
                attempt,
            ),
            _ => None,
        }
    }

    /// Whether the file ended in an error to be logged: its size could not
    /// be measured, or the engine handed back an error.
    pub open spec fn failed(self) -> bool {
        match self {
            FileOutcome::Unmeasured => true,
            FileOutcome::TooLarge { .. } => false,
            FileOutcome::Attempted { attempt, .. } => attempt == Attempt::Failed || attempt
                == Attempt::Unsupported,
        }
    }

    pub fn is_failure(&self) -> (b: bool)
        ensures
            b == self.failed(),
    {
        match self {
            FileOutcome::Unmeasured => true,
            FileOutcome::TooLarge { .. } => false,
            FileOutcome::Attempted { attempt, .. } => match attempt {
                Attempt::Failed | Attempt::Unsupported => true,
                _ => false,
            },
        }
    }
}

/// How a file ended, from what was planned for it and the last attempt that
/// the engine made on it. A skipped file ends as its plan says, whatever is
/// reported of attempts. A file that went to the engine ends with the backend
/// that had the last word and what its attempt came to; where no attempt is
/// reported of it, it ends as a failure of the generic backend, the one that
/// is always there.
pub open spec fn file_outcome(plan: FilePlan, last: Option<(Backend, Attempt)>) -> FileOutcome {
    match plan {
        FilePlan::SkipUnmeasured => FileOutcome::Unmeasured,
        FilePlan::SkipTooLarge { file_size } => FileOutcome::TooLarge { file_size },
        FilePlan::Warm { file_size } => match last {
            Some((backend, attempt)) => FileOutcome::Attempted { file_size, backend, attempt },
            None => FileOutcome::Attempted {
                file_size,
                backend: Backend::Tokio,
                attempt: Attempt::Failed,
            },
        },
    }
}

/// Concludes a file: what goes into the counters for it.
pub fn conclude(plan: FilePlan, last: Option<(Backend, Attempt)>) -> (outcome: FileOutcome)
    ensures
        outcome == file_outcome(plan, last),
        outcome.invoked() <==> plan is Warm,
        plan matches FilePlan::Warm { file_size } ==> outcome.bytes() == file_size,
{
    match plan {
        FilePlan::SkipUnmeasured => FileOutcome::Unmeasured,
        FilePlan::SkipTooLarge { file_size } => FileOutcome::TooLarge { file_size },
        FilePlan::Warm { file_size } => match last {
            Some((backend, attempt)) => FileOutcome::Attempted { file_size, backend, attempt },
            None => FileOutcome::Attempted {
                file_size,
                backend: Backend::Tokio,
                attempt: Attempt::Failed,
            },
        },
    }
}

/// A warming that took longer than this many milliseconds is reported as
/// slow.
pub const SLOW_WARMING_MILLIS: u64 = 100;

/// Whether a warming that took `elapsed_millis` milliseconds is reported as
/// slow.
pub fn is_slow_warming(elapsed_millis: u128) -> (slow: bool)
    ensures
        slow == (elapsed_millis > SLOW_WARMING_MILLIS),
{
    elapsed_millis > SLOW_WARMING_MILLIS as u128
}

/// How often a backend's outcome was the final one of a file.
#[derive(Debug, Clone, Copy, PartialEq, Eq, Structural)]
pub struct BackendTally {
    /// Files that the backend warmed.
    pub succeeded: u64,
    /// Files on which it failed, or that it did not warm.
    pub failed: u64,
}

impl BackendTally {
    pub open spec fn recorded(self, attempt: Attempt) -> BackendTally {
        if attempt == Attempt::Warmed {
            BackendTally { succeeded: sat_add(self.succeeded, 1), ..self }
        } else {
            BackendTally { failed: sat_add(self.failed, 1), ..self }
        }
    }

    /// The tally after a file on which this backend had the last word, if
    /// it had.
    pub open spec fn counted(self, attempt: Option<Attempt>) -> BackendTally {
        match attempt {
            Some(a) => self.recorded(a),
            None => self,
        }
    }

    pub open spec fn merged(self, other: BackendTally) -> BackendTally {
        BackendTally {
            succeeded: sat_add(self.succeeded, other.succeeded),
            failed: sat_add(self.failed, other.failed),
        }
    }

    fn record(&mut self, attempt: Attempt)
        ensures
            *final(self) == old(self).recorded(attempt),
    {
        if attempt == Attempt::Warmed {
            self.succeeded = self.succeeded.saturating_add(1);
        } else {
            self.failed = self.failed.saturating_add(1);
        }
    }

    fn merge(&mut self, other: &BackendTally)
        ensures
            *final(self) == old(self).merged(*other),
    {
        self.succeeded = self.succeeded.saturating_add(other.succeeded);
        self.failed = self.failed.saturating_add(other.failed);
    }
}

/// How many files fell into each size class.
#[derive(Debug, Clone, Copy, PartialEq, Eq, Structural)]
pub struct SizeHistogram {
    pub tiny: u64,
    pub small: u64,
    pub medium: u64,
    pub large: u64,
    pub huge: u64,
}

impl SizeHistogram {
    pub open spec fn recorded(self, bucket: SizeBucket) -> SizeHistogram {
        match bucket {
            SizeBucket::Tiny => SizeHistogram { tiny: sat_add(self.tiny, 1), ..self },
            SizeBucket::Small => SizeHistogram { small: sat_add(self.small, 1), ..self },
            SizeBucket::Medium => SizeHistogram { medium: sat_add(self.medium, 1), ..self },
            SizeBucket::Large => SizeHistogram { large: sat_add(self.large, 1), ..self },
            SizeBucket::Huge => SizeHistogram { huge: sat_add(self.huge, 1), ..self },
        }
    }

    /// The histogram after a file of this size, if it was measured.
    pub open spec fn counted(self, measured: Option<u64>) -> SizeHistogram {
        match measured {
            Some(file_size) => self.recorded(SizeBucket::of(file_size)),
            None => self,
        }
    }

    pub open spec fn merged(self, other: SizeHistogram) -> SizeHistogram {
        SizeHistogram {
            tiny: sat_add(self.tiny, other.tiny),
            small: sat_add(self.small, other.small),
            medium: sat_add(self.medium, other.medium),
            large: sat_add(self.large, other.large),
            huge: sat_add(self.huge, other.huge),
        }
    }

    fn record(&mut self, bucket: SizeBucket)
        ensures
            *final(self) == old(self).recorded(bucket),
    {
        match bucket {
            SizeBucket::Tiny => {
                self.tiny = self.tiny.saturating_add(1);
            },
            SizeBucket::Small => {
                self.small = self.small.saturating_add(1);
            },
            SizeBucket::Medium => {
                self.medium = self.medium.saturating_add(1);
            },
            SizeBucket::Large => {
                self.large = self.large.saturating_add(1);
            },
            SizeBucket::Huge => {
                self.huge = self.huge.saturating_add(1);
            },
        }
    }

    fn merge(&mut self, other: &SizeHistogram)
        ensures
            *final(self) == old(self).merged(*other),
    {
        self.tiny = self.tiny.saturating_add(other.tiny);
        self.small = self.small.saturating_add(other.small);
        self.medium = self.medium.saturating_add(other.medium);
        self.large = self.large.saturating_add(other.large);
        self.huge = self.huge.saturating_add(other.huge);
    }
}

/// The aggregates of a run. Every counter stops at its largest value.
#[derive(Debug, Clone, Copy, PartialEq, Eq, Structural)]
pub struct RunCounters {
    /// The measured sizes of the files on which the engine was invoked.
    pub bytes_warmed: u64,
    /// The files that reached their end, however.
    pub files_processed: u64,
    pub io_uring: BackendTally,
    pub libaio: BackendTally,
    pub os_hints: BackendTally,
    pub tokio: BackendTally,
    /// The size classes of the files whose size was measured.
    pub sizes: SizeHistogram,
}

impl RunCounters {
    pub open spec fn zero() -> RunCounters {
        RunCounters {
            bytes_warmed: 0,
            files_processed: 0,
            io_uring: BackendTally { succeeded: 0, failed: 0 },
            libaio: BackendTally { succeeded: 0, failed: 0 },
            os_hints: BackendTally { succeeded: 0, failed: 0 },
            tokio: BackendTally { succeeded: 0, failed: 0 },
            sizes: SizeHistogram { tiny: 0, small: 0, medium: 0, large: 0, huge: 0 },
        }
    }

    /// The tally of one backend.
    pub open spec fn tally(self, backend: Backend) -> BackendTally {
        match backend {
            Backend::IoUring => self.io_uring,
            Backend::Libaio => self.libaio,
            Backend::OsHints => self.os_hints,
            Backend::Tokio => self.tokio,
        }
    }

    /// The counters after one more file ended: one more file processed, its
    /// bytes added, its size class counted where it was measured, and one
    /// more success or failure for the backend that had the last word.
    pub open spec fn recorded(self, outcome: FileOutcome) -> RunCounters {
        RunCounters {
            bytes_warmed: sat_add(self.bytes_warmed, outcome.bytes()),
            files_processed: sat_add(self.files_processed, 1),
            io_uring: self.io_uring.counted(outcome.attempt_of(Backend::IoUring)),
            libaio: self.libaio.counted(outcome.attempt_of(Backend::Libaio)),
            os_hints: self.os_hints.counted(outcome.attempt_of(Backend::OsHints)),
            tokio: self.tokio.counted(outcome.attempt_of(Backend::Tokio)),
            sizes: self.sizes.counted(outcome.measured()),
        }
    }

    /// The sum of two sets of counters.
    pub open spec fn merged(self, other: RunCounters) -> RunCounters {
        RunCounters {
            bytes_warmed: sat_add(self.bytes_warmed, other.bytes_warmed),
            files_processed: sat_add(self.files_processed, other.files_processed),
            io_uring: self.io_uring.merged(other.io_uring),
            libaio: self.libaio.merged(other.libaio),
            os_hints: self.os_hints.merged(other.os_hints),
            tokio: self.tokio.merged(other.tokio),
            sizes: self.sizes.merged(other.sizes),
        }
    }

    /// The counters of a run in which these files ended, in this order.
    pub open spec fn after(outcomes: Seq<FileOutcome>) -> RunCounters
        decreases outcomes.len(),
    {
        if outcomes.len() == 0 {
            RunCounters::zero()
        } else {
            RunCounters::after(outcomes.drop_last()).recorded(outcomes.last())
        }
    }

    /// Counters at the start of a run.
    pub fn new() -> (counters: RunCounters)
        ensures
            counters == RunCounters::zero(),
    {
        RunCounters {
            bytes_warmed: 0,
            files_processed: 0,
            io_uring: BackendTally { succeeded: 0, failed: 0 },
            libaio: BackendTally { succeeded: 0, failed: 0 },
            os_hints: BackendTally { succeeded: 0, failed: 0 },
            tokio: BackendTally { succeeded: 0, failed: 0 },
            sizes: SizeHistogram { tiny: 0, small: 0, medium: 0, large: 0, huge: 0 },
        }
    }

    /// Takes in the end of one file. Whatever the end, the file is counted
    /// as processed, once. Only a file on which the engine was invoked adds
    /// bytes, and to the tally of a backend.
    pub fn record(&mut self, outcome: FileOutcome)
        ensures
            *final(self) == old(self).recorded(outcome),
            final(self).files_processed == sat_add(old(self).files_processed, 1),
            final(self).bytes_warmed == sat_add(old(self).bytes_warmed, outcome.bytes()),
            !outcome.invoked() ==> final(self).bytes_warmed == old(self).bytes_warmed,
            !outcome.invoked() ==> final(self).io_uring == old(self).io_uring,
            !outcome.invoked() ==> final(self).libaio == old(self).libaio,
            !outcome.invoked() ==> final(self).os_hints == old(self).os_hints,
            !outcome.invoked() ==> final(self).tokio == old(self).tokio,
    {
        self.files_processed = self.files_processed.saturating_add(1);
        match outcome {
            FileOutcome::Unmeasured => {},
            FileOutcome::TooLarge { file_size } => {
                self.sizes.record(size_category(file_size));
            },
            FileOutcome::Attempted { file_size, backend, attempt } => {
                self.bytes_warmed = self.bytes_warmed.saturating_add(file_size);
                self.sizes.record(size_category(file_size));
                match backend {
                    Backend::IoUring => self.io_uring.record(attempt),
                    Backend::Libaio => self.libaio.record(attempt),
                    Backend::OsHints => self.os_hints.record(attempt),
                    Backend::Tokio => self.tokio.record(attempt),
                }
            },
        }
    }

    /// Adds another set of counters to these.
    pub fn merge(&mut self, other: &RunCounters)
        ensures
            *final(self) == old(self).merged(*other),
    {
        self.bytes_warmed = self.bytes_warmed.saturating_add(other.bytes_warmed);
        self.files_processed = self.files_processed.saturating_add(other.files_processed);
        self.io_uring.merge(&other.io_uring);
        self.libaio.merge(&other.libaio);
        self.os_hints.merge(&other.os_hints);
        self.tokio.merge(&other.tokio);
        self.sizes.merge(&other.sizes);
    }

    /// The mean size of the files processed, rounded down; zero where none
    /// was.
    pub fn average_file_size(&self) -> (mean: u64)
        ensures
            self.files_processed == 0 ==> mean == 0,
            self.files_processed > 0 ==> mean == self.bytes_warmed / self.files_processed,
    {
        if self.files_processed > 0 {
            self.bytes_warmed / self.files_processed
        } else {
            0
        }
    }
}

/// What a run came to.
#[derive(Debug, Clone, Copy, PartialEq, Eq, Structural)]
pub struct RunSummary {
    pub files_discovered: u64,
    pub files_processed: u64,
    pub bytes_warmed: u64,
    /// The mean size of the files processed, rounded down.
    pub average_file_size: u64,
    /// Every discovered file was processed.
    pub complete: bool,
}

/// Sums a run up, from its counters and the number of files that the
/// discovery found.
pub fn summarize(counters: &RunCounters, files_discovered: u64) -> (summary: RunSummary)
    ensures
        summary.files_discovered == files_discovered,
        summary.files_processed == counters.files_processed,
        summary.bytes_warmed == counters.bytes_warmed,
        summary.average_file_size == if counters.files_processed == 0 {
            0
        } else {
            counters.bytes_warmed / counters.files_processed
        },
        summary.complete == (counters.files_processed == files_discovered),
{
    RunSummary {
        files_discovered,
        files_processed: counters.files_processed,
        bytes_warmed: counters.bytes_warmed,
        average_file_size: counters.average_file_size(),
        complete: counters.files_processed == files_discovered,
    }
}

/// From the measured size to the counters: a file over the limit, or one
/// whose size could not be measured, adds no bytes and nothing to any
/// backend, whatever is reported of attempts; any other file adds its
/// measured size.
pub proof fn lemma_plan_decides_bytes(
    counters: RunCounters,
    measured: Option<u64>,
    max_file_size: u64,
    last: Option<(Backend, Attempt)>,
    backend: Backend,
)
    ensures
        counters.recorded(
            file_outcome(file_plan(measured, max_file_size), last),
        ).files_processed == sat_add(counters.files_processed, 1),
        measured is Some && !over_limit(measured.unwrap(), max_file_size) ==> counters.recorded(
            file_outcome(file_plan(measured, max_file_size), last),
        ).bytes_warmed == sat_add(counters.bytes_warmed, measured.unwrap()),
        measured is None || over_limit(measured.unwrap(), max_file_size) ==> counters.recorded(
            file_outcome(file_plan(measured, max_file_size), last),
        ).bytes_warmed == counters.bytes_warmed,
        measured is None || over_limit(measured.unwrap(), max_file_size) ==> counters.recorded(
            file_outcome(file_plan(measured, max_file_size), last),
        ).tally(backend) == counters.tally(backend),
{
}

/// Every file that ends is counted as processed exactly once, whichever way
/// it ended: a run in which `n` files ended has processed `n` files.
pub proof fn lemma_every_file_counted_once(outcomes: Seq<FileOutcome>)
    ensures
        RunCounters::after(outcomes).files_processed == sat_count(outcomes.len()),
    decreases outcomes.len(),
{
    if outcomes.len() > 0 {
        lemma_every_file_counted_once(outcomes.drop_last());
    }
}

/// A file that was skipped, over the size limit or unmeasured, is counted as
/// processed and adds nothing else: no bytes, and nothing to the tally of any
/// backend.
pub proof fn lemma_skipped_adds_nothing(counters: RunCounters, outcome: FileOutcome, backend: Backend)
    requires
        !outcome.invoked(),
    ensures
        counters.recorded(outcome).files_processed == sat_add(counters.files_processed, 1),
        counters.recorded(outcome).bytes_warmed == counters.bytes_warmed,
        counters.recorded(outcome).tally(backend) == counters.tally(backend),
{
}

/// A file on which the engine was invoked adds its measured size to the
/// bytes warmed, whatever the attempt came to, and one to the tally of the
/// backend that had the last word, and to no other.
pub proof fn lemma_attempted_adds_size(
    counters: RunCounters,
    file_size: u64,
    backend: Backend,
    attempt: Attempt,
    other: Backend,
)
    ensures
        ({
            let after = counters.recorded(FileOutcome::Attempted { file_size, backend, attempt });
            &&& after.bytes_warmed == sat_add(counters.bytes_warmed, file_size)
            &&& after.tally(backend) == counters.tally(backend).recorded(attempt)
            &&& other != backend ==> after.tally(other) == counters.tally(other)
        }),
{
}

/// The bytes warmed in a run are the measured sizes of the files on which
/// the engine was invoked, added up.
pub open spec fn total_bytes(outcomes: Seq<FileOutcome>) -> nat
    decreases outcomes.len(),
{
    if outcomes.len() == 0 {
        0
    } else {
        total_bytes(outcomes.drop_last()) + outcomes.last().bytes() as nat
    }
}

pub proof fn lemma_bytes_warmed(outcomes: Seq<FileOutcome>)
    ensures
        RunCounters::after(outcomes).bytes_warmed == sat_count(total_bytes(outcomes)),
    decreases outcomes.len(),
{
    if outcomes.len() > 0 {
        lemma_bytes_warmed(outcomes.drop_last());
    }
}

/// At the end of a run as many files were processed as were discovered:
/// whatever the batch size, and however each file ended, as long as each
/// discovered file ended once.
pub proof fn lemma_processed_equals_discovered<T>(
    batch_size: usize,
    files: Seq<T>,
    outcomes: Seq<FileOutcome>,
)
    requires
        outcomes.len() == files.len(),
    ensures
        RunCounters::after(outcomes).files_processed == DiscoveryState::after(
            batch_size,
            files,
        ).discovered,
{
    lemma_every_file_counted_once(outcomes);
    lemma_discovery_run(batch_size, files);
}

/// Adding to a counter that stops at its largest value can be done in any
/// order and in any grouping.
pub proof fn lemma_sat_add(x: u64, a: u64, b: u64)
    ensures
        sat_add(sat_add(x, a), b) == sat_add(sat_add(x, b), a),
        sat_add(x, sat_add(a, b)) == sat_add(sat_add(x, a), b),
        sat_add(x, 0) == x,
{
}

proof fn lemma_tally_order(t: BackendTally, a: Option<Attempt>, b: Option<Attempt>)
    ensures
        t.counted(a).counted(b) == t.counted(b).counted(a),
{
}

proof fn lemma_sizes_order(h: SizeHistogram, a: Option<u64>, b: Option<u64>)
    ensures
        h.counted(a).counted(b) == h.counted(b).counted(a),
{
}

proof fn lemma_tally_merge(left: BackendTally, right: BackendTally, a: Option<Attempt>)
    ensures
        left.merged(right.counted(a)) == left.merged(right).counted(a),
{
}

proof fn lemma_sizes_merge(left: SizeHistogram, right: SizeHistogram, a: Option<u64>)
    ensures
        left.merged(right.counted(a)) == left.merged(right).counted(a),
{
}

/// The order in which files end does not matter to the counters.
pub proof fn lemma_order_irrelevant(counters: RunCounters, a: FileOutcome, b: FileOutcome)
    ensures
        counters.recorded(a).recorded(b) == counters.recorded(b).recorded(a),
{
    lemma_sat_add(counters.bytes_warmed, a.bytes(), b.bytes());
    lemma_sat_add(counters.files_processed, 1, 1);
    lemma_tally_order(
        counters.io_uring,
        a.attempt_of(Backend::IoUring),
        b.attempt_of(Backend::IoUring),
    );
    lemma_tally_order(counters.libaio, a.attempt_of(Backend::Libaio), b.attempt_of(Backend::Libaio));
    lemma_tally_order(
        counters.os_hints,
        a.attempt_of(Backend::OsHints),
        b.attempt_of(Backend::OsHints),
    );
    lemma_tally_order(counters.tokio, a.attempt_of(Backend::Tokio), b.attempt_of(Backend::Tokio));
    lemma_sizes_order(counters.sizes, a.measured(), b.measured());
}

/// Counters kept apart add up: recording a file on one of two sets of
/// counters and merging them is recording it on the merged counters.
pub proof fn lemma_merge_records(left: RunCounters, right: RunCounters, outcome: FileOutcome)
    ensures
        left.merged(right.recorded(outcome)) == left.merged(right).recorded(outcome),
        left.merged(RunCounters::zero()) == left,
{
    lemma_sat_add(left.bytes_warmed, right.bytes_warmed, outcome.bytes());
    lemma_sat_add(left.files_processed, right.files_processed, 1);
    lemma_tally_merge(left.io_uring, right.io_uring, outcome.attempt_of(Backend::IoUring));
    lemma_tally_merge(left.libaio, right.libaio, outcome.attempt_of(Backend::Libaio));
    lemma_tally_merge(left.os_hints, right.os_hints, outcome.attempt_of(Backend::OsHints));
    lemma_tally_merge(left.tokio, right.tokio, outcome.attempt_of(Backend::Tokio));
    lemma_sizes_merge(left.sizes, right.sizes, outcome.measured());
}

} // verus!
