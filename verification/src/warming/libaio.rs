//! The AIO-ring backend: cache-bypassing reads submitted in batches.
//!
//! The reads of a file are fixed before the first one is submitted: read
//! number `j` starts at `j` strides (sampling) or `j` chunks (whole file). They
//! go out in batches of at most `MAX_QUEUE_DEPTH`, each read of a batch into a
//! buffer of its own, and a batch is awaited in full before the next is
//! planned. A read that fails or returns nothing does not stop the reads that
//! are already submitted, but no further batch goes out after it.

use vstd::prelude::*;
use crate::buffer::{align_down, is_aligned, lemma_block_layouts, valid_layout, BLOCK_SIZE};
use crate::warming::{Method, Os, Platform, WarmError, WarmingOptions, WarmingResult};
use crate::warming::sampling::{
    ceil_div,
    chunk_len,
    direct_chunk_len,
    lemma_ceil_div_least,
    lemma_index_in_file,
    sample_count,
    use_sparse,
    wants_sparse,
    DIRECT_CHUNK,
    DIRECT_SAMPLE_LEN,
    DIRECT_SAMPLE_STRIDE,
};

verus! {

/// The most reads in flight at once, and so the most buffers held.
pub const MAX_QUEUE_DEPTH: usize = 256;

/// Where a session stands.
#[derive(Debug, Clone, Copy, PartialEq, Eq, Structural)]
pub enum LibaioPhase {
    Opening,
    Starting,
    Allocating,
    Submitting,
    Waiting,
    Releasing,
    Finished,
}

/// What the caller is to do next.
#[derive(Debug, Clone, Copy, PartialEq, Eq)]
pub enum LibaioAction {
    /// Open the file for cache-bypassing reads.
    Open,
    /// Set up the ring.
    StartRing,
    /// Obtain one more buffer of this layout.
    Allocate { size: usize, align: usize },
    /// Take the next batch from `plan_batch` and submit every read of it.
    Submit,
    /// Wait for one submitted read and report how it ended.
    Await,
    /// Free one buffer.
    Release,
    /// Nothing is left to do: this is the outcome.
    Done(Result<Method, WarmError>),
}

/// What the caller reports back.
#[derive(Debug, Clone, Copy, PartialEq, Eq, Structural)]
pub enum LibaioEvent {
    Opened,
    OpenFailed(WarmError),
    RingStarted,
    /// The ring could not be set up: the backend is not supported here.
    RingFailed,
    Allocated,
    AllocationFailed,
    /// A read completed with this many bytes.
    Completed(usize),
    CompletionFailed,
    Released,
}

/// One read of a batch, and the buffer it fills.
#[derive(Debug, Clone, Copy, PartialEq, Eq, Structural)]
pub struct BatchRead {
    pub buffer: usize,
    pub offset: u64,
    pub len: usize,
}

/// The distance between the starts of two consecutive reads.
pub open spec fn unit(sparse: bool) -> u64 {
    if sparse {
        DIRECT_SAMPLE_STRIDE
    } else {
        DIRECT_CHUNK as u64
    }
}

/// The size of each buffer.
pub open spec fn buffer_size(sparse: bool) -> usize {
    if sparse {
        DIRECT_SAMPLE_LEN
    } else {
        DIRECT_CHUNK
    }
}

/// The number of reads planned for a file.
pub open spec fn read_count(file_size: u64, sparse: bool) -> int {
    ceil_div(file_size as int, unit(sparse) as int)
}

/// Read number `j` of a file, into buffer `buffer`.
pub open spec fn planned_read(file_size: u64, sparse: bool, j: int, buffer: int) -> BatchRead {
    let offset: u64 = (j * unit(sparse)) as u64;
    BatchRead {
        buffer: buffer as usize,
        offset,
        len: if sparse {
            DIRECT_SAMPLE_LEN
        } else {
            direct_chunk_len(file_size, offset) as usize
        },
    }
}

/// The state of one file's session, as plain values.
#[derive(Debug, Clone, Copy, PartialEq, Eq, Structural)]
pub struct LibaioState {
    pub file_size: u64,
    pub sparse: bool,
    /// Reads planned for the whole file.
    pub total: u64,
    /// Reads per batch, and buffers to hold.
    pub batch_size: usize,
    pub phase: LibaioPhase,
    /// Buffers allocated and not yet freed.
    pub held: usize,
    /// Reads handed out in batches so far.
    pub planned: u64,
    /// Reads submitted and not yet reported.
    pub pending: usize,
    /// Reads that completed with at least one byte.
    pub samples: u64,
    /// Bytes that completed reads reported, saturating.
    pub bytes_read: u64,
    /// A read failed or returned nothing: no further batch goes out.
    pub stopped: bool,
    pub error: Option<WarmError>,
}

impl LibaioState {
    /// The state before anything was done.
    pub open spec fn start(file_size: u64, sparse: bool) -> LibaioState {
        let total: int = read_count(file_size, sparse);
        LibaioState {
            file_size,
            sparse,
            total: total as u64,
            batch_size: if total < MAX_QUEUE_DEPTH {
                total as usize
            } else {
                MAX_QUEUE_DEPTH
            },
            phase: LibaioPhase::Opening,
            held: 0,
            planned: 0,
            pending: 0,
            samples: 0,
            bytes_read: 0,
            stopped: false,
            error: None,
        }
    }

    pub open spec fn wf(self) -> bool {
        &&& self.total == read_count(self.file_size, self.sparse)
        &&& self.batch_size == if self.total < MAX_QUEUE_DEPTH {
            self.total as usize
        } else {
            MAX_QUEUE_DEPTH
        }
        &&& self.planned <= self.total
        &&& self.samples + self.pending <= self.planned
        &&& match self.phase {
            LibaioPhase::Opening | LibaioPhase::Starting => self.held == 0 && self.planned == 0
                && self.pending == 0 && self.error is None && !self.stopped,
            LibaioPhase::Allocating => self.held < self.batch_size && self.planned == 0
                && self.pending == 0 && self.error is None && !self.stopped,
            LibaioPhase::Submitting => self.held == self.batch_size && self.planned < self.total
                && self.pending == 0 && self.error is None && !self.stopped,
            LibaioPhase::Waiting => self.held == self.batch_size && 0 < self.pending
                <= self.batch_size && self.error is None,
            LibaioPhase::Releasing => 0 < self.held <= self.batch_size && self.pending == 0,
            LibaioPhase::Finished => self.held == 0 && self.pending == 0,
        }
    }

    /// The method under which a session of this mode reports.
    pub open spec fn method(self) -> Method {
        if self.sparse {
            Method::LibaioDirectSparse
        } else {
            Method::LibaioDirectFull
        }
    }

    /// The outcome of a finished session: the error that ended it, or else
    /// the method that ran. Reads that failed on the way do not make it an
    /// error.
    pub open spec fn outcome(self) -> Result<Method, WarmError> {
        match self.error {
            Some(e) => Err(e),
            None => Ok(self.method()),
        }
    }

    pub open spec fn action(self) -> LibaioAction {
        match self.phase {
            LibaioPhase::Opening => LibaioAction::Open,
            LibaioPhase::Starting => LibaioAction::StartRing,
            LibaioPhase::Allocating => LibaioAction::Allocate {
                size: buffer_size(self.sparse),
                align: BLOCK_SIZE as usize,
            },
            LibaioPhase::Submitting => LibaioAction::Submit,
            LibaioPhase::Waiting => LibaioAction::Await,
            LibaioPhase::Releasing => LibaioAction::Release,
            LibaioPhase::Finished => LibaioAction::Done(self.outcome()),
        }
    }

    /// The number of reads in the next batch.
    pub open spec fn batch_len(self) -> int {
        if self.phase != LibaioPhase::Submitting {
            0
        } else if self.total - self.planned < self.batch_size {
            self.total - self.planned
        } else {
            self.batch_size as int
        }
    }

    /// The next batch: the reads that follow those planned so far, the `k`-th
    /// of them into buffer `k`.
    pub open spec fn batch(self) -> Seq<BatchRead> {
        Seq::new(
            self.batch_len() as nat,
            |k: int| planned_read(self.file_size, self.sparse, self.planned + k, k),
        )
    }

    /// The state once the next batch was handed out.
    pub open spec fn after_batch(self) -> LibaioState {
        if self.phase != LibaioPhase::Submitting {
            self
        } else {
            LibaioState {
                phase: LibaioPhase::Waiting,
                planned: (self.planned + self.batch_len()) as u64,
                pending: self.batch_len() as usize,
                ..self
            }
        }
    }

    /// Whether a read that ended this way ends the reading: it does where it
    /// failed or returned nothing.
    pub open spec fn ends_reading(n: Option<usize>) -> bool {
        n is None || n == Some(0usize)
    }

    /// The state once one submitted read was reported, with `n` bytes where it
    /// completed. Once the whole batch is reported the next one is due,
    /// unless the file is done or a read ended the reading.
    pub open spec fn after_completion(self, n: Option<usize>) -> LibaioState {
        let pending: usize = (self.pending - 1) as usize;
        let stopped: bool = self.stopped || LibaioState::ends_reading(n);
        LibaioState {
            pending,
            stopped,
            samples: match n {
                Some(k) if k > 0 => (self.samples + 1) as u64,
                _ => self.samples,
            },
            bytes_read: match n {
                Some(k) => if self.bytes_read + k > u64::MAX {
                    u64::MAX
                } else {
                    (self.bytes_read + k) as u64
                },
                None => self.bytes_read,
            },
            phase: if pending > 0 {
                LibaioPhase::Waiting
            } else if self.planned < self.total && !stopped {
                LibaioPhase::Submitting
            } else {
                LibaioPhase::Releasing
            },
            ..self
        }
    }

    /// A bound on the events and batches that the session still takes in
    /// before it is finished.
    pub open spec fn remaining(self) -> int {
        let reads: int = 2 * (self.total - self.planned) + 2 * self.pending;
        match self.phase {
            LibaioPhase::Opening => 2 * self.total + 2 * self.batch_size + 5,
            LibaioPhase::Starting => 2 * self.total + 2 * self.batch_size + 4,
            LibaioPhase::Allocating => 2 * self.total + 2 * self.batch_size - self.held + 3,
            LibaioPhase::Submitting => reads + self.batch_size + 3,
            LibaioPhase::Waiting => reads + self.batch_size + 2,
            LibaioPhase::Releasing => self.held as int,
            LibaioPhase::Finished => 0,
        }
    }

    /// The state after `event`. An event that does not answer the pending
    /// action changes nothing.
    pub open spec fn step(self, event: LibaioEvent) -> LibaioState {
        match (self.phase, event) {
            (LibaioPhase::Opening, LibaioEvent::Opened) => LibaioState {
                phase: LibaioPhase::Starting,
                ..self
            },
            (LibaioPhase::Opening, LibaioEvent::OpenFailed(e)) => LibaioState {
                phase: LibaioPhase::Finished,
                error: Some(e),
                ..self
            },
            (LibaioPhase::Starting, LibaioEvent::RingStarted) => LibaioState {
                phase: if self.batch_size == 0 {
                    LibaioPhase::Finished
                } else {
                    LibaioPhase::Allocating
                },
                ..self
            },
            (LibaioPhase::Starting, LibaioEvent::RingFailed) => LibaioState {
                phase: LibaioPhase::Finished,
                error: Some(WarmError::Unsupported),
                ..self
            },
            (LibaioPhase::Allocating, LibaioEvent::Allocated) => LibaioState {
                held: (self.held + 1) as usize,
                phase: if self.held + 1 == self.batch_size {
                    LibaioPhase::Submitting
                } else {
                    LibaioPhase::Allocating
                },
                ..self
            },
            (LibaioPhase::Allocating, LibaioEvent::AllocationFailed) => LibaioState {
                phase: if self.held > 0 {
                    LibaioPhase::Releasing
                } else {
                    LibaioPhase::Finished
                },
                error: Some(WarmError::OutOfMemory),
                ..self
            },
            (LibaioPhase::Waiting, LibaioEvent::Completed(n)) => self.after_completion(Some(n)),
            (LibaioPhase::Waiting, LibaioEvent::CompletionFailed) => self.after_completion(None),
            (LibaioPhase::Releasing, LibaioEvent::Released) => LibaioState {
                held: (self.held - 1) as usize,
                phase: if self.held == 1 {
                    LibaioPhase::Finished
                } else {
                    LibaioPhase::Releasing
                },
                ..self
            },
            _ => self,
        }
    }
}

/// A session starts well-formed.
pub proof fn lemma_start_wf(file_size: u64, sparse: bool)
    ensures
        LibaioState::start(file_size, sparse).wf(),
        LibaioState::start(file_size, sparse).action() == LibaioAction::Open,
{
    lemma_ceil_div_least(file_size as int, unit(sparse) as int);
}

/// Every event and every batch leaves a well-formed session well-formed.
pub proof fn lemma_step_wf(s: LibaioState, event: LibaioEvent)
    requires
        s.wf(),
    ensures
        s.step(event).wf(),
        s.after_batch().wf(),
{
}

/// The reads of a batch: each starts inside the file at a block boundary,
/// asks for whole blocks, at least one and no more than its buffer holds, and
/// has a buffer to itself among those that are held.
pub proof fn lemma_batch_reads(s: LibaioState, k: int)
    requires
        s.wf(),
        0 <= k < s.batch_len(),
    ensures
        s.batch()[k].offset == (s.planned + k) * unit(s.sparse),
        s.batch()[k].offset < s.file_size,
        is_aligned(s.batch()[k].offset as int, BLOCK_SIZE as int),
        is_aligned(s.batch()[k].len as int, BLOCK_SIZE as int),
        0 < s.batch()[k].len <= buffer_size(s.sparse),
        s.batch()[k].buffer == k,
        s.batch()[k].buffer < s.held,
{
    let j: int = s.planned + k;
    let u: int = unit(s.sparse) as int;
    lemma_index_in_file(s.file_size as int, u, j);
    assert(j * u >= 0) by (nonlinear_arith)
        requires
            j >= 0,
            u > 0,
    ;
    assert(is_aligned(j * u, BLOCK_SIZE as int)) by (nonlinear_arith)
        requires
            u == 65536 || u == 1048576,
            BLOCK_SIZE == 4096,
    ;
}

/// The buffers that a session asks for have a layout that can be had: one
/// block each for samples, a chunk of whole blocks each otherwise, aligned
/// to a block.
pub proof fn lemma_buffer_layout(s: LibaioState)
    ensures
        valid_layout(buffer_size(s.sparse), BLOCK_SIZE as usize),
        s.phase == LibaioPhase::Allocating ==> s.action() == (LibaioAction::Allocate {
            size: buffer_size(s.sparse),
            align: BLOCK_SIZE as usize,
        }),
{
    lemma_block_layouts(1);
    lemma_block_layouts(256);
}

/// A session comes to its end: every event that it takes in and every batch
/// that it hands out brings it closer to being finished, and as long as it is
/// not finished there is something that it takes in.
pub proof fn lemma_progress(s: LibaioState, event: LibaioEvent)
    requires
        s.wf(),
    ensures
        s.remaining() >= 0,
        s.remaining() == 0 <==> s.phase == LibaioPhase::Finished,
        s.step(event) == s || s.step(event).remaining() < s.remaining(),
        s.after_batch() == s || s.after_batch().remaining() < s.remaining(),
        s.phase == LibaioPhase::Submitting ==> s.after_batch() != s && s.batch_len() > 0,
        s.phase != LibaioPhase::Finished && s.phase != LibaioPhase::Submitting ==> s.step(
            LibaioEvent::Opened,
        ) != s || s.step(LibaioEvent::RingStarted) != s || s.step(LibaioEvent::Allocated) != s
            || s.step(LibaioEvent::CompletionFailed) != s || s.step(LibaioEvent::Released) != s,
{
}

/// A ring that cannot be set up means that the backend is not supported
/// here: the session ends at once, holding no buffer, with the soft signal on
/// which the engine moves on to the next backend.
pub proof fn lemma_ring_failure_is_unsupported(s: LibaioState)
    requires
        s.wf(),
        s.phase == LibaioPhase::Starting,
    ensures
        s.step(LibaioEvent::RingFailed).phase == LibaioPhase::Finished,
        s.step(LibaioEvent::RingFailed).outcome() == Err::<Method, WarmError>(
            WarmError::Unsupported,
        ),
        s.step(LibaioEvent::RingFailed).held == 0,
{
}

/// A read that fails or returns nothing ends the reading: the reads that are
/// out are still awaited, no further batch goes out, and the session goes on
/// to free its buffers.
pub proof fn lemma_failure_stops_reading(s: LibaioState, n: Option<usize>, event: LibaioEvent)
    requires
        s.wf(),
        s.phase == LibaioPhase::Waiting,
        LibaioState::ends_reading(n),
    ensures
        s.after_completion(n).stopped,
        s.after_completion(n).phase == if s.pending > 1 {
            LibaioPhase::Waiting
        } else {
            LibaioPhase::Releasing
        },
        s.stopped ==> s.step(event).stopped && s.step(event).phase != LibaioPhase::Submitting
            && s.step(event).planned == s.planned,
{
}

/// A whole-file session leaves no gap: each read reaches the start of the
/// next one, or the end of the file.
pub proof fn lemma_full_reads_tile(s: LibaioState, j: int)
    requires
        s.wf(),
        !s.sparse,
        0 <= j < s.total,
    ensures
        planned_read(s.file_size, false, j, 0).offset == j * DIRECT_CHUNK,
        planned_read(s.file_size, false, j, 0).offset + planned_read(s.file_size, false, j, 0).len
            >= s.file_size || planned_read(s.file_size, false, j, 0).offset + planned_read(
            s.file_size,
            false,
            j,
            0,
        ).len == (j + 1) * DIRECT_CHUNK,
{
    let u: int = DIRECT_CHUNK as int;
    lemma_index_in_file(s.file_size as int, u, j);
    assert(j * u >= 0 && (j + 1) * u == j * u + u) by (nonlinear_arith)
        requires
            j >= 0,
            u > 0,
    ;
}

/// However a session went, it planned no more reads than the file has
/// strides, no more reads returned data than were planned, and once it is
/// finished no buffer is held.
pub proof fn lemma_session_bounds(s: LibaioState)
    requires
        s.wf(),
    ensures
        s.planned <= ceil_div(s.file_size as int, unit(s.sparse) as int),
        s.samples <= s.planned,
        s.held <= MAX_QUEUE_DEPTH,
        s.phase == LibaioPhase::Finished ==> s.held == 0,
        s.action() == LibaioAction::Release ==> s.held > 0,
{
}

fn step_state(s: LibaioState, event: LibaioEvent) -> (r: LibaioState)
    requires
        s.wf(),
    ensures
        r == s.step(event),
        r.wf(),
{
    let mut r: LibaioState = s;
    match (s.phase, event) {
        (LibaioPhase::Opening, LibaioEvent::Opened) => {
            r.phase = LibaioPhase::Starting;
        },
        (LibaioPhase::Opening, LibaioEvent::OpenFailed(e)) => {
            r.phase = LibaioPhase::Finished;
            r.error = Some(e);
        },
        (LibaioPhase::Starting, LibaioEvent::RingStarted) => {
            r.phase = if s.batch_size == 0 {
                LibaioPhase::Finished
            } else {
                LibaioPhase::Allocating
            };
        },
        (LibaioPhase::Starting, LibaioEvent::RingFailed) => {
            r.phase = LibaioPhase::Finished;
            r.error = Some(WarmError::Unsupported);
        },
        (LibaioPhase::Allocating, LibaioEvent::Allocated) => {
            r.held = s.held + 1;
            r.phase = if r.held == s.batch_size {
                LibaioPhase::Submitting
            } else {
                LibaioPhase::Allocating
            };
        },
        (LibaioPhase::Allocating, LibaioEvent::AllocationFailed) => {
            r.phase = if s.held > 0 {
                LibaioPhase::Releasing
            } else {
                LibaioPhase::Finished
            };
            r.error = Some(WarmError::OutOfMemory);
        },
        (LibaioPhase::Waiting, LibaioEvent::Completed(n)) => {
            r = complete(s, Some(n));
        },
        (LibaioPhase::Waiting, LibaioEvent::CompletionFailed) => {
            r = complete(s, None);
        },
        (LibaioPhase::Releasing, LibaioEvent::Released) => {
            r.held = s.held - 1;
            r.phase = if r.held == 0 {
                LibaioPhase::Finished
            } else {
                LibaioPhase::Releasing
            };
        },
        _ => {},
    }
    r
}

fn complete(s: LibaioState, n: Option<usize>) -> (r: LibaioState)
    requires
        s.wf(),
        s.phase == LibaioPhase::Waiting,
    ensures
        r == s.after_completion(n),
        r.wf(),
{
    let mut r: LibaioState = s;
    r.pending = s.pending - 1;
    match n {
        Some(k) => {
            if k > 0 {
                r.samples = s.samples + 1;
            } else {
                r.stopped = true;
            }
            r.bytes_read = s.bytes_read.saturating_add(k as u64);
        },
        None => {
            r.stopped = true;
        },
    }
    r.phase = if r.pending > 0 {
        LibaioPhase::Waiting
    } else if s.planned < s.total && !r.stopped {
        LibaioPhase::Submitting
    } else {
        LibaioPhase::Releasing
    };
    r
}

/// One file's session with the AIO-ring backend.
pub struct LibaioSession {
    state: LibaioState,
}

impl View for LibaioSession {
    type V = LibaioState;

    closed spec fn view(&self) -> LibaioState {
        self.state
    }
}

impl LibaioSession {
    #[verifier::type_invariant]
    spec fn inv(self) -> bool {
        self.state.wf()
    }

    /// The state, for inspection. It is well-formed at all times: no more
    /// reads were planned than the file has strides, no more buffers are held
    /// than the queue is deep, and none once the session is finished.
    pub fn state(&self) -> (s: LibaioState)
        ensures
            s == self@,
            s.wf(),
            s.planned <= ceil_div(s.file_size as int, unit(s.sparse) as int),
            s.held <= MAX_QUEUE_DEPTH,
            s.phase == LibaioPhase::Finished ==> s.held == 0,
    {
        proof {
            use_type_invariant(self);
        }
        self.state
    }

    /// What to do next.
    pub fn action(&self) -> (a: LibaioAction)
        ensures
            a == self@.action(),
    {
        let s: LibaioState = self.state;
        match s.phase {
            LibaioPhase::Opening => LibaioAction::Open,
            LibaioPhase::Starting => LibaioAction::StartRing,
            LibaioPhase::Allocating => LibaioAction::Allocate {
                size: if s.sparse {
                    DIRECT_SAMPLE_LEN
                } else {
                    DIRECT_CHUNK
                },
                align: BLOCK_SIZE as usize,
            },
            LibaioPhase::Submitting => LibaioAction::Submit,
            LibaioPhase::Waiting => LibaioAction::Await,
            LibaioPhase::Releasing => LibaioAction::Release,
            LibaioPhase::Finished => LibaioAction::Done(
                match s.error {
                    Some(e) => Err(e),
                    None => Ok(
                        if s.sparse {
                            Method::LibaioDirectSparse
                        } else {
                            Method::LibaioDirectFull
                        },
                    ),
                },
            ),
        }
    }

    /// Takes in what the caller reports.
    pub fn advance(&mut self, event: LibaioEvent)
        ensures
            final(self)@ == old(self)@.step(event),
    {
        proof {
            use_type_invariant(&*self);
        }
        self.state = step_state(self.state, event);
    }

    /// Hands out the next batch of reads. Outside the submitting phase the
    /// batch is empty and nothing changes. Each read of a batch starts inside
    /// the file, at a block boundary, asks for whole blocks, and has a buffer
    /// to itself.
    pub fn plan_batch(&mut self) -> (batch: Vec<BatchRead>)
        ensures
            batch@ == old(self)@.batch(),
            final(self)@ == old(self)@.after_batch(),
            batch@.len() <= MAX_QUEUE_DEPTH,
            forall|k: int|
                0 <= k < batch@.len() ==> (#[trigger] batch@[k]).offset < old(self)@.file_size
                    && is_aligned(batch@[k].offset as int, BLOCK_SIZE as int) && is_aligned(
                    batch@[k].len as int,
                    BLOCK_SIZE as int,
                ) && 0 < batch@[k].len <= buffer_size(old(self)@.sparse) && batch@[k].buffer == k
                    && k < old(self)@.held,
    {
        proof {
            use_type_invariant(&*self);
        }
        let s: LibaioState = self.state;
        proof {
            assert forall|k: int| 0 <= k < s.batch_len() implies (#[trigger] s.batch()[k]).offset
                < s.file_size && is_aligned(s.batch()[k].offset as int, BLOCK_SIZE as int)
                && is_aligned(s.batch()[k].len as int, BLOCK_SIZE as int) && 0 < s.batch()[k].len
                <= buffer_size(s.sparse) && s.batch()[k].buffer == k && k < s.held by {
                lemma_batch_reads(s, k);
            }
        }
        let mut batch: Vec<BatchRead> = Vec::new();
        if s.phase != LibaioPhase::Submitting {
            assert(batch@ =~= s.batch());
            return batch;
        }
        let left: u64 = s.total - s.planned;
        let count: usize = if left < s.batch_size as u64 {
            left as usize
        } else {
            s.batch_size
        };
        let stride: u64 = if s.sparse {
            DIRECT_SAMPLE_STRIDE
        } else {
            DIRECT_CHUNK as u64
        };
        let mut k: usize = 0;
        while k < count
            invariant
                s.wf(),
                s.phase == LibaioPhase::Submitting,
                count == s.batch_len(),
                stride == unit(s.sparse),
                k <= count,
                batch@.len() == k,
                forall|i: int| 0 <= i < k ==> batch@[i] == s.batch()[i],
            decreases count - k,
        {
            proof {
                lemma_batch_reads(s, k as int);
            }
            let intended: u64 = (s.planned + k as u64) * stride;
            let offset: u64 = align_down(intended, BLOCK_SIZE);
            let len: usize = if s.sparse {
                DIRECT_SAMPLE_LEN
            } else {
                chunk_len(s.file_size, offset)
            };
            batch.push(BatchRead { buffer: k, offset, len });
            k = k + 1;
        }
        assert(batch@ =~= s.batch());
        let mut next: LibaioState = s;
        next.phase = LibaioPhase::Waiting;
        next.planned = s.planned + count as u64;
        next.pending = count;
        self.state = next;
        batch
    }

    pub fn is_finished(&self) -> (b: bool)
        ensures
            b == (self@.phase == LibaioPhase::Finished),
    {
        self.state.phase == LibaioPhase::Finished
    }

    /// The result of a finished session, `None` while it is still running.
    pub fn result(&self, duration: std::time::Duration) -> (r: Option<
        Result<WarmingResult, WarmError>,
    >)
        ensures
            r is Some <==> self@.phase == LibaioPhase::Finished,
            r matches Some(Err(e)) ==> self@.error == Some(e),
            r matches Some(Ok(w)) ==> self@.error is None && w.method@ == self@.method().spec_tag()
                && w.success && w.duration == duration,
    {
        let s: LibaioState = self.state;
        if s.phase != LibaioPhase::Finished {
            return None;
        }
        match s.error {
            Some(e) => Some(Err(e)),
            None => {
                let method: Method = if s.sparse {
                    Method::LibaioDirectSparse
                } else {
                    Method::LibaioDirectFull
                };
                Some(Ok(method.report(true, duration)))
            },
        }
    }
}

/// Starts a session that reads `file_size` bytes past the page cache: sampled
/// where the file is over a threshold above zero, whole otherwise.
pub fn warm_with_libaio_direct(file_size: u64, sparse_threshold: u64) -> (session: LibaioSession)
    ensures
        session@ == LibaioState::start(file_size, wants_sparse(file_size, sparse_threshold)),
{
    let sparse: bool = use_sparse(file_size, sparse_threshold);
    let total: u64 = sample_count(
        file_size,
        if sparse {
            DIRECT_SAMPLE_STRIDE
        } else {
            DIRECT_CHUNK as u64
        },
    );
    let batch_size: usize = if total < MAX_QUEUE_DEPTH as u64 {
        total as usize
    } else {
        MAX_QUEUE_DEPTH
    };
    LibaioSession {
        state: LibaioState {
            file_size,
            sparse,
            total,
            batch_size,
            phase: LibaioPhase::Opening,
            held: 0,
            planned: 0,
            pending: 0,
            samples: 0,
            bytes_read: 0,
            stopped: false,
            error: None,
        },
    }
}

/// Whether this backend takes the file on: it does where it is available, on
/// Linux, and cache-bypassing reads were asked for.
pub open spec fn accepts(options: WarmingOptions, platform: Platform) -> bool {
    platform.os == Os::Linux && platform.libaio && options.use_direct_io
}

/// Starts the backend's session for a file, or reports that the backend is
/// not supported.
pub fn warm_file(file_size: u64, options: &WarmingOptions, platform: &Platform) -> (r: Result<
    LibaioSession,
    WarmError,
>)
    ensures
        r is Ok <==> accepts(*options, *platform),
        r matches Ok(session) ==> session@ == LibaioState::start(
            file_size,
            wants_sparse(file_size, options.sparse_large_files),
        ),
        r matches Err(e) ==> e == WarmError::Unsupported,
{
    if platform.os == Os::Linux && platform.libaio && options.use_direct_io {
        Ok(warm_with_libaio_direct(file_size, options.sparse_large_files))
    } else {
        Err(WarmError::Unsupported)
    }
}

} // verus!
