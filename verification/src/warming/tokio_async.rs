//! The generic backend, which is always there: ordinary reads, past the page
//! cache where that was asked for and the platform can do it, through the
//! page cache otherwise.
//!
//! Through the page cache a file over the sampling threshold is sampled, one
//! short read at every stride inside the file, and any other file is read
//! from its start, chunk after chunk, until a read returns nothing. Either
//! way the reading ends at the first read that fails, and where the platform
//! has a hint for it the data just read is dropped from the page cache.

use vstd::prelude::*;
use crate::warming::{Method, Os, Platform, WarmError, WarmingOptions, WarmingResult};
use crate::warming::direct::{DirectFamily, DirectSession, DirectState};
use crate::warming::fallback::{hint_len, hint_len_spec, Advice};
use crate::warming::sampling::{
    advance_capped,
    ceil_div,
    lemma_ceil_div_least,
    lemma_index_in_file,
    step_cursor,
    use_sparse,
    wants_sparse,
    ReadRequest,
    BUFFERED_CHUNK,
    BUFFERED_SAMPLE_LEN,
    BUFFERED_SAMPLE_STRIDE,
};

verus! {

/// Where a session stands.
#[derive(Debug, Clone, Copy, PartialEq, Eq, Structural)]
pub enum BufferedPhase {
    Opening,
    Reading,
    Dropping,
    Finished,
}

/// What the caller is to do next.
#[derive(Debug, Clone, Copy, PartialEq, Eq)]
#[allow(inconsistent_fields)]
pub enum BufferedAction {
    /// Open the file.
    Open,
    /// Seek to the offset and read.
    Sample(ReadRequest),
    /// Read on from where the last read ended.
    ReadNext { len: usize },
    /// Give a hint on a range of the open file, whatever comes of it.
    Advise { advice: Advice, offset: i64, len: i64 },
    /// Nothing is left to do: this is the outcome.
    Done(Result<Method, WarmError>),
}

/// What the caller reports back.
#[derive(Debug, Clone, Copy, PartialEq, Eq, Structural)]
pub enum BufferedEvent {
    Opened,
    OpenFailed(WarmError),
    /// The read returned this many bytes.
    ReadDone(usize),
    /// The read, or the seek before it, failed.
    ReadFailed,
    /// The hint was given.
    Advised,
}

/// The state of one file's session, as plain values.
#[derive(Debug, Clone, Copy, PartialEq, Eq, Structural)]
pub struct BufferedState {
    pub file_size: u64,
    pub sparse: bool,
    /// The platform can be told to drop a file's data from the page cache.
    pub drops_cache: bool,
    pub phase: BufferedPhase,
    /// The offset of the next sample.
    pub cursor: u64,
    /// Samples that returned data.
    pub samples: u64,
    /// Bytes that the reads of a whole file returned, saturating.
    pub bytes_read: u64,
    pub error: Option<WarmError>,
}

impl BufferedState {
    /// The state before anything was done.
    pub open spec fn start(file_size: u64, sparse: bool, drops_cache: bool) -> BufferedState {
        BufferedState {
            file_size,
            sparse,
            drops_cache,
            phase: BufferedPhase::Opening,
            cursor: 0,
            samples: 0,
            bytes_read: 0,
            error: None,
        }
    }

    pub open spec fn wf(self) -> bool {
        &&& self.cursor <= self.file_size
        &&& self.samples <= self.cursor
        &&& self.sparse ==> {
            &&& self.file_size > 0
            &&& self.bytes_read == 0
            &&& self.cursor < self.file_size ==> self.cursor == self.samples
                * BUFFERED_SAMPLE_STRIDE
            &&& self.cursor == self.file_size ==> self.samples == ceil_div(
                self.file_size as int,
                BUFFERED_SAMPLE_STRIDE as int,
            )
        }
        &&& !self.sparse ==> self.cursor == 0
        &&& match self.phase {
            BufferedPhase::Opening => self.cursor == 0 && self.bytes_read == 0 && self.error is None,
            BufferedPhase::Reading => self.error is None && (self.sparse ==> self.cursor
                < self.file_size),
            BufferedPhase::Dropping => self.error is None && self.drops_cache,
            BufferedPhase::Finished => self.error is Some ==> self.cursor == 0 && self.bytes_read
                == 0,
        }
    }

    /// The method under which a session of this mode reports.
    pub open spec fn method(self) -> Method {
        if self.sparse {
            Method::TokioSparse
        } else {
            Method::TokioFull
        }
    }

    /// The outcome of a finished session: the error that kept the file from
    /// being opened, or else the method that ran.
    pub open spec fn outcome(self) -> Result<Method, WarmError> {
        match self.error {
            Some(e) => Err(e),
            None => Ok(self.method()),
        }
    }

    pub open spec fn action(self) -> BufferedAction {
        match self.phase {
            BufferedPhase::Opening => BufferedAction::Open,
            BufferedPhase::Reading => if self.sparse {
                BufferedAction::Sample(
                    ReadRequest { offset: self.cursor, len: BUFFERED_SAMPLE_LEN },
                )
            } else {
                BufferedAction::ReadNext { len: BUFFERED_CHUNK }
            },
            BufferedPhase::Dropping => BufferedAction::Advise {
                advice: Advice::DontNeed,
                offset: 0,
                len: hint_len_spec(self.file_size),
            },
            BufferedPhase::Finished => BufferedAction::Done(self.outcome()),
        }
    }

    /// The phase that follows the reading.
    pub open spec fn after_reading(self) -> BufferedPhase {
        if self.drops_cache {
            BufferedPhase::Dropping
        } else {
            BufferedPhase::Finished
        }
    }

    /// The state after a read that returned `n` bytes. A read that returns
    /// nothing ends the reading. A sample that returned data moves the cursor
    /// on by one stride; a chunk adds to the bytes read.
    pub open spec fn after_read(self, n: usize) -> BufferedState {
        if n == 0 {
            BufferedState { phase: self.after_reading(), ..self }
        } else if self.sparse {
            let cursor: u64 = advance_capped(self.file_size, self.cursor, BUFFERED_SAMPLE_STRIDE);
            BufferedState {
                cursor,
                samples: (self.samples + 1) as u64,
                phase: if cursor < self.file_size {
                    BufferedPhase::Reading
                } else {
                    self.after_reading()
                },
                ..self
            }
        } else {
            BufferedState {
                bytes_read: if self.bytes_read + n > u64::MAX {
                    u64::MAX
                } else {
                    (self.bytes_read + n) as u64
                },
                ..self
            }
        }
    }

    /// The state after `event`. An event that does not answer the pending
    /// action changes nothing.
    pub open spec fn step(self, event: BufferedEvent) -> BufferedState {
        match (self.phase, event) {
            (BufferedPhase::Opening, BufferedEvent::Opened) => BufferedState {
                phase: BufferedPhase::Reading,
                ..self
            },
            (BufferedPhase::Opening, BufferedEvent::OpenFailed(e)) => BufferedState {
                phase: BufferedPhase::Finished,
                error: Some(e),
                ..self
            },
            (BufferedPhase::Reading, BufferedEvent::ReadDone(n)) => self.after_read(n),
            (BufferedPhase::Reading, BufferedEvent::ReadFailed) => BufferedState {
                phase: self.after_reading(),
                ..self
            },
            (BufferedPhase::Dropping, BufferedEvent::Advised) => BufferedState {
                phase: BufferedPhase::Finished,
                ..self
            },
            _ => self,
        }
    }

    /// A bound on the events that the session still takes in before it is
    /// finished, where there is one: a whole file is read until a read
    /// returns nothing or fails, however long the file turns out to be.
    pub open spec fn remaining(self) -> int {
        match self.phase {
            BufferedPhase::Opening => self.file_size + 4,
            BufferedPhase::Reading => self.file_size - self.cursor + 2,
            BufferedPhase::Dropping => 1,
            BufferedPhase::Finished => 0,
        }
    }

    /// Whether the sampling ended before the cursor reached the end of the
    /// file: on a read that failed or returned nothing.
    pub open spec fn ended_early(self) -> bool {
        self.sparse && (self.phase == BufferedPhase::Dropping || self.phase
            == BufferedPhase::Finished) && self.error is None && self.cursor < self.file_size
    }

    /// The number of samples asked for so far and answered: those that
    /// returned data, and the one that ended the sampling early.
    pub open spec fn reads(self) -> int {
        if self.ended_early() {
            self.samples + 1
        } else {
            self.samples as int
        }
    }
}

/// A session starts well-formed, by asking for the file to be opened.
pub proof fn lemma_start_wf(file_size: u64, sparse: bool, drops_cache: bool)
    requires
        sparse ==> file_size > 0,
    ensures
        BufferedState::start(file_size, sparse, drops_cache).wf(),
        BufferedState::start(file_size, sparse, drops_cache).action() == BufferedAction::Open,
{
}

/// Every event leaves a well-formed session well-formed.
pub proof fn lemma_step_wf(s: BufferedState, event: BufferedEvent)
    requires
        s.wf(),
    ensures
        s.step(event).wf(),
{
    if s.phase == BufferedPhase::Reading && s.sparse {
        if let BufferedEvent::ReadDone(n) = event {
            if n > 0 {
                let k: int = BUFFERED_SAMPLE_STRIDE as int;
                let size: int = s.file_size as int;
                let i: int = s.samples as int;
                lemma_index_in_file(size, k, i);
                lemma_index_in_file(size, k, i + 1);
                lemma_ceil_div_least(size, k);
                assert((i + 1) * k == i * k + k) by (nonlinear_arith);
            }
        }
    }
}

/// A session comes to its end. Every event that it takes in brings it closer
/// to being finished, but for the reads of a whole file that return data:
/// those go on until one returns nothing or fails, and that one ends the
/// reading. As long as a session is not finished there is an event that it
/// takes in.
pub proof fn lemma_progress(s: BufferedState, event: BufferedEvent)
    requires
        s.wf(),
    ensures
        s.remaining() >= 0,
        s.remaining() == 0 <==> s.phase == BufferedPhase::Finished,
        s.step(event) == s || s.step(event).remaining() < s.remaining() || (!s.sparse && s.phase
            == BufferedPhase::Reading && event is ReadDone && s.step(event).phase
            == BufferedPhase::Reading),
        s.phase == BufferedPhase::Reading ==> s.step(BufferedEvent::ReadDone(0)).phase
            != BufferedPhase::Reading && s.step(BufferedEvent::ReadFailed).phase
            != BufferedPhase::Reading,
        s.phase != BufferedPhase::Finished ==> s.step(BufferedEvent::Opened) != s || s.step(
            BufferedEvent::ReadFailed,
        ) != s || s.step(BufferedEvent::Advised) != s,
{
    lemma_step_wf(s, event);
}

/// Every sample is taken inside the file, at a multiple of the stride, and
/// a sample that returned data moves the cursor forward.
pub proof fn lemma_sample_in_file(s: BufferedState, n: usize)
    requires
        s.wf(),
        s.sparse,
        s.phase == BufferedPhase::Reading,
    ensures
        s.action() == BufferedAction::Sample(
            ReadRequest { offset: s.cursor, len: BUFFERED_SAMPLE_LEN },
        ),
        s.cursor < s.file_size,
        s.cursor == s.samples * BUFFERED_SAMPLE_STRIDE,
        n > 0 ==> s.cursor < s.after_read(n).cursor <= s.file_size,
        s.after_read(n).reads() == s.reads() + 1,
{
    lemma_step_wf(s, BufferedEvent::ReadDone(n));
}

/// Sampling asks for no more reads than the file has strides, however the
/// reads went.
pub proof fn lemma_sample_bound(s: BufferedState)
    requires
        s.wf(),
        s.sparse,
    ensures
        s.samples <= s.reads() <= ceil_div(s.file_size as int, BUFFERED_SAMPLE_STRIDE as int),
{
    let k: int = BUFFERED_SAMPLE_STRIDE as int;
    lemma_index_in_file(s.file_size as int, k, s.samples as int);
    lemma_ceil_div_least(s.file_size as int, k);
}

/// The data is dropped from the page cache after the reading, however it
/// ended, exactly where the platform can be told to: the hint is asked for
/// when the reading ends and at no other time.
pub proof fn lemma_drop_after_reading(s: BufferedState, event: BufferedEvent)
    requires
        s.wf(),
    ensures
        s.phase == BufferedPhase::Reading && s.step(event).phase != BufferedPhase::Reading ==> (
        s.step(event).phase == BufferedPhase::Dropping <==> s.drops_cache),
        s.phase != BufferedPhase::Reading && s.step(event).phase == BufferedPhase::Dropping
            ==> s.step(event) == s,
        s.phase == BufferedPhase::Finished ==> s.step(event) == s,
{
}

fn step_state(s: BufferedState, event: BufferedEvent) -> (r: BufferedState)
    requires
        s.wf(),
    ensures
        r == s.step(event),
        r.wf(),
{
    proof {
        lemma_step_wf(s, event);
    }
    let after_reading: BufferedPhase = if s.drops_cache {
        BufferedPhase::Dropping
    } else {
        BufferedPhase::Finished
    };
    let mut r: BufferedState = s;
    match (s.phase, event) {
        (BufferedPhase::Opening, BufferedEvent::Opened) => {
            r.phase = BufferedPhase::Reading;
        },
        (BufferedPhase::Opening, BufferedEvent::OpenFailed(e)) => {
            r.phase = BufferedPhase::Finished;
            r.error = Some(e);
        },
        (BufferedPhase::Reading, BufferedEvent::ReadDone(n)) => {
            if n == 0 {
                r.phase = after_reading;
            } else if s.sparse {
                r.cursor = step_cursor(s.file_size, s.cursor, BUFFERED_SAMPLE_STRIDE);
                r.samples = s.samples + 1;
                r.phase = if r.cursor < s.file_size {
                    BufferedPhase::Reading
                } else {
                    after_reading
                };
            } else {
                r.bytes_read = s.bytes_read.saturating_add(n as u64);
            }
        },
        (BufferedPhase::Reading, BufferedEvent::ReadFailed) => {
            r.phase = after_reading;
        },
        (BufferedPhase::Dropping, BufferedEvent::Advised) => {
            r.phase = BufferedPhase::Finished;
        },
        _ => {},
    }
    r
}

/// One file's session of reads through the page cache.
pub struct BufferedSession {
    state: BufferedState,
}

impl View for BufferedSession {
    type V = BufferedState;

    closed spec fn view(&self) -> BufferedState {
        self.state
    }
}

impl BufferedSession {
    #[verifier::type_invariant]
    spec fn inv(self) -> bool {
        self.state.wf()
    }

    /// The state, for inspection. It is well-formed at all times, and a
    /// sampling session has asked for no more reads than the file has
    /// strides.
    pub fn state(&self) -> (s: BufferedState)
        ensures
            s == self@,
            s.wf(),
            s.sparse ==> s.reads() <= ceil_div(s.file_size as int, BUFFERED_SAMPLE_STRIDE as int),
    {
        proof {
            use_type_invariant(self);
            if self.state.sparse {
                lemma_sample_bound(self.state);
            }
        }
        self.state
    }

    /// What to do next. A sample is taken inside the file.
    pub fn action(&self) -> (a: BufferedAction)
        ensures
            a == self@.action(),
            a matches BufferedAction::Sample(r) ==> r.offset < self@.file_size && r.len
                == BUFFERED_SAMPLE_LEN,
    {
        proof {
            use_type_invariant(self);
        }
        let s: BufferedState = self.state;
        match s.phase {
            BufferedPhase::Opening => BufferedAction::Open,
            BufferedPhase::Reading => if s.sparse {
                BufferedAction::Sample(ReadRequest { offset: s.cursor, len: BUFFERED_SAMPLE_LEN })
            } else {
                BufferedAction::ReadNext { len: BUFFERED_CHUNK }
            },
            BufferedPhase::Dropping => BufferedAction::Advise {
                advice: Advice::DontNeed,
                offset: 0,
                len: hint_len(s.file_size),
            },
            BufferedPhase::Finished => BufferedAction::Done(
                match s.error {
                    Some(e) => Err(e),
                    None => Ok(
                        if s.sparse {
                            Method::TokioSparse
                        } else {
                            Method::TokioFull
                        },
                    ),
                },
            ),
        }
    }

    /// Takes in what the caller reports.
    pub fn advance(&mut self, event: BufferedEvent)
        ensures
            final(self)@ == old(self)@.step(event),
    {
        proof {
            use_type_invariant(&*self);
        }
        self.state = step_state(self.state, event);
    }

    pub fn is_finished(&self) -> (b: bool)
        ensures
            b == (self@.phase == BufferedPhase::Finished),
    {
        self.state.phase == BufferedPhase::Finished
    }

    /// The result of a finished session, `None` while it is still running.
    pub fn result(&self, duration: std::time::Duration) -> (r: Option<
        Result<WarmingResult, WarmError>,
    >)
        ensures
            r is Some <==> self@.phase == BufferedPhase::Finished,
            r matches Some(Err(e)) ==> self@.error == Some(e),
            r matches Some(Ok(w)) ==> self@.error is None && w.method@ == self@.method().spec_tag()
                && w.success && w.duration == duration,
    {
        let s: BufferedState = self.state;
        if s.phase != BufferedPhase::Finished {
            return None;
        }
        match s.error {
            Some(e) => Some(Err(e)),
            None => {
                let method: Method = if s.sparse {
                    Method::TokioSparse
                } else {
                    Method::TokioFull
                };
                Some(Ok(method.report(true, duration)))
            },
        }
    }
}

/// The session of the generic backend: past the page cache or through it.
pub enum TokioSession {
    Direct(DirectSession),
    Buffered(BufferedSession),
}

/// Whether the generic backend reads past the page cache: where that was
/// asked for, on Linux.
pub open spec fn reads_direct(options: WarmingOptions, platform: Platform) -> bool {
    options.use_direct_io && platform.os == Os::Linux
}

/// Starts a session that reads `file_size` bytes past the page cache: sampled
/// where the file is over a threshold above zero, whole otherwise.
pub fn warm_with_direct_io(file_size: u64, sparse_threshold: u64) -> (session: DirectSession)
    ensures
        session@ == DirectState::start(
            DirectFamily::Tokio,
            file_size,
            wants_sparse(file_size, sparse_threshold),
        ),
{
    DirectSession::new(DirectFamily::Tokio, file_size, use_sparse(file_size, sparse_threshold))
}

/// Starts a session that reads `file_size` bytes through the page cache:
/// sampled where the file is over a threshold above zero, whole otherwise.
/// On Linux the data is dropped from the page cache afterwards.
pub fn warm_with_manual_reading(file_size: u64, sparse_threshold: u64, os: Os) -> (session:
    BufferedSession)
    ensures
        session@ == BufferedState::start(
            file_size,
            wants_sparse(file_size, sparse_threshold),
            os == Os::Linux,
        ),
{
    BufferedSession {
        state: BufferedState {
            file_size,
            sparse: use_sparse(file_size, sparse_threshold),
            drops_cache: os == Os::Linux,
            phase: BufferedPhase::Opening,
            cursor: 0,
            samples: 0,
            bytes_read: 0,
            error: None,
        },
    }
}

/// Starts the generic backend's session for a file.
pub fn warm_file(file_size: u64, options: &WarmingOptions, platform: &Platform) -> (session:
    TokioSession)
    ensures
        session is Direct <==> reads_direct(*options, *platform),
        session matches TokioSession::Direct(d) ==> d@ == DirectState::start(
            DirectFamily::Tokio,
            file_size,
            wants_sparse(file_size, options.sparse_large_files),
        ),
        session matches TokioSession::Buffered(b) ==> b@ == BufferedState::start(
            file_size,
            wants_sparse(file_size, options.sparse_large_files),
            platform.os == Os::Linux,
        ),
{
    if options.use_direct_io && platform.os == Os::Linux {
        TokioSession::Direct(warm_with_direct_io(file_size, options.sparse_large_files))
    } else {
        TokioSession::Buffered(
            warm_with_manual_reading(file_size, options.sparse_large_files, platform.os),
        )
    }
}

} // verus!
