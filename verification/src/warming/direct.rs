//! Cache-bypassing reads, one at a time.
//!
//! The session shared by the backends that read a file past the page cache
//! with one buffer: every read starts at a block boundary, asks for whole
//! blocks and fills a block-aligned buffer, which is obtained before the first
//! read and freed once after the last, however the reading ended.

use vstd::prelude::*;
use crate::buffer::{
    align_down,
    align_down_spec,
    is_aligned,
    lemma_block_layouts,
    valid_layout,
    BLOCK_SIZE,
};
use crate::warming::{Method, WarmError, WarmingResult};
use crate::warming::sampling::{
    advance_capped,
    ceil_div,
    chunk_len,
    direct_chunk_len,
    lemma_ceil_div_least,
    lemma_index_in_file,
    step_cursor,
    ReadRequest,
    DIRECT_CHUNK,
    DIRECT_SAMPLE_LEN,
    DIRECT_SAMPLE_STRIDE,
};

verus! {

/// Which backend carries out the reads.
#[derive(Debug, Clone, Copy, PartialEq, Eq, Structural)]
pub enum DirectFamily {
    IoUring,
    Tokio,
}

/// Where a session stands.
#[derive(Debug, Clone, Copy, PartialEq, Eq, Structural)]
pub enum DirectPhase {
    Opening,
    Allocating,
    Reading,
    Releasing,
    Finished,
}

/// What became of the session's buffer.
#[derive(Debug, Clone, Copy, PartialEq, Eq, Structural)]
pub enum BufferState {
    /// None was obtained yet.
    Absent,
    /// It is allocated and not yet freed.
    Held,
    /// It was freed.
    Released,
}

/// What the caller is to do next.
#[derive(Debug, Clone, Copy, PartialEq, Eq)]
pub enum DirectAction {
    /// Open the file for cache-bypassing reads.
    Open,
    /// Obtain the buffer, of this layout.
    Allocate { size: usize, align: usize },
    /// Read into the buffer.
    Read(ReadRequest),
    /// Free the buffer.
    Release,
    /// Nothing is left to do: this is the outcome.
    Done(Result<Method, WarmError>),
}

/// What the caller reports back.
#[derive(Debug, Clone, Copy, PartialEq, Eq, Structural)]
pub enum DirectEvent {
    Opened,
    OpenFailed(WarmError),
    Allocated,
    AllocationFailed,
    /// The read returned this many bytes.
    ReadDone(usize),
    /// The read, or the seek before it, failed.
    ReadFailed,
    Released,
}

/// The method under which a backend reports cache-bypassing reads, sampled
/// or not.
pub open spec fn direct_method(family: DirectFamily, sparse: bool) -> Method {
    match (family, sparse) {
        (DirectFamily::IoUring, true) => Method::IoUringDirectSparse,
        (DirectFamily::IoUring, false) => Method::IoUringDirectFull,
        (DirectFamily::Tokio, true) => Method::TokioDirectSparse,
        (DirectFamily::Tokio, false) => Method::TokioDirectFull,
    }
}

/// The state of one file's session, as plain values.
#[derive(Debug, Clone, Copy, PartialEq, Eq, Structural)]
pub struct DirectState {
    pub family: DirectFamily,
    pub file_size: u64,
    pub sparse: bool,
    pub phase: DirectPhase,
    pub buffer: BufferState,
    /// The first byte that no read has covered yet (whole file), or the
    /// offset of the next sample.
    pub cursor: u64,
    /// Reads that returned data.
    pub samples: u64,
    pub error: Option<WarmError>,
}

impl DirectState {
    /// The state before anything was done.
    pub open spec fn start(family: DirectFamily, file_size: u64, sparse: bool) -> DirectState {
        DirectState {
            family,
            file_size,
            sparse,
            phase: DirectPhase::Opening,
            buffer: BufferState::Absent,
            cursor: 0,
            samples: 0,
            error: None,
        }
    }

    pub open spec fn wf(self) -> bool {
        &&& self.cursor <= self.file_size
        &&& self.samples <= self.cursor
        &&& self.sparse ==> {
            &&& self.file_size > 0
            &&& self.cursor < self.file_size ==> self.cursor == self.samples * DIRECT_SAMPLE_STRIDE
            &&& self.cursor == self.file_size ==> self.samples == ceil_div(
                self.file_size as int,
                DIRECT_SAMPLE_STRIDE as int,
            )
        }
        &&& match self.phase {
            DirectPhase::Opening | DirectPhase::Allocating => self.buffer == BufferState::Absent
                && self.cursor == 0 && self.samples == 0 && self.error is None,
            DirectPhase::Reading => self.buffer == BufferState::Held && self.cursor
                < self.file_size && self.error is None,
            DirectPhase::Releasing => self.buffer == BufferState::Held && self.error is None,
            DirectPhase::Finished => self.buffer != BufferState::Held && (self.error is None
                <==> self.buffer == BufferState::Released),
        }
    }

    /// The method under which the session reports.
    pub open spec fn method(self) -> Method {
        direct_method(self.family, self.sparse)
    }

    /// The outcome of a finished session: the error that kept it from
    /// reading, or else the method that ran. A read that fails ends the
    /// reading, not the session.
    pub open spec fn outcome(self) -> Result<Method, WarmError> {
        match self.error {
            Some(e) => Err(e),
            None => Ok(self.method()),
        }
    }

    /// The size of the buffer.
    pub open spec fn buffer_size(self) -> usize {
        if self.sparse {
            DIRECT_SAMPLE_LEN
        } else {
            DIRECT_CHUNK
        }
    }

    /// The next read: from the block boundary at or before the cursor, one
    /// block for a sample, else what is left of the file in whole blocks, at
    /// most a chunk.
    pub open spec fn request(self) -> ReadRequest {
        let offset: u64 = align_down_spec(self.cursor as int, BLOCK_SIZE as int) as u64;
        ReadRequest {
            offset,
            len: if self.sparse {
                DIRECT_SAMPLE_LEN
            } else {
                direct_chunk_len(self.file_size, offset) as usize
            },
        }
    }

    pub open spec fn action(self) -> DirectAction {
        match self.phase {
            DirectPhase::Opening => DirectAction::Open,
            DirectPhase::Allocating => DirectAction::Allocate {
                size: self.buffer_size(),
                align: BLOCK_SIZE as usize,
            },
            DirectPhase::Reading => DirectAction::Read(self.request()),
            DirectPhase::Releasing => DirectAction::Release,
            DirectPhase::Finished => DirectAction::Done(self.outcome()),
        }
    }

    /// The cursor after a read that returned `n` bytes, or `None` where the
    /// read brought nothing new and the reading ends. A sample that returned
    /// data moves the cursor on by one stride. A chunk moves it to the end of
    /// the bytes it returned, of which no more count than were asked for.
    pub open spec fn cursor_after(self, n: usize) -> Option<u64> {
        if self.sparse {
            if n == 0 {
                None
            } else {
                Some(advance_capped(self.file_size, self.cursor, DIRECT_SAMPLE_STRIDE))
            }
        } else {
            let request: ReadRequest = self.request();
            let got: int = if n < request.len {
                n as int
            } else {
                request.len as int
            };
            let reached: int = request.offset + got;
            if reached <= self.cursor {
                None
            } else if reached >= self.file_size {
                Some(self.file_size)
            } else {
                Some(reached as u64)
            }
        }
    }

    /// The state after a read that returned `n` bytes.
    pub open spec fn after_read(self, n: usize) -> DirectState {
        match self.cursor_after(n) {
            None => DirectState { phase: DirectPhase::Releasing, ..self },
            Some(cursor) => DirectState {
                cursor,
                samples: (self.samples + 1) as u64,
                phase: if cursor < self.file_size {
                    DirectPhase::Reading
                } else {
                    DirectPhase::Releasing
                },
                ..self
            },
        }
    }

    /// The state after `event`. An event that does not answer the pending
    /// action changes nothing.
    pub open spec fn step(self, event: DirectEvent) -> DirectState {
        match (self.phase, event) {
            (DirectPhase::Opening, DirectEvent::Opened) => DirectState {
                phase: DirectPhase::Allocating,
                ..self
            },
            (DirectPhase::Opening, DirectEvent::OpenFailed(e)) => DirectState {
                phase: DirectPhase::Finished,
                error: Some(e),
                ..self
            },
            (DirectPhase::Allocating, DirectEvent::Allocated) => DirectState {
                phase: if self.file_size > 0 {
                    DirectPhase::Reading
                } else {
                    DirectPhase::Releasing
                },
                buffer: BufferState::Held,
                ..self
            },
            (DirectPhase::Allocating, DirectEvent::AllocationFailed) => DirectState {
                phase: DirectPhase::Finished,
                error: Some(WarmError::OutOfMemory),
                ..self
            },
            (DirectPhase::Reading, DirectEvent::ReadDone(n)) => self.after_read(n),
            (DirectPhase::Reading, DirectEvent::ReadFailed) => DirectState {
                phase: DirectPhase::Releasing,
                ..self
            },
            (DirectPhase::Releasing, DirectEvent::Released) => DirectState {
                phase: DirectPhase::Finished,
                buffer: BufferState::Released,
                ..self
            },
            _ => self,
        }
    }

    /// A bound on the events that the session still takes in before it is
    /// finished.
    pub open spec fn remaining(self) -> int {
        match self.phase {
            DirectPhase::Opening => self.file_size + 4,
            DirectPhase::Allocating => self.file_size + 3,
            DirectPhase::Reading => self.file_size - self.cursor + 2,
            DirectPhase::Releasing => 1,
            DirectPhase::Finished => 0,
        }
    }

    /// Whether the reading ended before the cursor reached the end of the
    /// file: on a read that failed or brought nothing new.
    pub open spec fn ended_early(self) -> bool {
        self.buffer != BufferState::Absent && self.phase != DirectPhase::Reading && self.cursor
            < self.file_size
    }

    /// The number of reads asked for so far and answered: those that
    /// returned data, and the one that ended the reading early.
    pub open spec fn reads(self) -> int {
        if self.ended_early() {
            self.samples + 1
        } else {
            self.samples as int
        }
    }
}

/// A session starts well-formed, by asking for the file to be opened.
pub proof fn lemma_start_wf(family: DirectFamily, file_size: u64, sparse: bool)
    requires
        sparse ==> file_size > 0,
    ensures
        DirectState::start(family, file_size, sparse).wf(),
        DirectState::start(family, file_size, sparse).action() == DirectAction::Open,
{
}

/// Every event leaves a well-formed session well-formed.
pub proof fn lemma_step_wf(s: DirectState, event: DirectEvent)
    requires
        s.wf(),
    ensures
        s.step(event).wf(),
{
    if s.phase == DirectPhase::Reading {
        if let DirectEvent::ReadDone(n) = event {
            lemma_after_read(s, n);
        }
    }
}

/// A read that returned something new moves the cursor forward, and never
/// past the end of the file.
pub proof fn lemma_after_read(s: DirectState, n: usize)
    requires
        s.wf(),
        s.phase == DirectPhase::Reading,
    ensures
        s.after_read(n).wf(),
        s.cursor_after(n) matches Some(c) ==> s.cursor < c <= s.file_size,
        s.sparse && n > 0 ==> s.cursor_after(n) is Some,
        s.after_read(n).reads() == s.reads() + 1,
{
    if s.sparse {
        if n > 0 {
            let k: int = DIRECT_SAMPLE_STRIDE as int;
            let size: int = s.file_size as int;
            let i: int = s.samples as int;
            lemma_index_in_file(size, k, i);
            lemma_index_in_file(size, k, i + 1);
            lemma_ceil_div_least(size, k);
            assert((i + 1) * k == i * k + k) by (nonlinear_arith);
        }
    }
}

/// A session comes to its end: every event that it takes in brings it closer
/// to being finished, and as long as it is not finished there is an event
/// that it takes in, the one that answers what it asked for.
pub proof fn lemma_progress(s: DirectState, event: DirectEvent)
    requires
        s.wf(),
    ensures
        s.remaining() >= 0,
        s.remaining() == 0 <==> s.phase == DirectPhase::Finished,
        s.step(event) == s || s.step(event).remaining() < s.remaining(),
        s.phase != DirectPhase::Finished ==> s.step(DirectEvent::Opened) != s || s.step(
            DirectEvent::Allocated,
        ) != s || s.step(DirectEvent::ReadFailed) != s || s.step(DirectEvent::Released) != s,
{
    lemma_step_wf(s, event);
    if s.phase == DirectPhase::Reading {
        if let DirectEvent::ReadDone(n) = event {
            lemma_after_read(s, n);
        }
    }
}

/// Every read starts inside the file, at a block boundary and not after the
/// cursor, and asks for whole blocks: at least one, no more than the buffer
/// holds, and enough to reach past the cursor.
pub proof fn lemma_read_request(s: DirectState)
    requires
        s.wf(),
        s.phase == DirectPhase::Reading,
    ensures
        s.action() == DirectAction::Read(s.request()),
        s.request().offset <= s.cursor < s.file_size,
        is_aligned(s.request().offset as int, BLOCK_SIZE as int),
        is_aligned(s.request().len as int, BLOCK_SIZE as int),
        0 < s.request().len <= s.buffer_size(),
        s.request().offset + s.request().len > s.cursor,
        s.sparse ==> s.request().offset == s.samples * DIRECT_SAMPLE_STRIDE,
{
    if s.sparse {
        let i: int = s.samples as int;
        assert((i * 65536) % 4096 == 0) by (nonlinear_arith);
    }
}

/// The buffer that a session asks for has a layout that can be had: one
/// block for samples, a chunk of whole blocks otherwise, aligned to a block.
pub proof fn lemma_buffer_layout(s: DirectState)
    ensures
        valid_layout(s.buffer_size(), BLOCK_SIZE as usize),
        s.phase == DirectPhase::Allocating ==> s.action() == (DirectAction::Allocate {
            size: s.buffer_size(),
            align: BLOCK_SIZE as usize,
        }),
{
    lemma_block_layouts(1);
    lemma_block_layouts(256);
}

/// Sampling asks for no more reads than the file has strides, however the
/// reads went.
pub proof fn lemma_sample_bound(s: DirectState)
    requires
        s.wf(),
        s.sparse,
    ensures
        s.samples <= s.reads() <= ceil_div(s.file_size as int, DIRECT_SAMPLE_STRIDE as int),
{
    let k: int = DIRECT_SAMPLE_STRIDE as int;
    lemma_index_in_file(s.file_size as int, k, s.samples as int);
    lemma_ceil_div_least(s.file_size as int, k);
}

/// The buffer is obtained at most once, by the allocation that was asked
/// for, and freed exactly once, by the release that was asked for: a buffer
/// that is held stays held until then, a buffer that was freed stays freed,
/// and a finished session holds none.
pub proof fn lemma_buffer_lifecycle(s: DirectState, event: DirectEvent)
    requires
        s.wf(),
    ensures
        s.buffer != BufferState::Held && s.step(event).buffer == BufferState::Held ==> s.buffer
            == BufferState::Absent && s.action() == (DirectAction::Allocate {
            size: s.buffer_size(),
            align: BLOCK_SIZE as usize,
        }) && event == DirectEvent::Allocated,
        s.buffer == BufferState::Held && s.step(event).buffer != BufferState::Held ==> s.action()
            == DirectAction::Release && event == DirectEvent::Released && s.step(event).buffer
            == BufferState::Released,
        s.buffer == BufferState::Released ==> s.step(event).buffer == BufferState::Released,
        s.buffer == BufferState::Absent ==> s.step(event).buffer != BufferState::Released,
        s.phase == DirectPhase::Finished ==> s.buffer != BufferState::Held && s.step(event) == s,
{
    lemma_step_wf(s, event);
}

fn read_request(s: DirectState) -> (r: ReadRequest)
    requires
        s.wf(),
        s.phase == DirectPhase::Reading,
    ensures
        r == s.request(),
{
    let offset: u64 = align_down(s.cursor, BLOCK_SIZE);
    ReadRequest {
        offset,
        len: if s.sparse {
            DIRECT_SAMPLE_LEN
        } else {
            chunk_len(s.file_size, offset)
        },
    }
}

fn read_done(s: DirectState, n: usize) -> (r: DirectState)
    requires
        s.wf(),
        s.phase == DirectPhase::Reading,
    ensures
        r == s.after_read(n),
        r.wf(),
{
    proof {
        lemma_after_read(s, n);
    }
    let next: Option<u64> = if s.sparse {
        if n == 0 {
            None
        } else {
            Some(step_cursor(s.file_size, s.cursor, DIRECT_SAMPLE_STRIDE))
        }
    } else {
        let request: ReadRequest = read_request(s);
        let got: u64 = if n < request.len {
            n as u64
        } else {
            request.len as u64
        };
        if got >= s.file_size - request.offset {
            Some(s.file_size)
        } else if request.offset + got <= s.cursor {
            None
        } else {
            Some(request.offset + got)
        }
    };
    let mut r: DirectState = s;
    match next {
        None => {
            r.phase = DirectPhase::Releasing;
        },
        Some(cursor) => {
            r.cursor = cursor;
            r.samples = s.samples + 1;
            r.phase = if cursor < s.file_size {
                DirectPhase::Reading
            } else {
                DirectPhase::Releasing
            };
        },
    }
    r
}

fn step_state(s: DirectState, event: DirectEvent) -> (r: DirectState)
    requires
        s.wf(),
    ensures
        r == s.step(event),
        r.wf(),
{
    proof {
        lemma_step_wf(s, event);
    }
    let mut r: DirectState = s;
    match (s.phase, event) {
        (DirectPhase::Opening, DirectEvent::Opened) => {
            r.phase = DirectPhase::Allocating;
        },
        (DirectPhase::Opening, DirectEvent::OpenFailed(e)) => {
            r.phase = DirectPhase::Finished;
            r.error = Some(e);
        },
        (DirectPhase::Allocating, DirectEvent::Allocated) => {
            r.phase = if s.file_size > 0 {
                DirectPhase::Reading
            } else {
                DirectPhase::Releasing
            };
            r.buffer = BufferState::Held;
        },
        (DirectPhase::Allocating, DirectEvent::AllocationFailed) => {
            r.phase = DirectPhase::Finished;
            r.error = Some(WarmError::OutOfMemory);
        },
        (DirectPhase::Reading, DirectEvent::ReadDone(n)) => {
            r = read_done(s, n);
        },
        (DirectPhase::Reading, DirectEvent::ReadFailed) => {
            r.phase = DirectPhase::Releasing;
        },
        (DirectPhase::Releasing, DirectEvent::Released) => {
            r.phase = DirectPhase::Finished;
            r.buffer = BufferState::Released;
        },
        _ => {},
    }
    r
}

fn method_of(family: DirectFamily, sparse: bool) -> (m: Method)
    ensures
        m == direct_method(family, sparse),
{
    match (family, sparse) {
        (DirectFamily::IoUring, true) => Method::IoUringDirectSparse,
        (DirectFamily::IoUring, false) => Method::IoUringDirectFull,
        (DirectFamily::Tokio, true) => Method::TokioDirectSparse,
        (DirectFamily::Tokio, false) => Method::TokioDirectFull,
    }
}

/// One file's session of cache-bypassing reads.
pub struct DirectSession {
    state: DirectState,
}

impl View for DirectSession {
    type V = DirectState;

    closed spec fn view(&self) -> DirectState {
        self.state
    }
}

impl DirectSession {
    #[verifier::type_invariant]
    spec fn inv(self) -> bool {
        self.state.wf()
    }

    /// Starts a session. An empty file is never sampled: it is read whole,
    /// which is to read nothing.
    pub fn new(family: DirectFamily, file_size: u64, sparse: bool) -> (session: DirectSession)
        ensures
            session@ == DirectState::start(family, file_size, sparse && file_size > 0),
    {
        DirectSession {
            state: DirectState {
                family,
                file_size,
                sparse: sparse && file_size > 0,
                phase: DirectPhase::Opening,
                buffer: BufferState::Absent,
                cursor: 0,
                samples: 0,
                error: None,
            },
        }
    }

    /// The state, for inspection. It is well-formed at all times, and a
    /// sampling session has asked for no more reads than the file has
    /// strides.
    pub fn state(&self) -> (s: DirectState)
        ensures
            s == self@,
            s.wf(),
            s.sparse ==> s.reads() <= ceil_div(s.file_size as int, DIRECT_SAMPLE_STRIDE as int),
            s.phase == DirectPhase::Finished ==> s.buffer != BufferState::Held,
    {
        proof {
            use_type_invariant(self);
            if self.state.sparse {
                lemma_sample_bound(self.state);
            }
        }
        self.state
    }

    /// What to do next. A read starts inside the file, at a block boundary,
    /// and asks for whole blocks, no more than the buffer holds.
    pub fn action(&self) -> (a: DirectAction)
        ensures
            a == self@.action(),
            a matches DirectAction::Read(r) ==> r.offset < self@.file_size && is_aligned(
                r.offset as int,
                BLOCK_SIZE as int,
            ) && is_aligned(r.len as int, BLOCK_SIZE as int) && 0 < r.len <= self@.buffer_size(),
            a matches DirectAction::Allocate { size, align } ==> valid_layout(size, align),
    {
        proof {
            use_type_invariant(self);
            lemma_buffer_layout(self.state);
            if self.state.phase == DirectPhase::Reading {
                lemma_read_request(self.state);
            }
        }
        let s: DirectState = self.state;
        match s.phase {
            DirectPhase::Opening => DirectAction::Open,
            DirectPhase::Allocating => DirectAction::Allocate {
                size: if s.sparse {
                    DIRECT_SAMPLE_LEN
                } else {
                    DIRECT_CHUNK
                },
                align: BLOCK_SIZE as usize,
            },
            DirectPhase::Reading => DirectAction::Read(read_request(s)),
            DirectPhase::Releasing => DirectAction::Release,
            DirectPhase::Finished => DirectAction::Done(
                match s.error {
                    Some(e) => Err(e),
                    None => Ok(method_of(s.family, s.sparse)),
                },
            ),
        }
    }

    /// Takes in what the caller reports.
    pub fn advance(&mut self, event: DirectEvent)
        ensures
            final(self)@ == old(self)@.step(event),
    {
        proof {
            use_type_invariant(&*self);
        }
        self.state = step_state(self.state, event);
    }

    pub fn is_finished(&self) -> (b: bool)
        ensures
            b == (self@.phase == DirectPhase::Finished),
    {
        self.state.phase == DirectPhase::Finished
    }

    /// The result of a finished session, `None` while it is still running.
    pub fn result(&self, duration: std::time::Duration) -> (r: Option<
        Result<WarmingResult, WarmError>,
    >)
        ensures
            r is Some <==> self@.phase == DirectPhase::Finished,
            r matches Some(Err(e)) ==> self@.error == Some(e),
            r matches Some(Ok(w)) ==> self@.error is None && w.method@ == self@.method().spec_tag()
                && w.success && w.duration == duration,
    {
        let s: DirectState = self.state;
        if s.phase != DirectPhase::Finished {
            return None;
        }
        match s.error {
            Some(e) => Some(Err(e)),
            None => Some(Ok(method_of(s.family, s.sparse).report(true, duration))),
        }
    }
}

} // verus!
