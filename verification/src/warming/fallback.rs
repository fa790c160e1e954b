//! The cache-hint backend: the file is not read, the operating system is told
//! that it will be needed, and, once that is accepted, that it is no longer
//! needed, so that the fetched data does not stay in memory.
//!
//! Linux takes the hints on the open file. macOS takes them on a mapping of
//! the file, which is taken down again whatever the hints came to. Elsewhere
//! there is no hint to give, and the session reports so without failing.

use vstd::prelude::*;
use crate::warming::{Method, Os, WarmError, WarmingResult};

verus! {

/// What the operating system is told about a range of a file.
#[derive(Debug, Clone, Copy, PartialEq, Eq, Structural)]
pub enum Advice {
    /// The range will be needed soon: fetch it.
    WillNeed,
    /// The range is no longer needed: drop it from the page cache.
    DontNeed,
    /// The mapped range may be reclaimed.
    Free,
}

/// Where a session stands.
#[derive(Debug, Clone, Copy, PartialEq, Eq, Structural)]
pub enum HintPhase {
    Opening,
    /// The will-need hint on the file is pending.
    Warming,
    /// The do-not-need hint on the file is pending.
    Dropping,
    Mapping,
    /// The will-need hint on the mapping is pending.
    WarmingMapped,
    /// The free hint on the mapping is pending.
    DroppingMapped,
    Unmapping,
    Finished,
}

/// What the caller is to do next.
#[derive(Debug, Clone, Copy, PartialEq, Eq)]
#[allow(inconsistent_fields)]
pub enum HintAction {
    /// Open the file.
    Open,
    /// Give a hint on a range of the open file. A length of zero reaches to
    /// the end of the file.
    Advise { advice: Advice, offset: i64, len: i64 },
    /// Map the first `len` bytes of the file, with no access rights.
    MapFile { len: usize },
    /// Give a hint on the mapping.
    AdviseMapped { advice: Advice, len: usize },
    /// Take the mapping down.
    Unmap { len: usize },
    /// Nothing is left to do: this is the outcome. The flag tells whether
    /// the file was warmed.
    Done(Result<(Method, bool), WarmError>),
}

/// What the caller reports back.
#[derive(Debug, Clone, Copy, PartialEq, Eq, Structural)]
pub enum HintEvent {
    Opened,
    OpenFailed(WarmError),
    /// The hint was given; the flag tells whether it was accepted.
    Advised(bool),
    /// The mapping was attempted; the flag tells whether it exists.
    Mapped(bool),
    Unmapped,
}

/// The length of a file as a hint takes it: signed, at most `i64::MAX`.
pub open spec fn hint_len_spec(file_size: u64) -> i64 {
    if file_size > i64::MAX as u64 {
        i64::MAX
    } else {
        file_size as i64
    }
}

pub fn hint_len(file_size: u64) -> (len: i64)
    ensures
        len == hint_len_spec(file_size),
        0 <= len <= file_size,
{
    if file_size > i64::MAX as u64 {
        i64::MAX
    } else {
        file_size as i64
    }
}

/// The length of a file as a mapping takes it: at most `usize::MAX`.
pub open spec fn map_len_spec(file_size: u64) -> usize {
    if file_size > usize::MAX as u64 {
        usize::MAX
    } else {
        file_size as usize
    }
}

pub fn map_len(file_size: u64) -> (len: usize)
    ensures
        len == map_len_spec(file_size),
        len <= file_size,
{
    if file_size > usize::MAX as u64 {
        usize::MAX
    } else {
        file_size as usize
    }
}

/// The method under which the hints of an operating system are reported.
pub open spec fn hint_method(os: Os) -> Method {
    match os {
        Os::Linux => Method::LinuxFadvise,
        Os::MacOs => Method::MacosMadvise,
        Os::Other => Method::OsHintsUnsupported,
    }
}

/// The state of one file's session, as plain values.
#[derive(Debug, Clone, Copy, PartialEq, Eq, Structural)]
pub struct HintState {
    pub os: Os,
    pub file_size: u64,
    pub phase: HintPhase,
    /// A mapping of the file exists.
    pub mapped: bool,
    /// The will-need hint was accepted.
    pub success: bool,
    pub error: Option<WarmError>,
}

impl HintState {
    /// The state before anything was done.
    pub open spec fn start(os: Os, file_size: u64) -> HintState {
        HintState {
            os,
            file_size,
            phase: HintPhase::Opening,
            mapped: false,
            success: false,
            error: None,
        }
    }

    /// The state in which the hints on an open file begin.
    pub open spec fn fadvise(file_size: u64) -> HintState {
        HintState { phase: HintPhase::Warming, ..HintState::start(Os::Linux, file_size) }
    }

    /// The state in which the hints on a mapping of an open file begin.
    pub open spec fn madvise(file_size: u64) -> HintState {
        HintState { phase: HintPhase::Mapping, ..HintState::start(Os::MacOs, file_size) }
    }

    pub open spec fn wf(self) -> bool {
        &&& self.mapped <==> self.phase == HintPhase::WarmingMapped || self.phase
            == HintPhase::DroppingMapped || self.phase == HintPhase::Unmapping
        &&& self.error is Some ==> self.phase == HintPhase::Finished && !self.success
        &&& match self.phase {
            HintPhase::Opening => !self.success,
            HintPhase::Warming => self.os == Os::Linux && !self.success,
            HintPhase::Dropping => self.os == Os::Linux && self.success,
            HintPhase::Mapping | HintPhase::WarmingMapped => self.os == Os::MacOs && !self.success,
            HintPhase::DroppingMapped => self.os == Os::MacOs && self.success,
            HintPhase::Unmapping => self.os == Os::MacOs,
            HintPhase::Finished => self.success ==> self.os != Os::Other,
        }
    }

    /// The method under which the session reports.
    pub open spec fn method(self) -> Method {
        hint_method(self.os)
    }

    /// The outcome of a finished session: the error that kept the file from
    /// being opened, or else the method and whether the file was warmed.
    pub open spec fn outcome(self) -> Result<(Method, bool), WarmError> {
        match self.error {
            Some(e) => Err(e),
            None => Ok((self.method(), self.success)),
        }
    }

    pub open spec fn action(self) -> HintAction {
        match self.phase {
            HintPhase::Opening => HintAction::Open,
            HintPhase::Warming => HintAction::Advise {
                advice: Advice::WillNeed,
                offset: 0,
                len: hint_len_spec(self.file_size),
            },
            HintPhase::Dropping => HintAction::Advise {
                advice: Advice::DontNeed,
                offset: 0,
                len: hint_len_spec(self.file_size),
            },
            HintPhase::Mapping => HintAction::MapFile { len: map_len_spec(self.file_size) },
            HintPhase::WarmingMapped => HintAction::AdviseMapped {
                advice: Advice::WillNeed,
                len: map_len_spec(self.file_size),
            },
            HintPhase::DroppingMapped => HintAction::AdviseMapped {
                advice: Advice::Free,
                len: map_len_spec(self.file_size),
            },
            HintPhase::Unmapping => HintAction::Unmap { len: map_len_spec(self.file_size) },
            HintPhase::Finished => HintAction::Done(self.outcome()),
        }
    }

    /// A bound on the events that the session still takes in before it is
    /// finished.
    pub open spec fn remaining(self) -> int {
        match self.phase {
            HintPhase::Opening => 6,
            HintPhase::Mapping => 5,
            HintPhase::WarmingMapped => 4,
            HintPhase::DroppingMapped => 3,
            HintPhase::Warming => 2,
            HintPhase::Dropping | HintPhase::Unmapping => 1,
            HintPhase::Finished => 0,
        }
    }

    /// The state after `event`. An event that does not answer the pending
    /// action changes nothing.
    pub open spec fn step(self, event: HintEvent) -> HintState {
        match (self.phase, event) {
            (HintPhase::Opening, HintEvent::Opened) => match self.os {
                Os::Linux => HintState::fadvise(self.file_size),
                Os::MacOs => HintState::madvise(self.file_size),
                Os::Other => HintState { phase: HintPhase::Finished, ..self },
            },
            (HintPhase::Opening, HintEvent::OpenFailed(e)) => HintState {
                phase: HintPhase::Finished,
                error: Some(e),
                ..self
            },
            (HintPhase::Warming, HintEvent::Advised(accepted)) => HintState {
                phase: if accepted {
                    HintPhase::Dropping
                } else {
                    HintPhase::Finished
                },
                success: accepted,
                ..self
            },
            (HintPhase::Dropping, HintEvent::Advised(_)) => HintState {
                phase: HintPhase::Finished,
                ..self
            },
            (HintPhase::Mapping, HintEvent::Mapped(exists)) => HintState {
                phase: if exists {
                    HintPhase::WarmingMapped
                } else {
                    HintPhase::Finished
                },
                mapped: exists,
                ..self
            },
            (HintPhase::WarmingMapped, HintEvent::Advised(accepted)) => HintState {
                phase: if accepted {
                    HintPhase::DroppingMapped
                } else {
                    HintPhase::Unmapping
                },
                success: accepted,
                ..self
            },
            (HintPhase::DroppingMapped, HintEvent::Advised(_)) => HintState {
                phase: HintPhase::Unmapping,
                ..self
            },
            (HintPhase::Unmapping, HintEvent::Unmapped) => HintState {
                phase: HintPhase::Finished,
                mapped: false,
                ..self
            },
            _ => self,
        }
    }
}

/// A session starts well-formed, by asking for the file to be opened, and so
/// do the two ways of giving the hints.
pub proof fn lemma_start_wf(os: Os, file_size: u64)
    ensures
        HintState::start(os, file_size).wf(),
        HintState::start(os, file_size).action() == HintAction::Open,
        HintState::fadvise(file_size).wf(),
        HintState::madvise(file_size).wf(),
{
}

/// Every event leaves a well-formed session well-formed.
pub proof fn lemma_step_wf(s: HintState, event: HintEvent)
    requires
        s.wf(),
    ensures
        s.step(event).wf(),
{
}

/// A session comes to its end, after six events at most: every event that
/// it takes in brings it closer to being finished, and as long as it is not
/// finished there is an event that it takes in.
pub proof fn lemma_progress(s: HintState, event: HintEvent)
    requires
        s.wf(),
    ensures
        0 <= s.remaining() <= 6,
        s.remaining() == 0 <==> s.phase == HintPhase::Finished,
        s.step(event) == s || s.step(event).remaining() < s.remaining(),
        s.phase != HintPhase::Finished ==> s.step(HintEvent::Opened) != s || s.step(
            HintEvent::Advised(true),
        ) != s || s.step(HintEvent::Mapped(true)) != s || s.step(HintEvent::Unmapped) != s,
{
}

/// The file counts as warmed exactly when the will-need hint was accepted,
/// and only then is it dropped again: the drop hint is asked for right after
/// the will-need hint was accepted and at no other time, and whether it is
/// accepted changes nothing.
pub proof fn lemma_drop_follows_warm(s: HintState, event: HintEvent)
    requires
        s.wf(),
    ensures
        (s.step(event).phase == HintPhase::Dropping || s.step(event).phase
            == HintPhase::DroppingMapped) && s.step(event) != s ==> event == HintEvent::Advised(
            true,
        ) && (s.phase == HintPhase::Warming || s.phase == HintPhase::WarmingMapped),
        (s.phase == HintPhase::Warming || s.phase == HintPhase::WarmingMapped) ==> (
        s.step(event).success <==> event == HintEvent::Advised(true)),
        s.phase != HintPhase::Warming && s.phase != HintPhase::WarmingMapped && s.phase
            != HintPhase::Opening ==> s.step(event).success == s.success,
        s.phase == HintPhase::Finished ==> s.step(event) == s,
{
}

/// A mapping comes to be only by the mapping that was asked for, goes only by
/// the unmapping that was asked for, and a finished session has none.
pub proof fn lemma_mapping_lifecycle(s: HintState, event: HintEvent)
    requires
        s.wf(),
    ensures
        !s.mapped && s.step(event).mapped ==> s.phase == HintPhase::Mapping && event
            == HintEvent::Mapped(true),
        s.mapped && !s.step(event).mapped ==> s.phase == HintPhase::Unmapping && event
            == HintEvent::Unmapped && s.step(event).phase == HintPhase::Finished,
        s.phase == HintPhase::Finished ==> !s.mapped,
{
}

fn step_state(s: HintState, event: HintEvent) -> (r: HintState)
    requires
        s.wf(),
    ensures
        r == s.step(event),
        r.wf(),
{
    let mut r: HintState = s;
    match (s.phase, event) {
        (HintPhase::Opening, HintEvent::Opened) => {
            r.phase = match s.os {
                Os::Linux => HintPhase::Warming,
                Os::MacOs => HintPhase::Mapping,
                Os::Other => HintPhase::Finished,
            };
        },
        (HintPhase::Opening, HintEvent::OpenFailed(e)) => {
            r.phase = HintPhase::Finished;
            r.error = Some(e);
        },
        (HintPhase::Warming, HintEvent::Advised(accepted)) => {
            r.phase = if accepted {
                HintPhase::Dropping
            } else {
                HintPhase::Finished
            };
            r.success = accepted;
        },
        (HintPhase::Dropping, HintEvent::Advised(_)) => {
            r.phase = HintPhase::Finished;
        },
        (HintPhase::Mapping, HintEvent::Mapped(exists)) => {
            r.phase = if exists {
                HintPhase::WarmingMapped
            } else {
                HintPhase::Finished
            };
            r.mapped = exists;
        },
        (HintPhase::WarmingMapped, HintEvent::Advised(accepted)) => {
            r.phase = if accepted {
                HintPhase::DroppingMapped
            } else {
                HintPhase::Unmapping
            };
            r.success = accepted;
        },
        (HintPhase::DroppingMapped, HintEvent::Advised(_)) => {
            r.phase = HintPhase::Unmapping;
        },
        (HintPhase::Unmapping, HintEvent::Unmapped) => {
            r.phase = HintPhase::Finished;
            r.mapped = false;
        },
        _ => {},
    }
    r
}

fn method_for(os: Os) -> (m: Method)
    ensures
        m == hint_method(os),
{
    match os {
        Os::Linux => Method::LinuxFadvise,
        Os::MacOs => Method::MacosMadvise,
        Os::Other => Method::OsHintsUnsupported,
    }
}

/// One file's session with the cache-hint backend.
pub struct HintSession {
    state: HintState,
}

impl View for HintSession {
    type V = HintState;

    closed spec fn view(&self) -> HintState {
        self.state
    }
}

impl HintSession {
    #[verifier::type_invariant]
    spec fn inv(self) -> bool {
        self.state.wf()
    }

    /// The state, for inspection. It is well-formed at all times.
    pub fn state(&self) -> (s: HintState)
        ensures
            s == self@,
            s.wf(),
    {
        proof {
            use_type_invariant(self);
        }
        self.state
    }

    /// What to do next.
    pub fn action(&self) -> (a: HintAction)
        ensures
            a == self@.action(),
    {
        let s: HintState = self.state;
        match s.phase {
            HintPhase::Opening => HintAction::Open,
            HintPhase::Warming => HintAction::Advise {
                advice: Advice::WillNeed,
                offset: 0,
                len: hint_len(s.file_size),
            },
            HintPhase::Dropping => HintAction::Advise {
                advice: Advice::DontNeed,
                offset: 0,
                len: hint_len(s.file_size),
            },
            HintPhase::Mapping => HintAction::MapFile { len: map_len(s.file_size) },
            HintPhase::WarmingMapped => HintAction::AdviseMapped {
                advice: Advice::WillNeed,
                len: map_len(s.file_size),
            },
            HintPhase::DroppingMapped => HintAction::AdviseMapped {
                advice: Advice::Free,
                len: map_len(s.file_size),
            },
            HintPhase::Unmapping => HintAction::Unmap { len: map_len(s.file_size) },
            HintPhase::Finished => HintAction::Done(
                match s.error {
                    Some(e) => Err(e),
                    None => Ok((method_for(s.os), s.success)),
                },
            ),
        }
    }

    /// Takes in what the caller reports.
    pub fn advance(&mut self, event: HintEvent)
        ensures
            final(self)@ == old(self)@.step(event),
    {
        proof {
            use_type_invariant(&*self);
        }
        self.state = step_state(self.state, event);
    }

    pub fn is_finished(&self) -> (b: bool)
        ensures
            b == (self@.phase == HintPhase::Finished),
    {
        self.state.phase == HintPhase::Finished
    }

    /// The result of a finished session, `None` while it is still running.
    pub fn result(&self, duration: std::time::Duration) -> (r: Option<
        Result<WarmingResult, WarmError>,
    >)
        ensures
            r is Some <==> self@.phase == HintPhase::Finished,
            r matches Some(Err(e)) ==> self@.error == Some(e),
            r matches Some(Ok(w)) ==> self@.error is None && w.method@ == self@.method().spec_tag()
                && w.success == self@.success && w.duration == duration,
    {
        let s: HintState = self.state;
        if s.phase != HintPhase::Finished {
            return None;
        }
        match s.error {
            Some(e) => Some(Err(e)),
            None => Some(Ok(method_for(s.os).report(s.success, duration))),
        }
    }
}

/// Starts a session that warms a file of `file_size` bytes by hints alone.
pub fn warm_with_os_hints(os: Os, file_size: u64) -> (session: HintSession)
    ensures
        session@ == HintState::start(os, file_size),
{
    HintSession {
        state: HintState {
            os,
            file_size,
            phase: HintPhase::Opening,
            mapped: false,
            success: false,
            error: None,
        },
    }
}

/// The session that gives the hints on a file that is open already.
pub fn warm_with_fadvise(file_size: u64) -> (session: HintSession)
    ensures
        session@ == HintState::fadvise(file_size),
        session@ == HintState::start(Os::Linux, file_size).step(HintEvent::Opened),
{
    HintSession {
        state: HintState {
            os: Os::Linux,
            file_size,
            phase: HintPhase::Warming,
            mapped: false,
            success: false,
            error: None,
        },
    }
}

/// The session that gives the hints on a mapping of a file that is open
/// already.
pub fn warm_with_madvise(file_size: u64) -> (session: HintSession)
    ensures
        session@ == HintState::madvise(file_size),
        session@ == HintState::start(Os::MacOs, file_size).step(HintEvent::Opened),
{
    HintSession {
        state: HintState {
            os: Os::MacOs,
            file_size,
            phase: HintPhase::Mapping,
            mapped: false,
            success: false,
            error: None,
        },
    }
}

} // verus!
