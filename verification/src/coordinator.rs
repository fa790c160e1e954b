//! Bounded concurrency: how many units of work run at once.
//!
//! Discovered work arrives on a channel that never blocks the producer. The
//! coordinator takes a unit off it only while fewer units than the configured
//! queue depth are running, and it is done when the channel is closed and
//! every unit it started has finished.

use vstd::prelude::*;

verus! {

/// What the caller is to do next.
#[derive(Debug, Clone, Copy, PartialEq, Eq, Structural)]
pub enum CoordinatorAction {
    /// Nothing is running: wait for the next unit, or for the channel to
    /// close.
    Receive,
    /// Wait for the next unit, for the channel to close, or for a running
    /// unit to finish, whichever comes first.
    ReceiveOrJoin,
    /// Every permit is taken, or no more units will come: wait for a
    /// running unit to finish.
    Join,
    /// The channel is closed and nothing is running.
    Done,
}

/// What the caller reports back.
#[derive(Debug, Clone, Copy, PartialEq, Eq, Structural)]
pub enum CoordinatorEvent {
    /// A unit was taken off the channel and started.
    Started,
    /// A running unit finished.
    Finished,
    /// The channel is closed: the producer is done and nothing is left on it.
    Closed,
}

/// The state of the coordinator, as plain values.
#[derive(Debug, Clone, Copy, PartialEq, Eq, Structural)]
pub struct CoordinatorState {
    /// The number of permits: the queue depth.
    pub limit: usize,
    /// Units that hold a permit.
    pub active: usize,
    pub closed: bool,
    /// Units started so far, saturating.
    pub started: u64,
}

impl CoordinatorState {
    pub open spec fn start(limit: usize) -> CoordinatorState {
        CoordinatorState { limit, active: 0, closed: false, started: 0 }
    }

    pub open spec fn wf(self) -> bool {
        0 < self.limit && self.active <= self.limit
    }

    /// Whether a unit may be taken off the channel: a permit is free and the
    /// channel is not known to be closed.
    pub open spec fn may_start(self) -> bool {
        !self.closed && self.active < self.limit
    }

    pub open spec fn action(self) -> CoordinatorAction {
        if self.may_start() {
            if self.active == 0 {
                CoordinatorAction::Receive
            } else {
                CoordinatorAction::ReceiveOrJoin
            }
        } else if self.active > 0 {
            CoordinatorAction::Join
        } else {
            CoordinatorAction::Done
        }
    }

    /// The state after `event`. A unit that is reported as started while no
    /// permit is free, or as finished while none is running, is not counted,
    /// and nothing is taken off a closed channel.
    pub open spec fn step(self, event: CoordinatorEvent) -> CoordinatorState {
        match event {
            CoordinatorEvent::Started => if self.may_start() {
                CoordinatorState {
                    active: (self.active + 1) as usize,
                    started: if self.started == u64::MAX {
                        u64::MAX
                    } else {
                        (self.started + 1) as u64
                    },
                    ..self
                }
            } else {
                self
            },
            CoordinatorEvent::Finished => if self.active > 0 {
                CoordinatorState { active: (self.active - 1) as usize, ..self }
            } else {
                self
            },
            CoordinatorEvent::Closed => CoordinatorState { closed: true, ..self },
        }
    }

    /// The state after a run of events.
    pub open spec fn run(self, events: Seq<CoordinatorEvent>) -> CoordinatorState
        decreases events.len(),
    {
        if events.len() == 0 {
            self
        } else {
            self.run(events.drop_last()).step(events.last())
        }
    }
}

/// At no point do more units hold a permit than the queue is deep: whatever
/// is reported to the coordinator, in whatever order.
pub proof fn lemma_never_over_limit(limit: usize, events: Seq<CoordinatorEvent>)
    requires
        limit > 0,
    ensures
        CoordinatorState::start(limit).run(events).wf(),
        CoordinatorState::start(limit).run(events).active <= limit,
        CoordinatorState::start(limit).run(events).limit == limit,
    decreases events.len(),
{
    if events.len() > 0 {
        lemma_never_over_limit(limit, events.drop_last());
    }
}

/// A unit is started only while a permit is free, and the coordinator always
/// has something to wait for until it is done: it is done exactly when the
/// channel is closed and nothing is running.
pub proof fn lemma_progress(s: CoordinatorState)
    requires
        s.wf(),
    ensures
        s.action() == CoordinatorAction::Done <==> s.closed && s.active == 0,
        s.action() == CoordinatorAction::Receive || s.action() == CoordinatorAction::ReceiveOrJoin
            <==> s.may_start(),
        s.action() == CoordinatorAction::Join || s.action() == CoordinatorAction::ReceiveOrJoin
            <==> s.active > 0 && !(s.closed && s.active == 0),
        s.step(CoordinatorEvent::Started).active > s.active ==> s.active < s.limit,
        s.step(CoordinatorEvent::Started).wf(),
        s.step(CoordinatorEvent::Finished).wf(),
        s.step(CoordinatorEvent::Closed).wf(),
{
}

/// Gates the units of work of one run.
pub struct Coordinator {
    state: CoordinatorState,
}

impl View for Coordinator {
    type V = CoordinatorState;

    closed spec fn view(&self) -> CoordinatorState {
        self.state
    }
}

impl Coordinator {
    #[verifier::type_invariant]
    spec fn inv(self) -> bool {
        self.state.wf()
    }

    /// A coordinator with `queue_depth` permits; `None` for a depth of zero,
    /// with which no unit could ever start.
    pub fn new(queue_depth: usize) -> (r: Option<Coordinator>)
        ensures
            r is Some <==> queue_depth > 0,
            r matches Some(c) ==> c@ == CoordinatorState::start(queue_depth),
    {
        if queue_depth == 0 {
            None
        } else {
            Some(
                Coordinator {
                    state: CoordinatorState {
                        limit: queue_depth,
                        active: 0,
                        closed: false,
                        started: 0,
                    },
                },
            )
        }
    }

    /// The state, for inspection. It is well-formed at all times: no more
    /// units hold a permit than there are permits.
    pub fn state(&self) -> (s: CoordinatorState)
        ensures
            s == self@,
            s.wf(),
            s.active <= s.limit,
    {
        proof {
            use_type_invariant(self);
        }
        self.state
    }

    /// What to do next.
    pub fn action(&self) -> (a: CoordinatorAction)
        ensures
            a == self@.action(),
    {
        let s: CoordinatorState = self.state;
        if !s.closed && s.active < s.limit {
            if s.active == 0 {
                CoordinatorAction::Receive
            } else {
                CoordinatorAction::ReceiveOrJoin
            }
        } else if s.active > 0 {
            CoordinatorAction::Join
        } else {
            CoordinatorAction::Done
        }
    }

    /// Takes in what the caller reports.
    pub fn advance(&mut self, event: CoordinatorEvent)
        ensures
            final(self)@ == old(self)@.step(event),
    {
        proof {
            use_type_invariant(&*self);
        }
        let s: CoordinatorState = self.state;
        let mut r: CoordinatorState = s;
        match event {
            CoordinatorEvent::Started => {
                if !s.closed && s.active < s.limit {
                    r.active = s.active + 1;
                    r.started = s.started.saturating_add(1);
                }
            },
            CoordinatorEvent::Finished => {
                if s.active > 0 {
                    r.active = s.active - 1;
                }
            },
            CoordinatorEvent::Closed => {
                r.closed = true;
            },
        }
        self.state = r;
    }

    pub fn is_done(&self) -> (b: bool)
        ensures
            b == (self@.action() == CoordinatorAction::Done),
            b == (self@.closed && self@.active == 0),
    {
        proof {
            use_type_invariant(self);
        }
        self.state.closed && self.state.active == 0
    }
}

} // verus!
