//! The Current Session state machine and the Focus Cycle.

use vstd::prelude::*;

verus! {

/// Identifies the initial protocol-neutral domain model version.
pub const MODEL_VERSION: u16 = 1;

/// Stable identity of a Task.
#[derive(Clone, Copy, Debug, PartialEq, Eq, Structural, Hash)]
pub struct TaskId(u64);

impl TaskId {
    /// The number behind this identity.
    pub closed spec fn value(self) -> u64 {
        self.0
    }

    /// The identity whose number is `value`.
    pub closed spec fn with_value(value: u64) -> TaskId {
        TaskId(value)
    }

    pub proof fn lemma_with_value(value: u64)
        ensures
            #[trigger] TaskId::with_value(value).value() == value,
    {
    }

    pub fn new(value: u64) -> (id: Self)
        ensures
            id.value() == value,
            id == TaskId::with_value(value),
    {
        TaskId(value)
    }

    pub fn get(self) -> (value: u64)
        ensures
            value == self.value(),
    {
        self.0
    }

    /// Two identities are equal exactly when their numbers are.
    pub proof fn lemma_value_injective(a: TaskId, b: TaskId)
        ensures
            (a == b) <==> (a.value() == b.value()),
    {
    }
}

/// The recommendation represented by a Session.
#[derive(Clone, Copy, Debug, PartialEq, Eq, Structural)]
pub enum SessionKind {
    Focus,
    ShortBreak,
    LongBreak,
}

/// Why a Session entered Session History.
#[derive(Clone, Copy, Debug, PartialEq, Eq, Structural)]
pub enum SessionOutcome {
    Completed,
    Stopped,
    Skipped,
}

/// Default lengths used only when a new Session starts.
#[derive(Clone, Copy, Debug, PartialEq, Eq, Structural)]
pub struct SessionDurations {
    focus: u64,
    short_break: u64,
    long_break: u64,
}

impl SessionDurations {
    #[verifier::type_invariant]
    closed spec fn nonzero(self) -> bool {
        self.focus > 0 && self.short_break > 0 && self.long_break > 0
    }

    pub closed spec fn spec_focus(self) -> u64 {
        self.focus
    }

    pub closed spec fn spec_short_break(self) -> u64 {
        self.short_break
    }

    pub closed spec fn spec_long_break(self) -> u64 {
        self.long_break
    }

    /// The configured length of a Session of `kind`.
    pub open spec fn spec_for_kind(self, kind: SessionKind) -> u64 {
        match kind {
            SessionKind::Focus => self.spec_focus(),
            SessionKind::ShortBreak => self.spec_short_break(),
            SessionKind::LongBreak => self.spec_long_break(),
        }
    }

    /// Whether every length is nonzero, as every value of this type holds.
    pub open spec fn spec_valid(self) -> bool {
        self.spec_focus() > 0 && self.spec_short_break() > 0 && self.spec_long_break() > 0
    }

    /// Two values with the same three lengths are the same value.
    pub proof fn lemma_equal_lengths(a: SessionDurations, b: SessionDurations)
        requires
            a.spec_focus() == b.spec_focus(),
            a.spec_short_break() == b.spec_short_break(),
            a.spec_long_break() == b.spec_long_break(),
        ensures
            a == b,
    {
    }

    /// Creates nonzero defaults for each Session kind.
    pub fn new(focus: u64, short_break: u64, long_break: u64) -> (result: Result<Self, DomainError>)
        ensures
            (focus == 0 || short_break == 0 || long_break == 0) <==> result is Err,
            result matches Err(e) ==> e == DomainError::InvalidDuration,
            result matches Ok(d) ==> d.spec_valid() && d.spec_focus() == focus && d.spec_short_break() == short_break
                && d.spec_long_break() == long_break,
    {
        if focus == 0 || short_break == 0 || long_break == 0 {
            return Err(DomainError::InvalidDuration);
        }
        Ok(SessionDurations { focus, short_break, long_break })
    }

    pub fn for_kind(self, kind: SessionKind) -> (seconds: u64)
        ensures
            seconds == self.spec_for_kind(kind),
            seconds > 0,
            self.spec_valid(),
    {
        proof {
            use_type_invariant(&self);
        }
        match kind {
            SessionKind::Focus => self.focus,
            SessionKind::ShortBreak => self.short_break,
            SessionKind::LongBreak => self.long_break,
        }
    }

    pub fn focus(self) -> (seconds: u64)
        ensures
            seconds == self.spec_focus(),
    {
        self.focus
    }

    pub fn short_break(self) -> (seconds: u64)
        ensures
            seconds == self.spec_short_break(),
    {
        self.short_break
    }

    pub fn long_break(self) -> (seconds: u64)
        ensures
            seconds == self.spec_long_break(),
    {
        self.long_break
    }
}

/// A durable, plain representation of the Current Session.
#[derive(Clone, Copy, Debug, PartialEq, Eq, Structural)]
pub enum SessionState {
    Pending { kind: SessionKind },
    Running {
        kind: SessionKind,
        planned_seconds: u64,
        accumulated_seconds: u64,
        started_at: u64,
        task_id: Option<TaskId>,
    },
    Paused { kind: SessionKind, planned_seconds: u64, elapsed_seconds: u64, task_id: Option<TaskId> },
}

/// A durable, plain representation of the whole Timer.
#[derive(Clone, Copy, Debug, PartialEq, Eq, Structural)]
pub struct TimerState {
    pub session: SessionState,
    pub current_task: Option<TaskId>,
    pub completed_rounds: u8,
    pub rounds_per_cycle: u8,
    pub durations: SessionDurations,
}

#[derive(Clone, Copy, Debug, PartialEq, Eq, Structural)]
pub struct PendingSession {
    kind: SessionKind,
}

impl PendingSession {
    pub closed spec fn spec_kind(self) -> SessionKind {
        self.kind
    }

    pub fn kind(self) -> (kind: SessionKind)
        ensures
            kind == self.spec_kind(),
    {
        self.kind
    }
}

#[derive(Clone, Copy, Debug, PartialEq, Eq, Structural)]
pub struct RunningSession {
    kind: SessionKind,
    planned_seconds: u64,
    accumulated_seconds: u64,
    started_at: u64,
    task_id: Option<TaskId>,
}

impl RunningSession {
    pub closed spec fn spec_kind(self) -> SessionKind {
        self.kind
    }

    pub closed spec fn spec_task_id(self) -> Option<TaskId> {
        self.task_id
    }

    pub closed spec fn spec_planned_seconds(self) -> u64 {
        self.planned_seconds
    }

    pub closed spec fn spec_accumulated_seconds(self) -> u64 {
        self.accumulated_seconds
    }

    pub closed spec fn spec_started_at(self) -> u64 {
        self.started_at
    }

    pub fn kind(self) -> (kind: SessionKind)
        ensures
            kind == self.spec_kind(),
    {
        self.kind
    }

    pub fn task_id(self) -> (id: Option<TaskId>)
        ensures
            id == self.spec_task_id(),
    {
        self.task_id
    }

    pub fn planned_seconds(self) -> (seconds: u64)
        ensures
            seconds == self.spec_planned_seconds(),
    {
        self.planned_seconds
    }

    /// Seconds this Session has run by the elapsed-time observation `now`.
    pub fn elapsed_at(self, now: u64) -> (result: Result<u64, DomainError>)
        ensures
            result == elapsed_since(self.spec_accumulated_seconds(), self.spec_started_at(), now),
    {
        if now < self.started_at {
            return Err(DomainError::TimeMovedBackwards);
        }
        let since_start = now - self.started_at;
        if self.accumulated_seconds > u64::MAX - since_start {
            Ok(u64::MAX)
        } else {
            Ok(self.accumulated_seconds + since_start)
        }
    }
}

#[derive(Clone, Copy, Debug, PartialEq, Eq, Structural)]
pub struct PausedSession {
    kind: SessionKind,
    planned_seconds: u64,
    elapsed_seconds: u64,
    task_id: Option<TaskId>,
}

impl PausedSession {
    pub closed spec fn spec_kind(self) -> SessionKind {
        self.kind
    }

    pub closed spec fn spec_task_id(self) -> Option<TaskId> {
        self.task_id
    }

    pub closed spec fn spec_planned_seconds(self) -> u64 {
        self.planned_seconds
    }

    pub closed spec fn spec_elapsed_seconds(self) -> u64 {
        self.elapsed_seconds
    }

    pub fn kind(self) -> (kind: SessionKind)
        ensures
            kind == self.spec_kind(),
    {
        self.kind
    }

    pub fn task_id(self) -> (id: Option<TaskId>)
        ensures
            id == self.spec_task_id(),
    {
        self.task_id
    }

    pub fn planned_seconds(self) -> (seconds: u64)
        ensures
            seconds == self.spec_planned_seconds(),
    {
        self.planned_seconds
    }
}

/// The one shared Session visible to every Timer Frontend.
#[derive(Clone, Copy, Debug, PartialEq, Eq, Structural)]
pub enum CurrentSession {
    Pending(PendingSession),
    Running(RunningSession),
    Paused(PausedSession),
}

/// The plain state that a Current Session stands for.
pub open spec fn session_state_of(current: CurrentSession) -> SessionState {
    match current {
        CurrentSession::Pending(p) => SessionState::Pending { kind: p.spec_kind() },
        CurrentSession::Running(r) => SessionState::Running {
            kind: r.spec_kind(),
            planned_seconds: r.spec_planned_seconds(),
            accumulated_seconds: r.spec_accumulated_seconds(),
            started_at: r.spec_started_at(),
            task_id: r.spec_task_id(),
        },
        CurrentSession::Paused(p) => SessionState::Paused {
            kind: p.spec_kind(),
            planned_seconds: p.spec_planned_seconds(),
            elapsed_seconds: p.spec_elapsed_seconds(),
            task_id: p.spec_task_id(),
        },
    }
}

/// Durable facts produced by a successful domain transition.
#[derive(Clone, Copy, Debug, PartialEq, Eq, Structural)]
pub enum DomainEvent {
    SessionEnded {
        kind: SessionKind,
        outcome: SessionOutcome,
        actual_seconds: u64,
        task_id: Option<TaskId>,
    },
}

/// Observable result of advancing the state machine.
#[derive(Clone, Debug, PartialEq, Eq)]
pub struct Transition {
    events: Vec<DomainEvent>,
}

impl View for Transition {
    type V = Seq<DomainEvent>;

    closed spec fn view(&self) -> Seq<DomainEvent> {
        self.events@
    }
}

impl Transition {
    pub fn none() -> (t: Self)
        ensures
            t@ == Seq::<DomainEvent>::empty(),
    {
        Transition { events: Vec::new() }
    }

    pub fn ended(event: DomainEvent) -> (t: Self)
        ensures
            t@ == seq![event],
    {
        let mut events = Vec::new();
        events.push(event);
        Transition { events }
    }

    pub fn events(&self) -> (events: &[DomainEvent])
        ensures
            events@ == self@,
    {
        self.events.as_slice()
    }
}

/// Position within the configurable Focus Cycle.
#[derive(Clone, Copy, Debug, PartialEq, Eq, Structural)]
pub struct FocusCycle {
    completed_rounds: u8,
    rounds_per_cycle: u8,
}

impl FocusCycle {
    pub closed spec fn spec_completed_rounds(self) -> u8 {
        self.completed_rounds
    }

    pub closed spec fn spec_rounds_per_cycle(self) -> u8 {
        self.rounds_per_cycle
    }

    pub fn completed_rounds(self) -> (rounds: u8)
        ensures
            rounds == self.spec_completed_rounds(),
    {
        self.completed_rounds
    }

    pub fn rounds_per_cycle(self) -> (rounds: u8)
        ensures
            rounds == self.spec_rounds_per_cycle(),
    {
        self.rounds_per_cycle
    }
}

#[derive(Clone, Copy, Debug, PartialEq, Eq, Structural)]
pub enum DomainError {
    InvalidDuration,
    InvalidCycleLength,
    InvalidTransition,
    TimeMovedBackwards,
}

pub open spec fn domain_error_text(error: DomainError) -> Seq<char> {
    match error {
        DomainError::InvalidDuration => "Session durations must be nonzero"@,
        DomainError::InvalidCycleLength => "Focus Cycle length must be nonzero"@,
        DomainError::InvalidTransition => "operation is invalid for the Current Session"@,
        DomainError::TimeMovedBackwards => "elapsed-time observation moved backwards"@,
    }
}

impl DomainError {
    /// The human-readable description of this error.
    pub fn message(&self) -> (text: &'static str)
        ensures
            text@ == domain_error_text(*self),
    {
        match self {
            DomainError::InvalidDuration => "Session durations must be nonzero",
            DomainError::InvalidCycleLength => "Focus Cycle length must be nonzero",
            DomainError::InvalidTransition => "operation is invalid for the Current Session",
            DomainError::TimeMovedBackwards => "elapsed-time observation moved backwards",
        }
    }
}

// ---------------------------------------------------------------------------
// The mathematical model of the Timer: pure transitions over `TimerState`.
// ---------------------------------------------------------------------------

/// `a + b`, held at `u64::MAX`.
pub open spec fn saturating_add_u64(a: u64, b: u64) -> u64 {
    if a + b > u64::MAX {
        u64::MAX
    } else {
        (a + b) as u64
    }
}

/// `a - b`, held at zero.
pub open spec fn saturating_sub_u64(a: u64, b: u64) -> u64 {
    if a < b {
        0
    } else {
        (a - b) as u64
    }
}

/// Seconds run by a Session that had run `accumulated` seconds when it was
/// (re)started at observation `started_at`, observed again at `now`.
pub open spec fn elapsed_since(accumulated: u64, started_at: u64, now: u64) -> Result<
    u64,
    DomainError,
> {
    if now < started_at {
        Err(DomainError::TimeMovedBackwards)
    } else {
        Ok(saturating_add_u64(accumulated, (now - started_at) as u64))
    }
}

/// The states that the Timer can be in.
pub open spec fn timer_state_valid(s: TimerState) -> bool {
    &&& s.durations.spec_valid()
    &&& s.rounds_per_cycle > 0
    &&& s.completed_rounds <= s.rounds_per_cycle
    &&& match s.session {
        SessionState::Pending { .. } => true,
        SessionState::Running { planned_seconds, .. } => planned_seconds > 0,
        SessionState::Paused { planned_seconds, elapsed_seconds, .. } => elapsed_seconds
            < planned_seconds,
    }
}

/// The Session recommended after a Focus Session when `completed` rounds of
/// a cycle of `per_cycle` rounds are done.
pub open spec fn break_after_focus(completed: u8, per_cycle: u8) -> SessionKind {
    if completed == per_cycle {
        SessionKind::LongBreak
    } else {
        SessionKind::ShortBreak
    }
}

/// The Focus Cycle count after a Session of `kind` reached its deadline.
pub open spec fn rounds_after_completion(kind: SessionKind, completed: u8, per_cycle: u8) -> u8 {
    match kind {
        SessionKind::Focus => if completed as int + 1 >= per_cycle {
            per_cycle
        } else {
            (completed + 1) as u8
        },
        SessionKind::ShortBreak => completed,
        SessionKind::LongBreak => 0,
    }
}

/// The Pending Session revealed after a Session of `kind` reached its deadline.
pub open spec fn kind_after_completion(kind: SessionKind, completed: u8, per_cycle: u8) -> SessionKind {
    match kind {
        SessionKind::Focus => break_after_focus(
            rounds_after_completion(kind, completed, per_cycle),
            per_cycle,
        ),
        _ => SessionKind::Focus,
    }
}

/// The result of a Running Session of `kind` reaching its planned deadline.
pub open spec fn completion(
    s: TimerState,
    kind: SessionKind,
    planned: u64,
    task_id: Option<TaskId>,
) -> (TimerState, Seq<DomainEvent>) {
    (
        TimerState {
            session: SessionState::Pending {
                kind: kind_after_completion(kind, s.completed_rounds, s.rounds_per_cycle),
            },
            completed_rounds: rounds_after_completion(kind, s.completed_rounds, s.rounds_per_cycle),
            ..s
        },
        seq![
            DomainEvent::SessionEnded {
                kind,
                outcome: SessionOutcome::Completed,
                actual_seconds: planned,
                task_id,
            },
        ],
    )
}

pub open spec fn start_spec(s: TimerState, now: u64, task_id: Option<TaskId>) -> Result<
    (TimerState, Seq<DomainEvent>),
    DomainError,
> {
    match s.session {
        SessionState::Pending { kind } => {
            if kind != SessionKind::Focus && task_id is Some {
                Err(DomainError::InvalidTransition)
            } else {
                let current_task = if kind == SessionKind::Focus {
                    task_id
                } else {
                    s.current_task
                };
                Ok(
                    (
                        TimerState {
                            session: SessionState::Running {
                                kind,
                                planned_seconds: s.durations.spec_for_kind(kind),
                                accumulated_seconds: 0,
                                started_at: now,
                                task_id: if kind == SessionKind::Focus {
                                    task_id
                                } else {
                                    None
                                },
                            },
                            current_task,
                            ..s
                        },
                        Seq::empty(),
                    ),
                )
            }
        },
        _ => Err(DomainError::InvalidTransition),
    }
}

pub open spec fn pause_spec(s: TimerState, now: u64) -> Result<
    (TimerState, Seq<DomainEvent>),
    DomainError,
> {
    match s.session {
        SessionState::Running {
            kind,
            planned_seconds,
            accumulated_seconds,
            started_at,
            task_id,
        } => match elapsed_since(accumulated_seconds, started_at, now) {
            Err(e) => Err(e),
            Ok(elapsed) => if elapsed >= planned_seconds {
                Ok(completion(s, kind, planned_seconds, task_id))
            } else {
                Ok(
                    (
                        TimerState {
                            session: SessionState::Paused {
                                kind,
                                planned_seconds,
                                elapsed_seconds: elapsed,
                                task_id,
                            },
                            ..s
                        },
                        Seq::empty(),
                    ),
                )
            },
        },
        _ => Err(DomainError::InvalidTransition),
    }
}

pub open spec fn resume_spec(s: TimerState, now: u64) -> Result<
    (TimerState, Seq<DomainEvent>),
    DomainError,
> {
    match s.session {
        SessionState::Paused { kind, planned_seconds, elapsed_seconds, task_id } => Ok(
            (
                TimerState {
                    session: SessionState::Running {
                        kind,
                        planned_seconds,
                        accumulated_seconds: elapsed_seconds,
                        started_at: now,
                        task_id,
                    },
                    ..s
                },
                Seq::empty(),
            ),
        ),
        _ => Err(DomainError::InvalidTransition),
    }
}

pub open spec fn stopped(
    s: TimerState,
    kind: SessionKind,
    actual: u64,
    task_id: Option<TaskId>,
) -> (TimerState, Seq<DomainEvent>) {
    (
        TimerState { session: SessionState::Pending { kind }, ..s },
        seq![
            DomainEvent::SessionEnded {
                kind,
                outcome: SessionOutcome::Stopped,
                actual_seconds: actual,
                task_id,
            },
        ],
    )
}

pub open spec fn stop_spec(s: TimerState, now: u64) -> Result<
    (TimerState, Seq<DomainEvent>),
    DomainError,
> {
    match s.session {
        SessionState::Running {
            kind,
            planned_seconds,
            accumulated_seconds,
            started_at,
            task_id,
        } => match elapsed_since(accumulated_seconds, started_at, now) {
            Err(e) => Err(e),
            Ok(elapsed) => Ok(
                stopped(
                    s,
                    kind,
                    if elapsed < planned_seconds {
                        elapsed
                    } else {
                        planned_seconds
                    },
                    task_id,
                ),
            ),
        },
        SessionState::Paused { kind, elapsed_seconds, task_id, .. } => Ok(
            stopped(s, kind, elapsed_seconds, task_id),
        ),
        SessionState::Pending { .. } => Err(DomainError::InvalidTransition),
    }
}

/// The Session that follows a skipped Pending Session of `kind`.
pub open spec fn kind_after_skip(kind: SessionKind, completed: u8, per_cycle: u8) -> SessionKind {
    match kind {
        SessionKind::Focus => break_after_focus(completed, per_cycle),
        _ => SessionKind::Focus,
    }
}

pub open spec fn skip_spec(s: TimerState) -> Result<(TimerState, Seq<DomainEvent>), DomainError> {
    match s.session {
        SessionState::Pending { kind } => Ok(
            (
                TimerState {
                    session: SessionState::Pending {
                        kind: kind_after_skip(kind, s.completed_rounds, s.rounds_per_cycle),
                    },
                    ..s
                },
                seq![
                    DomainEvent::SessionEnded {
                        kind,
                        outcome: SessionOutcome::Skipped,
                        actual_seconds: 0,
                        task_id: None,
                    },
                ],
            ),
        ),
        _ => Err(DomainError::InvalidTransition),
    }
}

pub open spec fn advance_spec(s: TimerState, now: u64) -> Result<
    (TimerState, Seq<DomainEvent>),
    DomainError,
> {
    match s.session {
        SessionState::Running {
            kind,
            planned_seconds,
            accumulated_seconds,
            started_at,
            task_id,
        } => match elapsed_since(accumulated_seconds, started_at, now) {
            Err(e) => Err(e),
            Ok(elapsed) => if elapsed < planned_seconds {
                Ok((s, Seq::empty()))
            } else {
                Ok(completion(s, kind, planned_seconds, task_id))
            },
        },
        _ => Ok((s, Seq::empty())),
    }
}

/// The planned length of the Current Session, or of the Pending Session once started.
pub open spec fn planned_spec(s: TimerState) -> u64 {
    match s.session {
        SessionState::Pending { kind } => s.durations.spec_for_kind(kind),
        SessionState::Running { planned_seconds, .. } => planned_seconds,
        SessionState::Paused { planned_seconds, .. } => planned_seconds,
    }
}

pub open spec fn remaining_spec(s: TimerState, now: u64) -> u64 {
    match s.session {
        SessionState::Pending { kind } => s.durations.spec_for_kind(kind),
        SessionState::Paused { planned_seconds, elapsed_seconds, .. } => saturating_sub_u64(
            planned_seconds,
            elapsed_seconds,
        ),
        SessionState::Running { planned_seconds, accumulated_seconds, started_at, .. } => {
            let elapsed = match elapsed_since(accumulated_seconds, started_at, now) {
                Ok(e) => e,
                Err(_) => accumulated_seconds,
            };
            saturating_sub_u64(planned_seconds, elapsed)
        },
    }
}

pub open spec fn restore_spec(s: TimerState) -> Result<TimerState, DomainError> {
    if s.rounds_per_cycle == 0 || s.completed_rounds > s.rounds_per_cycle {
        Err(DomainError::InvalidCycleLength)
    } else {
        match s.session {
            SessionState::Running { planned_seconds, .. } => if planned_seconds == 0 {
                Err(DomainError::InvalidDuration)
            } else {
                Ok(s)
            },
            SessionState::Paused { planned_seconds, elapsed_seconds, .. } => if planned_seconds
                == 0 || elapsed_seconds >= planned_seconds {
                Err(DomainError::InvalidDuration)
            } else {
                Ok(s)
            },
            _ => Ok(s),
        }
    }
}

pub open spec fn set_rounds_spec(s: TimerState, rounds: u8) -> Result<TimerState, DomainError> {
    if rounds == 0 {
        Err(DomainError::InvalidCycleLength)
    } else {
        Ok(
            TimerState {
                rounds_per_cycle: rounds,
                completed_rounds: if s.completed_rounds < rounds {
                    s.completed_rounds
                } else {
                    rounds
                },
                ..s
            },
        )
    }
}

/// Binding a Task to the Pending Session.
pub open spec fn select_task_spec(s: TimerState, id: TaskId) -> Result<TimerState, DomainError> {
    match s.session {
        SessionState::Pending { .. } => Ok(TimerState { current_task: Some(id), ..s }),
        _ => Err(DomainError::InvalidTransition),
    }
}

/// Releasing the Pending Session's Task so that it can be deleted.
pub open spec fn detach_task_spec(s: TimerState, id: TaskId) -> Result<TimerState, DomainError> {
    if s.current_task == Some(id) {
        match s.session {
            SessionState::Pending { .. } => Ok(TimerState { current_task: None, ..s }),
            _ => Err(DomainError::InvalidTransition),
        }
    } else {
        Ok(s)
    }
}

/// Relates what an operation returned and left behind to its model.
pub open spec fn outcome_of(
    result: Result<Transition, DomainError>,
    after: TimerState,
) -> Result<(TimerState, Seq<DomainEvent>), DomainError> {
    match result {
        Ok(t) => Ok((after, t@)),
        Err(e) => Err(e),
    }
}


// ---------------------------------------------------------------------------
// Laws of the Timer.
// ---------------------------------------------------------------------------

/// The state that a successful operation leaves, if it succeeded.
pub open spec fn next_state(r: Result<(TimerState, Seq<DomainEvent>), DomainError>, s: TimerState) -> TimerState {
    match r {
        Ok((after, _)) => after,
        Err(_) => s,
    }
}

/// Each kind of Session runs for the length configured for that kind: a
/// Pending Session has its whole configured length left and is announced
/// with it, and starting it gives it exactly that planned length.
pub proof fn law_sessions_run_for_their_configured_length(s: TimerState, now: u64, task_id: Option<TaskId>)
    ensures
        s.session == (SessionState::Pending { kind: SessionKind::Focus }) ==> {
            &&& remaining_spec(s, now) == s.durations.spec_focus()
            &&& planned_spec(s) == s.durations.spec_focus()
            &&& start_spec(s, now, task_id) matches Ok((t, _)) && t.session matches SessionState::Running {
                kind,
                planned_seconds,
                accumulated_seconds,
                ..
            } && kind == SessionKind::Focus && planned_seconds == s.durations.spec_focus()
                && accumulated_seconds == 0
        },
        s.session == (SessionState::Pending { kind: SessionKind::ShortBreak }) ==> {
            &&& remaining_spec(s, now) == s.durations.spec_short_break()
            &&& planned_spec(s) == s.durations.spec_short_break()
            &&& task_id is None ==> (start_spec(s, now, task_id) matches Ok((t, _)) && t.session matches SessionState::Running {
                kind,
                planned_seconds,
                accumulated_seconds,
                ..
            } && kind == SessionKind::ShortBreak && planned_seconds == s.durations.spec_short_break()
                && accumulated_seconds == 0)
        },
        s.session == (SessionState::Pending { kind: SessionKind::LongBreak }) ==> {
            &&& remaining_spec(s, now) == s.durations.spec_long_break()
            &&& planned_spec(s) == s.durations.spec_long_break()
            &&& task_id is None ==> (start_spec(s, now, task_id) matches Ok((t, _)) && t.session matches SessionState::Running {
                kind,
                planned_seconds,
                accumulated_seconds,
                ..
            } && kind == SessionKind::LongBreak && planned_seconds == s.durations.spec_long_break()
                && accumulated_seconds == 0)
        },
{
}

/// Skipping a break brings Focus back, and skipping Focus reveals a break:
/// a Long Break when the Focus Cycle's rounds are all done, a Short Break
/// otherwise. Skipping counts no round and keeps the current Task.
pub proof fn law_skip_moves_between_focus_and_breaks(s: TimerState)
    ensures
        (s.session == (SessionState::Pending { kind: SessionKind::ShortBreak })
            || s.session == (SessionState::Pending { kind: SessionKind::LongBreak }))
            ==> (skip_spec(s) matches Ok((t, _)) && t.session == (SessionState::Pending {
            kind: SessionKind::Focus,
        }) && t.completed_rounds == s.completed_rounds && t.current_task == s.current_task),
        s.session == (SessionState::Pending { kind: SessionKind::Focus }) ==> (skip_spec(s) matches Ok(
            (t, _),
        ) && t.session == (SessionState::Pending {
            kind: if s.completed_rounds == s.rounds_per_cycle {
                SessionKind::LongBreak
            } else {
                SessionKind::ShortBreak
            },
        }) && t.completed_rounds == s.completed_rounds && t.current_task == s.current_task),
        !(s.session is Pending) ==> skip_spec(s) is Err,
{
}

/// Restoring a valid state gives that same state back: a Timer's own state
/// always restores to it.
pub proof fn law_restore_accepts_valid_states(s: TimerState)
    requires
        timer_state_valid(s),
    ensures
        restore_spec(s) == Ok::<TimerState, DomainError>(s),
{
}

/// Every transition of a valid Timer leaves it valid.
pub proof fn law_transitions_keep_the_timer_valid(
    s: TimerState,
    now: u64,
    task_id: Option<TaskId>,
    rounds: u8,
    id: TaskId,
)
    requires
        timer_state_valid(s),
    ensures
        timer_state_valid(next_state(start_spec(s, now, task_id), s)),
        timer_state_valid(next_state(pause_spec(s, now), s)),
        timer_state_valid(next_state(resume_spec(s, now), s)),
        timer_state_valid(next_state(stop_spec(s, now), s)),
        timer_state_valid(next_state(skip_spec(s), s)),
        timer_state_valid(next_state(advance_spec(s, now), s)),
        set_rounds_spec(s, rounds) matches Ok(t) ==> timer_state_valid(t),
        select_task_spec(s, id) matches Ok(t) ==> timer_state_valid(t),
        detach_task_spec(s, id) matches Ok(t) ==> timer_state_valid(t),
{
}

/// Only a Focus Session that reaches its deadline adds a Completed Round:
/// stopping, skipping, starting, pausing and resuming never add one.
pub proof fn law_only_completed_focus_adds_a_round(s: TimerState, now: u64, task_id: Option<TaskId>)
    requires
        timer_state_valid(s),
    ensures
        start_spec(s, now, task_id) matches Ok((t, _)) ==> t.completed_rounds == s.completed_rounds,
        resume_spec(s, now) matches Ok((t, _)) ==> t.completed_rounds == s.completed_rounds,
        stop_spec(s, now) matches Ok((t, _)) ==> t.completed_rounds == s.completed_rounds,
        skip_spec(s) matches Ok((t, _)) ==> t.completed_rounds == s.completed_rounds,
        advance_spec(s, now) matches Ok((t, evs)) ==> (t.completed_rounds > s.completed_rounds
            ==> evs == seq![
            DomainEvent::SessionEnded {
                kind: SessionKind::Focus,
                outcome: SessionOutcome::Completed,
                actual_seconds: planned_spec(s),
                task_id: match s.session {
                    SessionState::Running { task_id, .. } => task_id,
                    _ => None,
                },
            },
        ]),
        pause_spec(s, now) matches Ok((t, evs)) ==> (t.completed_rounds > s.completed_rounds
            ==> evs.len() == 1 && evs[0] matches DomainEvent::SessionEnded {
            kind: SessionKind::Focus,
            outcome: SessionOutcome::Completed,
            ..
        }),
{
}

/// Stopping ends the Session early without advancing the Focus Cycle or
/// changing the recommendation, and records no more than the planned time.
pub proof fn law_stop_preserves_the_recommendation(s: TimerState, now: u64)
    requires
        timer_state_valid(s),
    ensures
        stop_spec(s, now) matches Ok((t, evs)) ==> {
            &&& t.completed_rounds == s.completed_rounds
            &&& t.current_task == s.current_task
            &&& evs.len() == 1
            &&& evs[0] matches DomainEvent::SessionEnded { kind, outcome, actual_seconds, .. }
            &&& t.session == (SessionState::Pending { kind })
            &&& outcome == SessionOutcome::Stopped
            &&& actual_seconds <= planned_spec(s)
            &&& match s.session {
                SessionState::Running { kind: k, .. } => k == kind,
                SessionState::Paused { kind: k, .. } => k == kind,
                _ => false,
            }
        },
        s.session is Pending <==> stop_spec(s, now) is Err && stop_spec(s, now)
            == Err::<(TimerState, Seq<DomainEvent>), DomainError>(DomainError::InvalidTransition),
{
}

/// A skipped Focus Session does not count as a Completed Round, so after the
/// intervening break reaches its deadline the same round is due again.
pub proof fn law_skipped_focus_round_remains_due(s: TimerState, now: u64, later: u64)
    requires
        timer_state_valid(s),
        s.session == (SessionState::Pending { kind: SessionKind::Focus }),
        s.completed_rounds < s.rounds_per_cycle,
        now <= later,
        later - now >= s.durations.spec_short_break(),
    ensures
        ({
            let skipped = skip_spec(s)->Ok_0.0;
            let started = start_spec(skipped, now, None)->Ok_0.0;
            let done = advance_spec(started, later)->Ok_0.0;
            &&& skipped.session == (SessionState::Pending { kind: SessionKind::ShortBreak })
            &&& start_spec(skipped, now, None) is Ok
            &&& done.session == (SessionState::Pending { kind: SessionKind::Focus })
            &&& done.completed_rounds == s.completed_rounds
        }),
{
}

/// Completing a Focus Session advances the cycle by one round (up to its
/// length) and reveals a Long Break exactly when the cycle is full;
/// completing the Long Break resets the cycle.
pub proof fn law_focus_cycle_rounds(s: TimerState, kind: SessionKind, planned: u64, task_id: Option<TaskId>)
    requires
        timer_state_valid(s),
    ensures
        ({
            let (t, evs) = completion(s, kind, planned, task_id);
            &&& kind == SessionKind::Focus ==> t.completed_rounds == if s.completed_rounds
                < s.rounds_per_cycle {
                s.completed_rounds + 1
            } else {
                s.rounds_per_cycle as int
            }
            &&& kind == SessionKind::Focus ==> (t.session == (SessionState::Pending {
                kind: SessionKind::LongBreak,
            }) <==> t.completed_rounds == s.rounds_per_cycle)
            &&& kind == SessionKind::Focus ==> t.session != (SessionState::Pending {
                kind: SessionKind::Focus,
            })
            &&& kind == SessionKind::LongBreak ==> t.completed_rounds == 0 && t.session == (
            SessionState::Pending { kind: SessionKind::Focus })
            &&& kind == SessionKind::ShortBreak ==> t.completed_rounds == s.completed_rounds
                && t.session == (SessionState::Pending { kind: SessionKind::Focus })
            &&& t.current_task == s.current_task
            &&& evs.len() == 1
        }),
{
}

/// A Paused Session is frozen: observations of time neither complete it nor
/// change its remaining duration.
pub proof fn law_paused_time_is_frozen(s: TimerState, now: u64, later: u64)
    requires
        timer_state_valid(s),
        s.session is Paused,
    ensures
        advance_spec(s, later) == Ok::<(TimerState, Seq<DomainEvent>), DomainError>(
            (s, Seq::empty()),
        ),
        remaining_spec(s, now) == remaining_spec(s, later),
        remaining_spec(s, now) > 0,
{
}

/// Pausing at one moment and resuming at any later moment keeps the remaining
/// duration that the Session had when it was paused.
pub proof fn law_pause_then_resume_keeps_remaining_time(s: TimerState, paused_at: u64, resumed_at: u64)
    requires
        timer_state_valid(s),
        pause_spec(s, paused_at) matches Ok((t, evs)) && evs.len() == 0,
    ensures
        ({
            let paused = pause_spec(s, paused_at)->Ok_0.0;
            let resumed = resume_spec(paused, resumed_at)->Ok_0.0;
            &&& resume_spec(paused, resumed_at) is Ok
            &&& remaining_spec(resumed, resumed_at) == remaining_spec(s, paused_at)
            &&& remaining_spec(paused, resumed_at) == remaining_spec(s, paused_at)
        }),
{
}

/// Only a Pending Session can start, so there is never a second Running Session.
pub proof fn law_only_a_pending_session_starts(s: TimerState, now: u64, task_id: Option<TaskId>)
    ensures
        !(s.session is Pending) ==> start_spec(s, now, task_id) == Err::<
            (TimerState, Seq<DomainEvent>),
            DomainError,
        >(DomainError::InvalidTransition),
        start_spec(s, now, task_id) matches Ok((t, evs)) ==> t.session is Running && evs.len() == 0,
{
}

/// A Session keeps the planned duration it had when it started, even if the
/// configured durations change later.
pub proof fn law_started_session_keeps_its_planned_duration(s: TimerState, d: SessionDurations, now: u64)
    requires
        !(s.session is Pending),
    ensures
        planned_spec(TimerState { durations: d, ..s }) == planned_spec(s),
        remaining_spec(TimerState { durations: d, ..s }, now) == remaining_spec(s, now),
{
}

/// While a Running Session has not reached its deadline, its remaining and
/// elapsed time add up to its planned duration.
pub proof fn law_remaining_and_elapsed_add_up(s: TimerState, now: u64)
    requires
        s.session matches SessionState::Running { planned_seconds, accumulated_seconds, started_at, .. }
            && elapsed_since(accumulated_seconds, started_at, now) matches Ok(e) && e < planned_seconds,
    ensures
        ({
            let e = elapsed_since(
                s.session->accumulated_seconds,
                s.session->started_at,
                now,
            )->Ok_0;
            remaining_spec(s, now) + e == planned_spec(s)
        }),
{
}

/// Advancing to an observation before the deadline changes nothing, while
/// advancing at or after it completes the Session with its planned duration.
pub proof fn law_advance_completes_exactly_at_the_deadline(s: TimerState, now: u64)
    requires
        timer_state_valid(s),
        s.session matches SessionState::Running { started_at, .. } && started_at <= now,
    ensures
        ({
            let r = advance_spec(s, now);
            &&& r is Ok
            &&& (remaining_spec(s, now) > 0) <==> r->Ok_0.1.len() == 0
            &&& remaining_spec(s, now) == 0 ==> r->Ok_0.1 == seq![
                DomainEvent::SessionEnded {
                    kind: s.session->Running_kind,
                    outcome: SessionOutcome::Completed,
                    actual_seconds: planned_spec(s),
                    task_id: s.session->Running_task_id,
                },
            ]
        }),
{
}

/// Pure state machine for the Current Session and Focus Cycle.
#[derive(Debug, PartialEq, Eq)]
pub struct Timer {
    current: CurrentSession,
    current_task: Option<TaskId>,
    cycle: FocusCycle,
    durations: SessionDurations,
}

impl View for Timer {
    type V = TimerState;

    closed spec fn view(&self) -> TimerState {
        TimerState {
            session: session_state_of(self.current),
            current_task: self.current_task,
            completed_rounds: self.cycle.completed_rounds,
            rounds_per_cycle: self.cycle.rounds_per_cycle,
            durations: self.durations,
        }
    }
}

impl Timer {
    #[verifier::type_invariant]
    closed spec fn valid(self) -> bool {
        timer_state_valid(self@)
    }

    pub closed spec fn spec_current_session(&self) -> CurrentSession {
        self.current
    }

    pub closed spec fn spec_focus_cycle(&self) -> FocusCycle {
        self.cycle
    }

    /// The Current Session agrees with the Timer's plain state.
    pub proof fn lemma_current_session(timer: &Timer)
        ensures
            session_state_of(timer.spec_current_session()) == timer@.session,
            timer.spec_focus_cycle().spec_completed_rounds() == timer@.completed_rounds,
            timer.spec_focus_cycle().spec_rounds_per_cycle() == timer@.rounds_per_cycle,
    {
    }

    /// Creates a Timer with a Pending Focus Session.
    pub fn new(durations: SessionDurations, rounds_per_cycle: u8) -> (result: Result<
        Self,
        DomainError,
    >)
        ensures
            rounds_per_cycle == 0 <==> result is Err,
            result matches Err(e) ==> e == DomainError::InvalidCycleLength,
            result matches Ok(t) ==> t@ == (TimerState {
                session: SessionState::Pending { kind: SessionKind::Focus },
                current_task: None,
                completed_rounds: 0,
                rounds_per_cycle,
                durations,
            }),
    {
        proof {
            use_type_invariant(&durations);
        }
        if rounds_per_cycle == 0 {
            return Err(DomainError::InvalidCycleLength);
        }
        Ok(
            Timer {
                current: CurrentSession::Pending(PendingSession { kind: SessionKind::Focus }),
                current_task: None,
                cycle: FocusCycle { completed_rounds: 0, rounds_per_cycle },
                durations,
            },
        )
    }

    /// Restores an invariant-checked durable Timer state.
    pub fn restore(state: TimerState) -> (result: Result<Self, DomainError>)
        ensures
            match result {
                Ok(t) => restore_spec(state) == Ok::<TimerState, DomainError>(t@),
                Err(e) => restore_spec(state) == Err::<TimerState, DomainError>(e),
            },
    {
        proof {
            use_type_invariant(&state.durations);
        }
        if state.rounds_per_cycle == 0 || state.completed_rounds > state.rounds_per_cycle {
            return Err(DomainError::InvalidCycleLength);
        }
        let current = match state.session {
            SessionState::Pending { kind } => CurrentSession::Pending(PendingSession { kind }),
            SessionState::Running {
                kind,
                planned_seconds,
                accumulated_seconds,
                started_at,
                task_id,
            } => {
                if planned_seconds == 0 {
                    return Err(DomainError::InvalidDuration);
                }
                CurrentSession::Running(
                    RunningSession {
                        kind,
                        planned_seconds,
                        accumulated_seconds,
                        started_at,
                        task_id,
                    },
                )
            },
            SessionState::Paused { kind, planned_seconds, elapsed_seconds, task_id } => {
                if planned_seconds == 0 || elapsed_seconds >= planned_seconds {
                    return Err(DomainError::InvalidDuration);
                }
                CurrentSession::Paused(
                    PausedSession { kind, planned_seconds, elapsed_seconds, task_id },
                )
            },
        };
        Ok(
            Timer {
                current,
                current_task: state.current_task,
                cycle: FocusCycle {
                    completed_rounds: state.completed_rounds,
                    rounds_per_cycle: state.rounds_per_cycle,
                },
                durations: state.durations,
            },
        )
    }

    /// The Timer's plain state, which is always a valid one, so that
    /// restoring it gives the same Timer back.
    pub fn state(&self) -> (state: TimerState)
        ensures
            state == self@,
            timer_state_valid(state),
            restore_spec(state) == Ok::<TimerState, DomainError>(state),
    {
        proof {
            use_type_invariant(self);
            law_restore_accepts_valid_states(self@);
        }
        let session = match self.current {
            CurrentSession::Pending(session) => SessionState::Pending { kind: session.kind },
            CurrentSession::Running(session) => SessionState::Running {
                kind: session.kind,
                planned_seconds: session.planned_seconds,
                accumulated_seconds: session.accumulated_seconds,
                started_at: session.started_at,
                task_id: session.task_id,
            },
            CurrentSession::Paused(session) => SessionState::Paused {
                kind: session.kind,
                planned_seconds: session.planned_seconds,
                elapsed_seconds: session.elapsed_seconds,
                task_id: session.task_id,
            },
        };
        TimerState {
            session,
            current_task: self.current_task,
            completed_rounds: self.cycle.completed_rounds,
            rounds_per_cycle: self.cycle.rounds_per_cycle,
            durations: self.durations,
        }
    }

    /// Replaces the defaults for Sessions that have not started yet.
    pub fn set_durations(&mut self, durations: SessionDurations)
        ensures
            final(self)@ == (TimerState { durations, ..old(self)@ }),
            timer_state_valid(final(self)@),
    {
        proof {
            use_type_invariant(&*self);
            use_type_invariant(&durations);
        }
        self.durations = durations;
    }

    /// Updates the configurable Focus Cycle length.
    pub fn set_rounds_per_cycle(&mut self, rounds: u8) -> (result: Result<(), DomainError>)
        ensures
            match result {
                Ok(_) => set_rounds_spec(old(self)@, rounds) == Ok::<TimerState, DomainError>(
                    final(self)@,
                ),
                Err(e) => set_rounds_spec(old(self)@, rounds) == Err::<TimerState, DomainError>(e)
                    && final(self)@ == old(self)@,
            },
    {
        proof {
            use_type_invariant(&*self);
        }
        if rounds == 0 {
            return Err(DomainError::InvalidCycleLength);
        }
        let completed = if self.cycle.completed_rounds < rounds {
            self.cycle.completed_rounds
        } else {
            rounds
        };
        self.cycle = FocusCycle { completed_rounds: completed, rounds_per_cycle: rounds };
        Ok(())
    }

    pub fn current_session(&self) -> (session: CurrentSession)
        ensures
            session == self.spec_current_session(),
            session_state_of(session) == self@.session,
    {
        self.current
    }

    pub fn focus_cycle(&self) -> (cycle: FocusCycle)
        ensures
            cycle.spec_completed_rounds() == self@.completed_rounds,
            cycle.spec_rounds_per_cycle() == self@.rounds_per_cycle,
            1 <= cycle.spec_rounds_per_cycle(),
            cycle.spec_completed_rounds() <= cycle.spec_rounds_per_cycle(),
    {
        proof {
            use_type_invariant(self);
        }
        self.cycle
    }

    pub fn current_task(&self) -> (task: Option<TaskId>)
        ensures
            task == self@.current_task,
    {
        self.current_task
    }

    pub fn planned_seconds(&self) -> (seconds: u64)
        ensures
            seconds == planned_spec(self@),
    {
        match self.current {
            CurrentSession::Pending(session) => self.durations.for_kind(session.kind),
            CurrentSession::Running(session) => session.planned_seconds,
            CurrentSession::Paused(session) => session.planned_seconds,
        }
    }

    /// Starts the Pending Session at an elapsed-time observation.
    pub fn start(&mut self, now: u64, task_id: Option<TaskId>) -> (result: Result<
        Transition,
        DomainError,
    >)
        ensures
            outcome_of(result, final(self)@) == start_spec(old(self)@, now, task_id),
            result is Err ==> final(self)@ == old(self)@,
    {
        proof {
            use_type_invariant(&*self);
        }
        let pending = match self.current {
            CurrentSession::Pending(pending) => pending,
            _ => {
                return Err(DomainError::InvalidTransition);
            },
        };
        let is_focus = match pending.kind {
            SessionKind::Focus => true,
            _ => false,
        };
        if !is_focus && task_id.is_some() {
            return Err(DomainError::InvalidTransition);
        }
        let planned = self.durations.for_kind(pending.kind);
        if is_focus {
            self.current_task = task_id;
        }
        self.current = CurrentSession::Running(
            RunningSession {
                kind: pending.kind,
                planned_seconds: planned,
                accumulated_seconds: 0,
                started_at: now,
                task_id: if is_focus {
                    task_id
                } else {
                    None
                },
            },
        );
        Ok(Transition::none())
    }

    /// Freezes a Running Session; a Session already due completes instead.
    pub fn pause(&mut self, now: u64) -> (result: Result<Transition, DomainError>)
        ensures
            outcome_of(result, final(self)@) == pause_spec(old(self)@, now),
            result is Err ==> final(self)@ == old(self)@,
    {
        proof {
            use_type_invariant(&*self);
        }
        let running = match self.current {
            CurrentSession::Running(running) => running,
            _ => {
                return Err(DomainError::InvalidTransition);
            },
        };
        let elapsed = match running.elapsed_at(now) {
            Ok(elapsed) => elapsed,
            Err(e) => {
                return Err(e);
            },
        };
        if elapsed >= running.planned_seconds {
            return Ok(self.complete(running));
        }
        self.current = CurrentSession::Paused(
            PausedSession {
                kind: running.kind,
                planned_seconds: running.planned_seconds,
                elapsed_seconds: elapsed,
                task_id: running.task_id,
            },
        );
        Ok(Transition::none())
    }

    /// Resumes a Paused Session.
    pub fn resume(&mut self, now: u64) -> (result: Result<Transition, DomainError>)
        ensures
            outcome_of(result, final(self)@) == resume_spec(old(self)@, now),
            result is Err ==> final(self)@ == old(self)@,
    {
        proof {
            use_type_invariant(&*self);
        }
        let paused = match self.current {
            CurrentSession::Paused(paused) => paused,
            _ => {
                return Err(DomainError::InvalidTransition);
            },
        };
        self.current = CurrentSession::Running(
            RunningSession {
                kind: paused.kind,
                planned_seconds: paused.planned_seconds,
                accumulated_seconds: paused.elapsed_seconds,
                started_at: now,
                task_id: paused.task_id,
            },
        );
        Ok(Transition::none())
    }

    /// Stops a Running or Paused Session and preserves its recommendation.
    pub fn stop(&mut self, now: u64) -> (result: Result<Transition, DomainError>)
        ensures
            outcome_of(result, final(self)@) == stop_spec(old(self)@, now),
            result is Err ==> final(self)@ == old(self)@,
    {
        proof {
            use_type_invariant(&*self);
        }
        let (kind, actual_seconds, task_id) = match self.current {
            CurrentSession::Running(running) => {
                let elapsed = match running.elapsed_at(now) {
                    Ok(elapsed) => elapsed,
                    Err(e) => {
                        return Err(e);
                    },
                };
                let actual = if elapsed < running.planned_seconds {
                    elapsed
                } else {
                    running.planned_seconds
                };
                (running.kind, actual, running.task_id)
            },
            CurrentSession::Paused(paused) => (paused.kind, paused.elapsed_seconds, paused.task_id),
            CurrentSession::Pending(_) => {
                return Err(DomainError::InvalidTransition);
            },
        };
        self.current = CurrentSession::Pending(PendingSession { kind });
        Ok(
            Transition::ended(
                DomainEvent::SessionEnded {
                    kind,
                    outcome: SessionOutcome::Stopped,
                    actual_seconds,
                    task_id,
                },
            ),
        )
    }

    /// Skips a Pending Session without starting it.
    pub fn skip(&mut self) -> (result: Result<Transition, DomainError>)
        ensures
            outcome_of(result, final(self)@) == skip_spec(old(self)@),
            result is Err ==> final(self)@ == old(self)@,
    {
        proof {
            use_type_invariant(&*self);
        }
        let pending = match self.current {
            CurrentSession::Pending(pending) => pending,
            _ => {
                return Err(DomainError::InvalidTransition);
            },
        };
        let kind = pending.kind;
        let following = match kind {
            SessionKind::Focus => {
                if self.cycle.completed_rounds == self.cycle.rounds_per_cycle {
                    SessionKind::LongBreak
                } else {
                    SessionKind::ShortBreak
                }
            },
            _ => SessionKind::Focus,
        };
        self.current = CurrentSession::Pending(PendingSession { kind: following });
        Ok(
            Transition::ended(
                DomainEvent::SessionEnded {
                    kind,
                    outcome: SessionOutcome::Skipped,
                    actual_seconds: 0,
                    task_id: None,
                },
            ),
        )
    }

    /// Applies a deadline transition if the Running Session is due.
    pub fn advance(&mut self, now: u64) -> (result: Result<Transition, DomainError>)
        ensures
            outcome_of(result, final(self)@) == advance_spec(old(self)@, now),
            result is Err ==> final(self)@ == old(self)@,
    {
        proof {
            use_type_invariant(&*self);
        }
        let running = match self.current {
            CurrentSession::Running(running) => running,
            _ => {
                return Ok(Transition::none());
            },
        };
        let elapsed = match running.elapsed_at(now) {
            Ok(elapsed) => elapsed,
            Err(e) => {
                return Err(e);
            },
        };
        if elapsed < running.planned_seconds {
            return Ok(Transition::none());
        }
        Ok(self.complete(running))
    }

    pub fn remaining_seconds(&self, now: u64) -> (seconds: u64)
        ensures
            seconds == remaining_spec(self@, now),
    {
        match self.current {
            CurrentSession::Pending(pending) => self.durations.for_kind(pending.kind),
            CurrentSession::Paused(paused) => {
                if paused.planned_seconds < paused.elapsed_seconds {
                    0
                } else {
                    paused.planned_seconds - paused.elapsed_seconds
                }
            },
            CurrentSession::Running(running) => {
                let elapsed = match running.elapsed_at(now) {
                    Ok(elapsed) => elapsed,
                    Err(_) => running.accumulated_seconds,
                };
                if running.planned_seconds < elapsed {
                    0
                } else {
                    running.planned_seconds - elapsed
                }
            },
        }
    }

    /// Binds a Task to the Pending Session without starting it.
    pub fn select_pending_task(&mut self, id: TaskId) -> (result: Result<(), DomainError>)
        ensures
            match result {
                Ok(_) => select_task_spec(old(self)@, id) == Ok::<TimerState, DomainError>(
                    final(self)@,
                ),
                Err(e) => select_task_spec(old(self)@, id) == Err::<TimerState, DomainError>(e)
                    && final(self)@ == old(self)@,
            },
    {
        proof {
            use_type_invariant(&*self);
        }
        match self.current {
            CurrentSession::Pending(_) => {
                self.current_task = Some(id);
                Ok(())
            },
            _ => Err(DomainError::InvalidTransition),
        }
    }

    /// Releases `id` from a Pending Session; a Running or Paused Session keeps it.
    pub fn detach_pending_task(&mut self, id: TaskId) -> (result: Result<(), DomainError>)
        ensures
            match result {
                Ok(_) => detach_task_spec(old(self)@, id) == Ok::<TimerState, DomainError>(
                    final(self)@,
                ),
                Err(e) => detach_task_spec(old(self)@, id) == Err::<TimerState, DomainError>(e)
                    && final(self)@ == old(self)@,
            },
    {
        proof {
            use_type_invariant(&*self);
        }
        let referenced = match self.current_task {
            Some(current) => current.0 == id.0,
            None => false,
        };
        if !referenced {
            return Ok(());
        }
        match self.current {
            CurrentSession::Pending(_) => {
                self.current_task = None;
                Ok(())
            },
            _ => Err(DomainError::InvalidTransition),
        }
    }

    fn complete(&mut self, running: RunningSession) -> (t: Transition)
        requires
            old(self)@.session == session_state_of(CurrentSession::Running(running)),
        ensures
            (final(self)@, t@) == completion(
                old(self)@,
                running.spec_kind(),
                running.spec_planned_seconds(),
                running.spec_task_id(),
            ),
    {
        proof {
            use_type_invariant(&*self);
        }
        let completed = self.cycle.completed_rounds;
        let per_cycle = self.cycle.rounds_per_cycle;
        let next = match running.kind {
            SessionKind::Focus => {
                let rounds = if completed >= per_cycle - 1 {
                    per_cycle
                } else {
                    completed + 1
                };
                self.cycle = FocusCycle { completed_rounds: rounds, rounds_per_cycle: per_cycle };
                if rounds == per_cycle {
                    SessionKind::LongBreak
                } else {
                    SessionKind::ShortBreak
                }
            },
            SessionKind::ShortBreak => SessionKind::Focus,
            SessionKind::LongBreak => {
                self.cycle = FocusCycle { completed_rounds: 0, rounds_per_cycle: per_cycle };
                SessionKind::Focus
            },
        };
        self.current = CurrentSession::Pending(PendingSession { kind: next });
        Transition::ended(
            DomainEvent::SessionEnded {
                kind: running.kind,
                outcome: SessionOutcome::Completed,
                actual_seconds: running.planned_seconds,
                task_id: running.task_id,
            },
        )
    }
}

} // verus!
