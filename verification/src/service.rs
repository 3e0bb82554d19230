//! The Timer Service: the one authoritative owner of the Timer, the Tasks
//! and Session History, and the judge of every request that Timer Frontends
//! send. Its decisions are verified here. The program around it reads the
//! clocks, writes the durable store and delivers reminders, and hands each
//! outcome back to the Service, which decides what follows.

use crate::domain::{
    advance_spec, domain_error_text, pause_spec, planned_spec, remaining_spec, resume_spec,
    saturating_add_u64, select_task_spec, skip_spec, start_spec, stop_spec, detach_task_spec,
    CurrentSession, DomainError, DomainEvent, SessionDurations, SessionOutcome, SessionState,
    TaskId, Timer, TimerState, Transition,
};
use crate::domain::SessionKind as DomainKind;
use crate::outbox::{retry_plan, retry_plan_spec, stored_error, PendingReminderEffect, ReminderEffectKind, RetryPlan, MAX_REMINDER_ERROR_CHARS};
use crate::protocol::{
    command_mutates, ActionChainSummary, Command, DataValue, DurableHealth, DurableHealthState,
    HistoryEntry, PendingReviewSummary, ProtocolError, RecentSessionSummary, ReminderDelivery,
    Request, Response, SessionKind, Snapshot, TaskFocusSummary, TaskListEntry, TaskSummary,
    TaskTitleRule, TodaySummary,
};
use crate::tasks::{
    title_violation, day_of, focus_on_day, rounds_on_day, seven_day_total, task_focus,
    has_id, ids_titled, is_first_index, kept_records, normalized_title_spec, task_error_text,
    task_ids_text, with_status, with_title, History, SessionRecord, TaskError, TaskModel,
    TaskStatus, TaskStore,
};
use crate::recovery::{elapsed_during_recovery, recovery_spec, RecoveryObservation};
use crate::text::{chars_of, concat, concat3, decimal, decimal_string, str_equal};
use vstd::prelude::*;

verus! {

broadcast use vstd::seq_lib::group_seq_properties;

// ---------------------------------------------------------------------------
// The model of the Service's state.
// ---------------------------------------------------------------------------

/// What Session History keeps of one ended Session, as plain values.
pub struct RecordModel {
    pub id: u64,
    pub ended_at: i64,
    pub kind: DomainKind,
    pub outcome: SessionOutcome,
    pub planned_seconds: u64,
    pub actual_seconds: u64,
    pub task_id: Option<TaskId>,
    pub task_title: Option<Seq<char>>,
}

/// A text that may be absent, as plain characters.
pub open spec fn text_option(o: Option<String>) -> Option<Seq<char>> {
    match o {
        Some(s) => Some(s@),
        None => None,
    }
}

/// The plain values of a Session History record.
pub open spec fn record_model(r: SessionRecord) -> RecordModel {
    RecordModel {
        id: r.id,
        ended_at: r.ended_at,
        kind: r.kind,
        outcome: r.outcome,
        planned_seconds: r.planned_seconds,
        actual_seconds: r.actual_seconds,
        task_id: r.task_id,
        task_title: text_option(r.task_title),
    }
}

/// A completed Focus Session whose outcome still waits for the user's review.
#[derive(Clone, Debug, PartialEq, Eq)]
pub struct PendingReview {
    pub session_id: u64,
    pub actual_seconds: u64,
    pub task_id: Option<u64>,
    pub task_title: Option<String>,
}

/// The plain values of a Pending Review.
pub struct ReviewModel {
    pub session_id: u64,
    pub actual_seconds: u64,
    pub task_id: Option<u64>,
    pub task_title: Option<Seq<char>>,
}

pub open spec fn review_model(r: PendingReview) -> ReviewModel {
    ReviewModel {
        session_id: r.session_id,
        actual_seconds: r.actual_seconds,
        task_id: r.task_id,
        task_title: text_option(r.task_title),
    }
}

/// Everything the Service decides on, as plain values.
pub struct ServiceState {
    pub timer: TimerState,
    pub tasks: Seq<TaskModel>,
    pub next_task_id: u64,
    pub history: Seq<RecordModel>,
    pub applied_keys: Seq<Seq<char>>,
    pub health: DurableHealthState,
    pub last_commit: Option<i64>,
    pub durable_error: Option<Seq<char>>,
    pub reminders_enabled: bool,
    pub sound_enabled: bool,
    pub next_event_id: u64,
    pub now: u64,
    pub wall: i64,
    pub chain_id: u64,
    pub chain_length: u64,
    pub review: Option<ReviewModel>,
}

/// The Timer Service's state.
pub struct Service {
    timer: Timer,
    tasks: TaskStore,
    history: History,
    applied_keys: Vec<String>,
    durable_health: DurableHealthState,
    last_successful_commit: Option<i64>,
    durable_error: Option<String>,
    reminders_enabled: bool,
    sound_enabled: bool,
    next_event_id: u64,
    now: u64,
    wall: i64,
    current_chain_id: u64,
    current_chain_length: u64,
    pending_review: Option<PendingReview>,
}

impl View for Service {
    type V = ServiceState;

    closed spec fn view(&self) -> ServiceState {
        ServiceState {
            timer: self.timer@,
            tasks: self.tasks@,
            next_task_id: self.tasks.spec_next_id(),
            history: self.history@.map_values(|r: SessionRecord| record_model(r)),
            applied_keys: self.applied_keys@.map_values(|k: String| k@),
            health: self.durable_health,
            last_commit: self.last_successful_commit,
            durable_error: text_option(self.durable_error),
            reminders_enabled: self.reminders_enabled,
            sound_enabled: self.sound_enabled,
            next_event_id: self.next_event_id,
            now: self.now,
            wall: self.wall,
            chain_id: self.current_chain_id,
            chain_length: self.current_chain_length,
            review: match self.pending_review {
                Some(r) => Some(review_model(r)),
                None => None,
            },
        }
    }
}

// ---------------------------------------------------------------------------
// Names and kinds.
// ---------------------------------------------------------------------------

/// The wire kind of a domain Session kind.
pub open spec fn map_kind_spec(kind: DomainKind) -> SessionKind {
    match kind {
        DomainKind::Focus => SessionKind::Focus,
        DomainKind::ShortBreak => SessionKind::ShortBreak,
        DomainKind::LongBreak => SessionKind::LongBreak,
    }
}

pub fn map_kind(kind: DomainKind) -> (mapped: SessionKind)
    ensures
        mapped == map_kind_spec(kind),
{
    match kind {
        DomainKind::Focus => SessionKind::Focus,
        DomainKind::ShortBreak => SessionKind::ShortBreak,
        DomainKind::LongBreak => SessionKind::LongBreak,
    }
}

/// The name of a wire Session kind, as it is written in messages.
pub open spec fn kind_text(kind: SessionKind) -> Seq<char> {
    match kind {
        SessionKind::Focus => "Focus"@,
        SessionKind::ShortBreak => "ShortBreak"@,
        SessionKind::LongBreak => "LongBreak"@,
    }
}

fn kind_str(kind: SessionKind) -> (text: &'static str)
    ensures
        text@ == kind_text(kind),
{
    match kind {
        SessionKind::Focus => "Focus",
        SessionKind::ShortBreak => "ShortBreak",
        SessionKind::LongBreak => "LongBreak",
    }
}

/// The name of a Session outcome, as it is shown.
pub open spec fn outcome_text(outcome: SessionOutcome) -> Seq<char> {
    match outcome {
        SessionOutcome::Completed => "Completed"@,
        SessionOutcome::Stopped => "Stopped"@,
        SessionOutcome::Skipped => "Skipped"@,
    }
}

pub fn outcome_str(outcome: SessionOutcome) -> (text: &'static str)
    ensures
        text@ == outcome_text(outcome),
{
    match outcome {
        SessionOutcome::Completed => "Completed",
        SessionOutcome::Stopped => "Stopped",
        SessionOutcome::Skipped => "Skipped",
    }
}

/// The name of a domain Session kind in durable state.
pub open spec fn domain_kind_name_spec(kind: DomainKind) -> Seq<char> {
    match kind {
        DomainKind::Focus => "focus"@,
        DomainKind::ShortBreak => "short_break"@,
        DomainKind::LongBreak => "long_break"@,
    }
}

pub fn domain_kind_name(kind: DomainKind) -> (name: &'static str)
    ensures
        name@ == domain_kind_name_spec(kind),
{
    match kind {
        DomainKind::Focus => "focus",
        DomainKind::ShortBreak => "short_break",
        DomainKind::LongBreak => "long_break",
    }
}

/// The name of a Session outcome in durable state.
pub open spec fn outcome_name_spec(outcome: SessionOutcome) -> Seq<char> {
    match outcome {
        SessionOutcome::Completed => "completed"@,
        SessionOutcome::Stopped => "stopped"@,
        SessionOutcome::Skipped => "skipped"@,
    }
}

pub fn outcome_name(outcome: SessionOutcome) -> (name: &'static str)
    ensures
        name@ == outcome_name_spec(outcome),
{
    match outcome {
        SessionOutcome::Completed => "completed",
        SessionOutcome::Stopped => "stopped",
        SessionOutcome::Skipped => "skipped",
    }
}

/// The name of a domain Session kind, as Rust's `Debug` writes it.
pub open spec fn domain_kind_text(kind: DomainKind) -> Seq<char> {
    kind_text(map_kind_spec(kind))
}

/// The state name of the Current Session.
pub open spec fn state_name(session: SessionState) -> Seq<char> {
    match session {
        SessionState::Pending { .. } => "pending"@,
        SessionState::Running { .. } => "running"@,
        SessionState::Paused { .. } => "paused"@,
    }
}

/// The kind of the Current Session.
pub open spec fn session_kind(session: SessionState) -> DomainKind {
    match session {
        SessionState::Pending { kind } => kind,
        SessionState::Running { kind, .. } => kind,
        SessionState::Paused { kind, .. } => kind,
    }
}

/// The kind recommended after a Running or Paused Session of kind `kind`.
pub open spec fn following_kind_spec(t: TimerState, kind: DomainKind) -> SessionKind {
    match kind {
        DomainKind::Focus => if t.completed_rounds + 1 >= t.rounds_per_cycle {
            SessionKind::LongBreak
        } else {
            SessionKind::ShortBreak
        },
        _ => SessionKind::Focus,
    }
}

/// The kind that a snapshot announces as next.
pub open spec fn next_kind_spec(t: TimerState) -> SessionKind {
    match t.session {
        SessionState::Pending { kind } => map_kind_spec(kind),
        SessionState::Running { kind, .. } => following_kind_spec(t, kind),
        SessionState::Paused { kind, .. } => following_kind_spec(t, kind),
    }
}

// ---------------------------------------------------------------------------
// Recording ended Sessions.
// ---------------------------------------------------------------------------

/// The first position of the Task with identity `id`.
pub open spec fn first_index(tasks: Seq<TaskModel>, id: TaskId) -> int {
    choose|i: int| is_first_index(tasks, id, i)
}

/// The title of the Task with identity `id`, if there is one.
pub open spec fn title_of(tasks: Seq<TaskModel>, id: Option<TaskId>) -> Option<Seq<char>> {
    match id {
        Some(i) => if has_id(tasks, i) {
            Some(tasks[first_index(tasks, i)].1)
        } else {
            None
        },
        None => None,
    }
}

/// The record of an ended Session, with a snapshot of its Task's title.
pub open spec fn event_record(
    event: DomainEvent,
    id: u64,
    ended_at: i64,
    planned_seconds: u64,
    tasks: Seq<TaskModel>,
) -> RecordModel {
    match event {
        DomainEvent::SessionEnded { kind, outcome, actual_seconds, task_id } => RecordModel {
            id,
            ended_at,
            kind,
            outcome,
            planned_seconds,
            actual_seconds,
            task_id,
            task_title: title_of(tasks, task_id),
        },
    }
}

/// Whether an event ends a Focus Session by completing it.
pub open spec fn is_completed_focus(event: DomainEvent) -> bool {
    match event {
        DomainEvent::SessionEnded { kind, outcome, .. } => kind == DomainKind::Focus && outcome
            == SessionOutcome::Completed,
    }
}

/// Whether an event completes a Session of any kind.
pub open spec fn is_completion(event: DomainEvent) -> bool {
    match event {
        DomainEvent::SessionEnded { outcome, .. } => outcome == SessionOutcome::Completed,
    }
}

/// The state after one ended Session is recorded: it joins Session History
/// under the next event identity, and a completed Focus Session awaits review.
pub open spec fn record_event(v: ServiceState, event: DomainEvent, planned: u64) -> ServiceState {
    let r = event_record(event, v.next_event_id, v.wall, planned, v.tasks);
    ServiceState {
        history: v.history.push(r),
        next_event_id: saturating_add_u64(v.next_event_id, 1),
        review: if is_completed_focus(event) {
            Some(
                ReviewModel {
                    session_id: r.id,
                    actual_seconds: r.actual_seconds,
                    task_id: match r.task_id {
                        Some(t) => Some(t.value()),
                        None => None,
                    },
                    task_title: r.task_title,
                },
            )
        } else {
            v.review
        },
        ..v
    }
}

/// The state after the ended Sessions `events` are recorded in order.
pub open spec fn record_events(v: ServiceState, events: Seq<DomainEvent>, planned: u64) -> ServiceState
    decreases events.len(),
{
    if events.len() == 0 {
        v
    } else {
        record_event(record_events(v, events.drop_last(), planned), events.last(), planned)
    }
}


proof fn lemma_first_exists(tasks: Seq<TaskModel>, id: TaskId, j: int)
    requires
        0 <= j < tasks.len(),
        tasks[j].0 == id,
    ensures
        exists|i: int| is_first_index(tasks, id, i),
    decreases j,
{
    if forall|k: int| 0 <= k < j ==> (#[trigger] tasks[k]).0 != id {
        assert(is_first_index(tasks, id, j));
    } else {
        let k = choose|k: int| 0 <= k < j && (#[trigger] tasks[k]).0 == id;
        lemma_first_exists(tasks, id, k);
    }
}

/// The first position of a Task that is present is where `first_index` says.
proof fn lemma_first_index(tasks: Seq<TaskModel>, id: TaskId, i: int)
    requires
        is_first_index(tasks, id, i),
    ensures
        first_index(tasks, id) == i,
        has_id(tasks, id),
        title_of(tasks, Some(id)) == Some(tasks[i].1),
{
    let k = first_index(tasks, id);
    crate::tasks::lemma_first_index_unique(tasks, id, i, k);
}

/// A present Task has a first position.
proof fn lemma_present_has_first(tasks: Seq<TaskModel>, id: TaskId)
    requires
        has_id(tasks, id),
    ensures
        is_first_index(tasks, id, first_index(tasks, id)),
{
    let j = choose|j: int| 0 <= j < tasks.len() && (#[trigger] tasks[j]).0 == id;
    lemma_first_exists(tasks, id, j);
}

// ---------------------------------------------------------------------------
// Deciding requests.
// ---------------------------------------------------------------------------

/// How a handled request is answered once any durable write succeeded.
#[derive(Clone, Copy, Debug, PartialEq, Eq, Structural)]
pub enum Reply {
    /// The Service's snapshot.
    Snapshot,
    /// The identity of a created Task.
    CreatedTask(u64),
}

/// What the Service decides for a request, as plain values.
pub enum Decision {
    /// Refused with a message.
    Rejected(Seq<char>),
    /// Refused because a Task title breaks a rule.
    InvalidTitle(TaskTitleRule),
    /// Answered with the current snapshot; nothing changes.
    Current,
    /// Answered with read-only data; nothing changes.
    Data,
    /// Accepted: the new state must be committed, then answered.
    Commit(Reply),
}

/// A handled request: either its answer, or a commit that the caller must
/// make durable before [`Service::finish`] gives the answer.
#[derive(Debug)]
pub enum Handled {
    Respond(Response),
    Commit { key: Option<String>, reply: Reply },
}

/// The message given while a completed Focus Session awaits review.
pub open spec fn review_blocks_text() -> Seq<char> {
    "Pending Review must be resolved before starting another Focus Session"@
}

/// The message given for a command that this Service does not carry out.
pub open spec fn unsupported_text() -> Seq<char> {
    "command is not supported by this Timer Service"@
}

/// The title rule that a Task error reports, if it is one.
pub open spec fn title_rule_of(e: TaskError) -> Option<TaskTitleRule> {
    match e {
        TaskError::EmptyTitle => Some(TaskTitleRule::Empty),
        TaskError::UnsafeTitleCharacter => Some(TaskTitleRule::UnsafeCharacter),
        TaskError::TitleTooLong { .. } => Some(TaskTitleRule::TooLong),
        TaskError::TitleTooWide { .. } => Some(TaskTitleRule::TooWide),
        _ => None,
    }
}

/// How a Task error is answered.
pub open spec fn task_decision(e: TaskError) -> Decision {
    match title_rule_of(e) {
        Some(rule) => Decision::InvalidTitle(rule),
        None => Decision::Rejected(task_error_text(e)),
    }
}

/// The message for an identity that names no Task.
pub open spec fn not_found_text(id: u64) -> Seq<char> {
    task_error_text(TaskError::NotFound(TaskId::with_value(id)))
}

/// The message for a title that names several Tasks.
pub open spec fn ambiguous_text(ids: Seq<TaskId>) -> Seq<char> {
    "AmbiguousTitle(["@ + task_ids_text(ids) + "])"@
}

/// The state and answer after a Timer operation with outcome `r`.
pub open spec fn transition_decision(
    v: ServiceState,
    r: Result<(TimerState, Seq<DomainEvent>), DomainError>,
) -> (ServiceState, Decision) {
    match r {
        Ok((t, events)) => (
            record_events(ServiceState { timer: t, ..v }, events, planned_spec(v.timer)),
            Decision::Commit(Reply::Snapshot),
        ),
        Err(e) => (v, Decision::Rejected(domain_error_text(e))),
    }
}

/// The Task identity of an optional number.
pub open spec fn task_id_option(id: Option<u64>) -> Option<TaskId> {
    match id {
        Some(n) => Some(TaskId::with_value(n)),
        None => None,
    }
}

/// Starting the recommended Session, optionally for a Task.
pub open spec fn start_decision(v: ServiceState, kind: SessionKind, task_id: Option<u64>) -> (
    ServiceState,
    Decision,
) {
    if kind == SessionKind::Focus && v.review is Some {
        (v, Decision::Rejected(review_blocks_text()))
    } else {
        let current = match v.timer.session {
            SessionState::Pending { kind: k } => map_kind_spec(k),
            _ => kind,
        };
        if current != kind {
            (
                v,
                Decision::Rejected(
                    "recommended Session is "@ + kind_text(current) + ", not "@ + kind_text(kind),
                ),
            )
        } else if task_id is Some && !has_id(v.tasks, TaskId::with_value(task_id->Some_0)) {
            (
                v,
                Decision::Rejected(
                    "Task "@ + decimal(task_id->Some_0 as nat) + " does not exist"@,
                ),
            )
        } else {
            transition_decision(v, start_spec(v.timer, v.now, task_id_option(task_id)))
        }
    }
}

/// Starting a Focus Session for the Task titled `title`, created if no Task
/// has that title.
pub open spec fn start_title_decision(v: ServiceState, title: Seq<char>) -> (ServiceState, Decision) {
    if v.review is Some {
        (v, Decision::Rejected(review_blocks_text()))
    } else {
        match normalized_title_spec(title) {
            Err(e) => (v, task_decision(e)),
            Ok(key) => {
                let ids = ids_titled(v.tasks, key);
                if ids.len() == 1 {
                    transition_decision(v, start_spec(v.timer, v.now, Some(ids[0])))
                } else if ids.len() > 1 {
                    (v, Decision::Rejected(ambiguous_text(ids)))
                } else if v.next_task_id == u64::MAX {
                    (v, Decision::Rejected(task_error_text(TaskError::IdExhausted)))
                } else {
                    let id = TaskId::with_value(v.next_task_id);
                    let w = ServiceState {
                        tasks: v.tasks.push((id, key, TaskStatus::Open)),
                        next_task_id: (v.next_task_id + 1) as u64,
                        ..v
                    };
                    transition_decision(w, start_spec(w.timer, w.now, Some(id)))
                }
            },
        }
    }
}

/// Creating a Task.
pub open spec fn create_decision(v: ServiceState, title: Seq<char>) -> (ServiceState, Decision) {
    match normalized_title_spec(title) {
        Err(e) => (v, task_decision(e)),
        Ok(t) => if v.next_task_id == u64::MAX {
            (v, Decision::Rejected(task_error_text(TaskError::IdExhausted)))
        } else {
            (
                ServiceState {
                    tasks: v.tasks.push((TaskId::with_value(v.next_task_id), t, TaskStatus::Open)),
                    next_task_id: (v.next_task_id + 1) as u64,
                    ..v
                },
                Decision::Commit(Reply::CreatedTask(v.next_task_id)),
            )
        },
    }
}

/// Renaming a Task.
pub open spec fn rename_decision(v: ServiceState, id: u64, title: Seq<char>) -> (ServiceState, Decision) {
    let tid = TaskId::with_value(id);
    match normalized_title_spec(title) {
        Err(e) => (v, task_decision(e)),
        Ok(t) => if has_id(v.tasks, tid) {
            (
                ServiceState { tasks: with_title(v.tasks, first_index(v.tasks, tid), t), ..v },
                Decision::Commit(Reply::Snapshot),
            )
        } else {
            (v, Decision::Rejected(not_found_text(id)))
        },
    }
}

/// Completing or reopening a Task.
pub open spec fn status_decision(v: ServiceState, id: u64, status: TaskStatus) -> (
    ServiceState,
    Decision,
) {
    let tid = TaskId::with_value(id);
    if has_id(v.tasks, tid) {
        (
            ServiceState { tasks: with_status(v.tasks, first_index(v.tasks, tid), status), ..v },
            Decision::Commit(Reply::Snapshot),
        )
    } else {
        (v, Decision::Rejected(not_found_text(id)))
    }
}

/// Deleting a Task: a Pending Session lets go of it; a Running or Paused
/// one keeps it.
pub open spec fn delete_decision(v: ServiceState, id: u64) -> (ServiceState, Decision) {
    let tid = TaskId::with_value(id);
    if !has_id(v.tasks, tid) {
        (v, Decision::Rejected(not_found_text(id)))
    } else {
        match detach_task_spec(v.timer, tid) {
            Err(e) => (v, Decision::Rejected(domain_error_text(e))),
            Ok(t) => if t.current_task == Some(tid) {
                (
                    ServiceState { timer: t, ..v },
                    Decision::Rejected(
                        task_error_text(TaskError::ReferencedByCurrentSession(tid)),
                    ),
                )
            } else {
                (
                    ServiceState {
                        timer: t,
                        tasks: v.tasks.remove(first_index(v.tasks, tid)),
                        ..v
                    },
                    Decision::Commit(Reply::Snapshot),
                )
            },
        }
    }
}

/// Binding a Task to the Current Session; a Running or Paused Session is
/// stopped first only when the user confirmed it.
pub open spec fn select_decision(v: ServiceState, id: u64, stop_current: bool) -> (
    ServiceState,
    Decision,
) {
    let tid = TaskId::with_value(id);
    if !has_id(v.tasks, tid) {
        (v, Decision::Rejected(not_found_text(id)))
    } else if v.timer.session is Pending {
        match select_task_spec(v.timer, tid) {
            Ok(t) => (ServiceState { timer: t, ..v }, Decision::Commit(Reply::Snapshot)),
            Err(e) => (v, Decision::Rejected(domain_error_text(e))),
        }
    } else if stop_current {
        match stop_spec(v.timer, v.now) {
            Err(e) => (v, Decision::Rejected(domain_error_text(e))),
            Ok((t, events)) => {
                let w = record_events(ServiceState { timer: t, ..v }, events, planned_spec(v.timer));
                match select_task_spec(w.timer, tid) {
                    Ok(t2) => (ServiceState { timer: t2, ..w }, Decision::Commit(Reply::Snapshot)),
                    Err(e) => (w, Decision::Rejected(domain_error_text(e))),
                }
            },
        }
    } else {
        (v, Decision::Rejected("Current Session must be stopped before switching Task"@))
    }
}

/// The records that deleting the identities `ids` keeps, in order.
pub open spec fn kept_models(history: Seq<RecordModel>, ids: Seq<u64>) -> Seq<RecordModel> {
    history.filter(|r: RecordModel| !ids.contains(r.id))
}

/// Deleting Session History entries.
pub open spec fn history_delete_decision(v: ServiceState, ids: Seq<u64>) -> (ServiceState, Decision) {
    if ids.len() == 0 {
        (v, Decision::Rejected("Select at least one Session History entry"@))
    } else {
        let kept = kept_models(v.history, ids);
        if kept.len() == v.history.len() {
            (
                ServiceState { history: kept, ..v },
                Decision::Rejected("Selected Session History entries no longer exist"@),
            )
        } else {
            (ServiceState { history: kept, ..v }, Decision::Commit(Reply::Snapshot))
        }
    }
}

/// Whether a request's idempotency key was already applied.
pub open spec fn key_applied(v: ServiceState, key: Option<String>) -> bool {
    match key {
        Some(k) => v.applied_keys.contains(k@),
        None => false,
    }
}

/// The state and answer for a request that reached the Service: a replayed
/// mutation is answered with the current snapshot and changes nothing.
pub open spec fn handle_spec(v: ServiceState, request: Request) -> (ServiceState, Decision) {
    if key_applied(v, request.idempotency_key) {
        (v, Decision::Current)
    } else {
        match request.command {
            Command::Status => (v, Decision::Current),
            Command::Start { kind, task_id } => start_decision(v, kind, task_id),
            Command::StartTitle { title } => start_title_decision(v, title@),
            Command::Pause => transition_decision(v, pause_spec(v.timer, v.now)),
            Command::Resume => transition_decision(v, resume_spec(v.timer, v.now)),
            Command::Stop => transition_decision(v, stop_spec(v.timer, v.now)),
            Command::Skip => transition_decision(v, skip_spec(v.timer)),
            Command::TaskCreate { title } => create_decision(v, title@),
            Command::TaskList => (v, Decision::Data),
            Command::TaskRename { id, title } => rename_decision(v, id, title@),
            Command::TaskComplete { id } => status_decision(v, id, TaskStatus::Completed),
            Command::TaskReopen { id } => status_decision(v, id, TaskStatus::Open),
            Command::TaskDelete { id } => delete_decision(v, id),
            Command::TaskSelect { id, stop_current } => select_decision(v, id, stop_current),
            Command::History => (v, Decision::Data),
            Command::HistoryDelete { ids } => history_delete_decision(v, ids@),
            Command::Summary => (v, Decision::Data),
            _ => (v, Decision::Rejected(unsupported_text())),
        }
    }
}

/// Whether an intermediate outcome matches a decision that is a refusal or a
/// commit.
pub open spec fn step_as(r: Result<Reply, Response>, d: Decision) -> bool {
    match d {
        Decision::Rejected(m) => r matches Err(Response::Error { error: ProtocolError::Rejected { message } })
            && message@ == m,
        Decision::InvalidTitle(rule) => r == Err::<Reply, Response>(
            Response::Error { error: ProtocolError::InvalidTaskTitle { rule } },
        ),
        Decision::Commit(reply) => r == Ok::<Reply, Response>(reply),
        _ => false,
    }
}

/// The refusal of a mutating request while durable state is unavailable.
pub open spec fn refusal_spec(v: ServiceState, request: Request) -> Option<Seq<char>> {
    if v.health == DurableHealthState::Degraded && command_mutates(request.command) {
        Some(
            match v.durable_error {
                Some(e) => e,
                None => "durable state is unavailable"@,
            },
        )
    } else {
        None
    }
}

fn rejected(message: String) -> (r: Response)
    ensures
        r == (Response::Error { error: ProtocolError::Rejected { message } }),
{
    Response::Error { error: ProtocolError::Rejected { message } }
}

fn rejected_domain(e: DomainError) -> (r: Response)
    ensures
        r matches Response::Error { error: ProtocolError::Rejected { message } } && message@
            == domain_error_text(e),
{
    rejected(String::from_str(e.message()))
}

fn task_refusal(e: TaskError) -> (r: Response)
    ensures
        step_as(Err(r), task_decision(e)),
{
    match e {
        TaskError::EmptyTitle => Response::Error {
            error: ProtocolError::InvalidTaskTitle { rule: TaskTitleRule::Empty },
        },
        TaskError::UnsafeTitleCharacter => Response::Error {
            error: ProtocolError::InvalidTaskTitle { rule: TaskTitleRule::UnsafeCharacter },
        },
        TaskError::TitleTooLong { .. } => Response::Error {
            error: ProtocolError::InvalidTaskTitle { rule: TaskTitleRule::TooLong },
        },
        TaskError::TitleTooWide { .. } => Response::Error {
            error: ProtocolError::InvalidTaskTitle { rule: TaskTitleRule::TooWide },
        },
        _ => rejected(e.message()),
    }
}


// ---------------------------------------------------------------------------
// The Service's operations.
// ---------------------------------------------------------------------------

/// The kind that follows a Running or Paused Session of kind `kind`.
fn following_kind(timer: &Timer, kind: DomainKind) -> (next: SessionKind)
    ensures
        next == following_kind_spec(timer@, kind),
{
    match kind {
        DomainKind::Focus => {
            let cycle = timer.focus_cycle();
            let completed = cycle.completed_rounds();
            let next_round: u8 = if completed == 255 {
                255
            } else {
                completed + 1
            };
            if next_round >= cycle.rounds_per_cycle() {
                SessionKind::LongBreak
            } else {
                SessionKind::ShortBreak
            }
        },
        _ => SessionKind::Focus,
    }
}

impl Service {
    /// A fresh Service: a Pending Focus Session of the built-in lengths (25,
    /// 5 and 15 minutes), four rounds per Focus Cycle, no Tasks and no
    /// history, observed at `now` (suspend-aware seconds) and `wall` (Unix
    /// seconds).
    pub fn new(now: u64, wall: i64) -> (service: Self)
        ensures
            service@.timer.session == (SessionState::Pending { kind: DomainKind::Focus }),
            service@.timer.current_task is None,
            service@.timer.completed_rounds == 0,
            service@.timer.rounds_per_cycle == 4,
            service@.timer.durations.spec_focus() == 1500,
            service@.timer.durations.spec_short_break() == 300,
            service@.timer.durations.spec_long_break() == 900,
            service@.tasks.len() == 0,
            service@.next_task_id == 1,
            service@.history.len() == 0,
            service@.applied_keys.len() == 0,
            service@.health == DurableHealthState::Healthy,
            service@.last_commit is None,
            service@.durable_error is None,
            service@.reminders_enabled,
            !service@.sound_enabled,
            service@.next_event_id == 1,
            service@.now == now,
            service@.wall == wall,
            service@.chain_id == 1,
            service@.chain_length == 0,
            service@.review is None,
            storable(service@),
    {
        let durations = SessionDurations::new(1500, 300, 900).unwrap();
        let timer = Timer::new(durations, 4).unwrap();
        let service = Service {
            timer,
            tasks: TaskStore::new(),
            history: History::new(),
            applied_keys: Vec::new(),
            durable_health: DurableHealthState::Healthy,
            last_successful_commit: None,
            durable_error: None,
            reminders_enabled: true,
            sound_enabled: false,
            next_event_id: 1,
            now,
            wall,
            current_chain_id: 1,
            current_chain_length: 0,
            pending_review: None,
        };
        assert(service@.history =~= Seq::<RecordModel>::empty());
        assert(service@.applied_keys =~= Seq::<Seq<char>>::empty());
        service
    }

    /// Records the Sessions that a transition ended.
    fn record(&mut self, transition: &Transition, planned_seconds: u64)
        ensures
            final(self)@ == record_events(old(self)@, transition@, planned_seconds),
    {
        let events = transition.events();
        let ghost start = self@;
        let mut i: usize = 0;
        while i < events.len()
            invariant
                i <= events@.len(),
                events@ == transition@,
                self@ == record_events(start, events@.subrange(0, i as int), planned_seconds),
            decreases events@.len() - i,
        {
            let event = events[i];
            let ghost before = self@;
            let record = SessionRecord::from_event(
                event,
                self.next_event_id,
                self.wall,
                planned_seconds,
                &self.tasks,
            );
            proof {
                let DomainEvent::SessionEnded { task_id, .. } = event;
                if task_id is Some && has_id(self.tasks@, task_id->Some_0) {
                    let k = choose|k: int|
                        is_first_index(self.tasks@, task_id->Some_0, k) && record.task_title->Some_0@
                            == self.tasks@[k].1;
                    lemma_first_index(self.tasks@, task_id->Some_0, k);
                }
                assert(record_model(record) == event_record(
                    event,
                    before.next_event_id,
                    before.wall,
                    planned_seconds,
                    before.tasks,
                ));
            }
            let completed_focus = match event {
                DomainEvent::SessionEnded { kind: DomainKind::Focus, outcome: SessionOutcome::Completed, .. } => true,
                _ => false,
            };
            if completed_focus {
                let task_id = match record.task_id {
                    Some(t) => Some(t.get()),
                    None => None,
                };
                let task_title = match &record.task_title {
                    Some(t) => Some(t.clone()),
                    None => None,
                };
                self.pending_review = Some(
                    PendingReview {
                        session_id: record.id,
                        actual_seconds: record.actual_seconds,
                        task_id,
                        task_title,
                    },
                );
            }
            self.history.push(record);
            self.next_event_id = if self.next_event_id == u64::MAX {
                u64::MAX
            } else {
                self.next_event_id + 1
            };
            i = i + 1;
            proof {
                assert(events@.subrange(0, i as int).drop_last() =~= events@.subrange(0, i as int - 1));
                assert(events@.subrange(0, i as int).last() == event);
                assert(self@.history =~= before.history.push(record_model(record)));
                assert(self@ == record_event(before, event, planned_seconds));
            }
        }
        assert(events@.subrange(0, events@.len() as int) =~= events@);
    }

    /// Records what a Timer operation ended, or gives its error's message.
    fn apply_transition(&mut self, result: Result<Transition, DomainError>, planned_seconds: u64) -> (r: Result<(), Response>)
        ensures
            match result {
                Ok(t) => final(self)@ == record_events(old(self)@, t@, planned_seconds) && r is Ok,
                Err(e) => final(self)@ == old(self)@ && (r matches Err(Response::Error { error: ProtocolError::Rejected { message } })
                    && message@ == domain_error_text(e)),
            },
    {
        match result {
            Ok(transition) => {
                self.record(&transition, planned_seconds);
                Ok(())
            },
            Err(e) => Err(rejected_domain(e)),
        }
    }
}


/// Keeping Session History records and taking their plain values commute.
proof fn lemma_kept_models(rs: Seq<SessionRecord>, ids: Seq<u64>)
    ensures
        kept_records(rs, ids).map_values(|r: SessionRecord| record_model(r)) == kept_models(
            rs.map_values(|r: SessionRecord| record_model(r)),
            ids,
        ),
    decreases rs.len(),
{
    reveal_with_fuel(Seq::filter, 1);
    let ms = rs.map_values(|r: SessionRecord| record_model(r));
    if rs.len() == 0 {
        assert(kept_records(rs, ids) =~= Seq::<SessionRecord>::empty());
        assert(kept_models(ms, ids) =~= Seq::<RecordModel>::empty());
        assert(kept_records(rs, ids).map_values(|r: SessionRecord| record_model(r)) =~= kept_models(
            ms,
            ids,
        ));
    } else {
        lemma_kept_models(rs.drop_last(), ids);
        assert(ms.drop_last() =~= rs.drop_last().map_values(|r: SessionRecord| record_model(r)));
        assert(ms.last() == record_model(rs.last()));
        let kr = kept_records(rs.drop_last(), ids);
        if !ids.contains(rs.last().id) {
            assert(kept_records(rs, ids) == kr.push(rs.last()));
            assert(kept_models(ms, ids) == kept_models(ms.drop_last(), ids).push(ms.last()));
            assert(kr.push(rs.last()).map_values(|r: SessionRecord| record_model(r)) =~= kr.map_values(
                |r: SessionRecord| record_model(r),
            ).push(record_model(rs.last())));
        } else {
            assert(kept_records(rs, ids) == kr);
            assert(kept_models(ms, ids) == kept_models(ms.drop_last(), ids));
        }
    }
}

impl Service {
    fn do_transition_result(&mut self, result: Result<Transition, DomainError>, planned_seconds: u64) -> (r: Result<Reply, Response>)
        ensures
            match result {
                Ok(t) => final(self)@ == record_events(old(self)@, t@, planned_seconds) && r == Ok::<Reply, Response>(Reply::Snapshot),
                Err(e) => final(self)@ == old(self)@ && (r matches Err(Response::Error { error: ProtocolError::Rejected { message } })
                    && message@ == domain_error_text(e)),
            },
    {
        match self.apply_transition(result, planned_seconds) {
            Ok(()) => Ok(Reply::Snapshot),
            Err(response) => Err(response),
        }
    }

    fn do_pause(&mut self) -> (r: Result<Reply, Response>)
        ensures
            ({
                let (w, d) = transition_decision(old(self)@, pause_spec(old(self)@.timer, old(self)@.now));
                final(self)@ == w && step_as(r, d)
            }),
    {
        let planned = self.timer.planned_seconds();
        let result = self.timer.pause(self.now);
        self.do_transition_result(result, planned)
    }

    fn do_resume(&mut self) -> (r: Result<Reply, Response>)
        ensures
            ({
                let (w, d) = transition_decision(old(self)@, resume_spec(old(self)@.timer, old(self)@.now));
                final(self)@ == w && step_as(r, d)
            }),
    {
        let planned = self.timer.planned_seconds();
        let result = self.timer.resume(self.now);
        self.do_transition_result(result, planned)
    }

    fn do_stop(&mut self) -> (r: Result<Reply, Response>)
        ensures
            ({
                let (w, d) = transition_decision(old(self)@, stop_spec(old(self)@.timer, old(self)@.now));
                final(self)@ == w && step_as(r, d)
            }),
    {
        let planned = self.timer.planned_seconds();
        let result = self.timer.stop(self.now);
        self.do_transition_result(result, planned)
    }

    fn do_skip(&mut self) -> (r: Result<Reply, Response>)
        ensures
            ({
                let (w, d) = transition_decision(old(self)@, skip_spec(old(self)@.timer));
                final(self)@ == w && step_as(r, d)
            }),
    {
        let planned = self.timer.planned_seconds();
        let result = self.timer.skip();
        self.do_transition_result(result, planned)
    }

    fn do_start(&mut self, kind: SessionKind, task_id: Option<u64>) -> (r: Result<Reply, Response>)
        ensures
            ({
                let (w, d) = start_decision(old(self)@, kind, task_id);
                final(self)@ == w && step_as(r, d)
            }),
    {
        if kind == SessionKind::Focus && self.pending_review.is_some() {
            return Err(
                rejected(
                    String::from_str(
                        "Pending Review must be resolved before starting another Focus Session",
                    ),
                ),
            );
        }
        let current_kind = match self.timer.current_session() {
            CurrentSession::Pending(pending) => map_kind(pending.kind()),
            _ => kind,
        };
        if current_kind != kind {
            let head = concat3("recommended Session is ", kind_str(current_kind), ", not ");
            return Err(rejected(concat(head.as_str(), kind_str(kind))));
        }
        match task_id {
            Some(id) => match self.tasks.get(TaskId::new(id)) {
                Ok(_) => {},
                Err(_) => {
                    let digits = decimal_string(id);
                    return Err(rejected(concat3("Task ", digits.as_str(), " does not exist")));
                },
            },
            None => {},
        }
        let planned = self.timer.planned_seconds();
        let ids = match task_id {
            Some(id) => Some(TaskId::new(id)),
            None => None,
        };
        let result = self.timer.start(self.now, ids);
        self.do_transition_result(result, planned)
    }

    fn do_start_title(&mut self, title: &str) -> (r: Result<Reply, Response>)
        ensures
            ({
                let (w, d) = start_title_decision(old(self)@, title@);
                final(self)@ == w && step_as(r, d)
            }),
    {
        if self.pending_review.is_some() {
            return Err(
                rejected(
                    String::from_str(
                        "Pending Review must be resolved before starting another Focus Session",
                    ),
                ),
            );
        }
        let task_id = match self.tasks.resolve_title(title) {
            Ok(id) => id,
            Err(TaskError::TitleNotFound(_)) => match self.tasks.create(title) {
                Ok(id) => {
                    proof {
                        TaskId::lemma_with_value(old(self)@.next_task_id);
                        TaskId::lemma_value_injective(id, TaskId::with_value(old(self)@.next_task_id));
                    }
                    id
                },
                Err(e) => {
                    return Err(task_refusal(e));
                },
            },
            Err(e) => {
                return Err(task_refusal(e));
            },
        };
        let planned = self.timer.planned_seconds();
        let result = self.timer.start(self.now, Some(task_id));
        self.do_transition_result(result, planned)
    }

    fn do_create(&mut self, title: &str) -> (r: Result<Reply, Response>)
        ensures
            ({
                let (w, d) = create_decision(old(self)@, title@);
                final(self)@ == w && step_as(r, d)
            }),
    {
        match self.tasks.create(title) {
            Ok(id) => {
                proof {
                    TaskId::lemma_with_value(old(self)@.next_task_id);
                        TaskId::lemma_value_injective(id, TaskId::with_value(old(self)@.next_task_id));
                }
                Ok(Reply::CreatedTask(id.get()))
            },
            Err(e) => Err(task_refusal(e)),
        }
    }

    fn do_rename(&mut self, id: u64, title: &str) -> (r: Result<Reply, Response>)
        ensures
            ({
                let (w, d) = rename_decision(old(self)@, id, title@);
                final(self)@ == w && step_as(r, d)
            }),
    {
        let tid = TaskId::new(id);
        let result = self.tasks.rename(tid, title);
        proof {
            if result is Ok {
                let i = choose|i: int| is_first_index(old(self)@.tasks, tid, i) && self@.tasks
                    == with_title(old(self)@.tasks, i, normalized_title_spec(title@)->Ok_0);
                lemma_first_index(old(self)@.tasks, tid, i);
            }
        }
        match result {
            Ok(()) => Ok(Reply::Snapshot),
            Err(e) => Err(task_refusal(e)),
        }
    }

    fn do_set_status(&mut self, id: u64, status: TaskStatus) -> (r: Result<Reply, Response>)
        ensures
            ({
                let (w, d) = status_decision(old(self)@, id, status);
                final(self)@ == w && step_as(r, d)
            }),
    {
        let tid = TaskId::new(id);
        let result = match status {
            TaskStatus::Completed => self.tasks.complete(tid),
            TaskStatus::Open => self.tasks.reopen(tid),
        };
        proof {
            if result is Ok {
                let i = choose|i: int| is_first_index(old(self)@.tasks, tid, i) && self@.tasks
                    == with_status(old(self)@.tasks, i, status);
                lemma_first_index(old(self)@.tasks, tid, i);
            }
        }
        match result {
            Ok(()) => Ok(Reply::Snapshot),
            Err(e) => Err(task_refusal(e)),
        }
    }

    fn do_delete(&mut self, id: u64) -> (r: Result<Reply, Response>)
        ensures
            ({
                let (w, d) = delete_decision(old(self)@, id);
                final(self)@ == w && step_as(r, d)
            }),
    {
        let tid = TaskId::new(id);
        match self.tasks.get(tid) {
            Ok(_) => {},
            Err(e) => {
                return Err(task_refusal(e));
            },
        }
        match self.timer.detach_pending_task(tid) {
            Ok(()) => {},
            Err(e) => {
                return Err(rejected_domain(e));
            },
        }
        let current = self.timer.current_task();
        let ghost mid = self@;
        let result = self.tasks.delete(tid, current);
        proof {
            if result is Ok {
                let i = choose|i: int| is_first_index(mid.tasks, tid, i) && self@.tasks == mid.tasks.remove(i);
                lemma_first_index(mid.tasks, tid, i);
            }
        }
        match result {
            Ok(_) => Ok(Reply::Snapshot),
            Err(e) => Err(task_refusal(e)),
        }
    }

    fn do_select(&mut self, id: u64, stop_current: bool) -> (r: Result<Reply, Response>)
        ensures
            ({
                let (w, d) = select_decision(old(self)@, id, stop_current);
                final(self)@ == w && step_as(r, d)
            }),
    {
        let tid = TaskId::new(id);
        match self.tasks.get(tid) {
            Ok(_) => {},
            Err(e) => {
                return Err(task_refusal(e));
            },
        }
        let pending = match self.timer.current_session() {
            CurrentSession::Pending(_) => true,
            _ => false,
        };
        if pending {
            match self.timer.select_pending_task(tid) {
                Ok(()) => Ok(Reply::Snapshot),
                Err(e) => Err(rejected_domain(e)),
            }
        } else if stop_current {
            let planned = self.timer.planned_seconds();
            let result = self.timer.stop(self.now);
            match self.apply_transition(result, planned) {
                Ok(()) => {},
                Err(response) => {
                    return Err(response);
                },
            }
            match self.timer.select_pending_task(tid) {
                Ok(()) => Ok(Reply::Snapshot),
                Err(e) => Err(rejected_domain(e)),
            }
        } else {
            Err(rejected(String::from_str("Current Session must be stopped before switching Task")))
        }
    }

    fn do_history_delete(&mut self, ids: &Vec<u64>) -> (r: Result<Reply, Response>)
        ensures
            ({
                let (w, d) = history_delete_decision(old(self)@, ids@);
                final(self)@ == w && step_as(r, d)
            }),
    {
        if ids.len() == 0 {
            return Err(rejected(String::from_str("Select at least one Session History entry")));
        }
        let ghost before = self.history@;
        let removed = self.history.delete(ids.as_slice());
        proof {
            lemma_kept_models(before, ids@);
            assert(self@.history == kept_models(old(self)@.history, ids@));
        }
        if removed == 0 {
            Err(rejected(String::from_str("Selected Session History entries no longer exist")))
        } else {
            Ok(Reply::Snapshot)
        }
    }
}


// ---------------------------------------------------------------------------
// Snapshots.
// ---------------------------------------------------------------------------

/// The local days a snapshot reports on: where each of the seven days up to
/// today starts (and where tomorrow starts), and each day's date.
#[derive(Clone, Debug, PartialEq, Eq)]
pub struct Calendar {
    pub starts: [i64; 8],
    pub dates: [String; 7],
}

/// The focus seconds attributed to Task `id`, added up with saturation.
pub open spec fn focus_for_task(history: Seq<RecordModel>, id: TaskId) -> u64
    decreases history.len(),
{
    if history.len() == 0 {
        0
    } else {
        let before = focus_for_task(history.drop_last(), id);
        let r = history.last();
        if r.kind == DomainKind::Focus && r.task_id == Some(id) {
            saturating_add_u64(before, r.actual_seconds)
        } else {
            before
        }
    }
}

/// The focus seconds recorded on local day `d`, added up with saturation.
pub open spec fn day_focus(history: Seq<RecordModel>, starts: Seq<i64>, d: int) -> u64
    decreases history.len(),
{
    if history.len() == 0 {
        0
    } else {
        let before = day_focus(history.drop_last(), starts, d);
        let r = history.last();
        if r.kind == DomainKind::Focus && day_of(r.ended_at, starts) == d {
            saturating_add_u64(before, r.actual_seconds)
        } else {
            before
        }
    }
}

/// The Completed Rounds recorded on local day `d`, counted with saturation.
pub open spec fn day_rounds(history: Seq<RecordModel>, starts: Seq<i64>, d: int) -> u32
    decreases history.len(),
{
    if history.len() == 0 {
        0
    } else {
        let before = day_rounds(history.drop_last(), starts, d);
        let r = history.last();
        if r.kind == DomainKind::Focus && r.outcome == SessionOutcome::Completed && day_of(
            r.ended_at,
            starts,
        ) == d {
            if before == u32::MAX {
                before
            } else {
                (before + 1) as u32
            }
        } else {
            before
        }
    }
}

proof fn lemma_totals_of_models(rs: Seq<SessionRecord>, id: TaskId, starts: Seq<i64>, d: int)
    ensures
        task_focus(rs, id) == focus_for_task(rs.map_values(|r: SessionRecord| record_model(r)), id),
        focus_on_day(rs, starts, d) == day_focus(rs.map_values(|r: SessionRecord| record_model(r)), starts, d),
        rounds_on_day(rs, starts, d) == day_rounds(rs.map_values(|r: SessionRecord| record_model(r)), starts, d),
    decreases rs.len(),
{
    if rs.len() > 0 {
        lemma_totals_of_models(rs.drop_last(), id, starts, d);
        assert(rs.map_values(|r: SessionRecord| record_model(r)).drop_last() =~= rs.drop_last().map_values(
            |r: SessionRecord| record_model(r),
        ));
    }
}

/// What a snapshot reports of a Task.
pub open spec fn task_summary_reports(summary: TaskSummary, task: TaskModel, history: Seq<RecordModel>) -> bool {
    &&& summary.id == task.0.value()
    &&& summary.title@ == task.1
    &&& summary.completed == (task.2 == TaskStatus::Completed)
    &&& summary.focus_seconds == focus_for_task(history, task.0)
}

/// What a snapshot reports of a Session History record.
pub open spec fn recent_reports(summary: RecentSessionSummary, r: RecordModel) -> bool {
    &&& summary.id == r.id
    &&& summary.kind == map_kind_spec(r.kind)
    &&& summary.outcome@ == outcome_text(r.outcome)
    &&& summary.actual_seconds == r.actual_seconds
    &&& text_option(summary.task_title) == r.task_title
}

/// What a snapshot reports of the Pending Review.
pub open spec fn review_reports(summary: Option<PendingReviewSummary>, review: Option<ReviewModel>) -> bool {
    match (summary, review) {
        (Some(s), Some(r)) => s.session_id == r.session_id && s.actual_seconds == r.actual_seconds
            && s.task_id == r.task_id && text_option(s.task_title) == r.task_title,
        (None, None) => true,
        _ => false,
    }
}

/// Everything a snapshot reports of the Service, but for the local days.
pub open spec fn snapshot_reports(s: Snapshot, v: ServiceState, delivery: ReminderDelivery) -> bool {
    &&& s.state@ == state_name(v.timer.session)
    &&& s.kind == map_kind_spec(session_kind(v.timer.session))
    &&& s.remaining_seconds == remaining_spec(v.timer, v.now)
    &&& s.planned_seconds == planned_spec(v.timer)
    &&& text_option(s.current_task) == title_of(v.tasks, v.timer.current_task)
    &&& s.current_task_id == match v.timer.current_task {
        Some(t) => Some(t.value()),
        None => None,
    }
    &&& s.completed_rounds == v.timer.completed_rounds
    &&& s.rounds_per_cycle == v.timer.rounds_per_cycle
    &&& s.next_kind == Some(next_kind_spec(v.timer))
    &&& s.durable_health.state == v.health
    &&& s.durable_health.last_successful_commit == v.last_commit
    &&& text_option(s.durable_health.error) == v.durable_error
    &&& s.reminder_delivery == delivery
    &&& s.tasks@.len() == v.tasks.len()
    &&& forall|i: int|
        0 <= i < v.tasks.len() ==> task_summary_reports(#[trigger] s.tasks@[i], v.tasks[i], v.history)
    &&& s.recent_history@.len() == v.history.len()
    &&& forall|i: int|
        0 <= i < v.history.len() ==> recent_reports(
            #[trigger] s.recent_history@[i],
            v.history[v.history.len() - 1 - i],
        )
    &&& s.action_chain == (ActionChainSummary { id: v.chain_id, length: v.chain_length })
    &&& review_reports(s.pending_review, v.review)
    &&& s.recent_chain_links@.len() == 0
}

/// A Session History record that counts toward today's per-Task focus.
pub open spec fn qualifies(r: RecordModel, start: i64, end: i64) -> bool {
    r.kind == DomainKind::Focus && start <= r.ended_at && r.ended_at < end && r.actual_seconds > 0
}

/// Today's focus seconds for the Task title `title`, added up with saturation.
pub open spec fn title_total(history: Seq<RecordModel>, title: Option<Seq<char>>, start: i64, end: i64) -> u64
    decreases history.len(),
{
    if history.len() == 0 {
        0
    } else {
        let before = title_total(history.drop_last(), title, start, end);
        let r = history.last();
        if qualifies(r, start, end) && r.task_title == title {
            saturating_add_u64(before, r.actual_seconds)
        } else {
            before
        }
    }
}

/// Lexicographic order of texts from position `i` on.
pub open spec fn text_before_from(a: Seq<char>, b: Seq<char>, i: int) -> bool
    decreases a.len() - i,
{
    if i >= a.len() {
        i < b.len()
    } else if i >= b.len() {
        false
    } else if a[i] < b[i] {
        true
    } else if a[i] > b[i] {
        false
    } else {
        text_before_from(a, b, i + 1)
    }
}

/// Titles in order: no title first, then texts lexicographically.
pub open spec fn title_before(a: Option<Seq<char>>, b: Option<Seq<char>>) -> bool {
    match (a, b) {
        (None, Some(_)) => true,
        (Some(x), Some(y)) => text_before_from(x, y, 0),
        _ => false,
    }
}

/// Today's per-Task focus in order: most focus first, then by title.
pub open spec fn focus_entry_before(a: TaskFocusSummary, b: TaskFocusSummary) -> bool {
    a.focus_seconds > b.focus_seconds || (a.focus_seconds == b.focus_seconds && title_before(
        text_option(a.task_title),
        text_option(b.task_title),
    ))
}

/// Today's focus per Task title: one entry for each title that today's
/// focus records carry, with its total, ordered.
pub open spec fn task_focus_reports(out: Seq<TaskFocusSummary>, history: Seq<RecordModel>, start: i64, end: i64) -> bool {
    &&& forall|i: int|
        0 <= i < out.len() ==> exists|k: int|
            0 <= k < history.len() && qualifies(#[trigger] history[k], start, end) && history[k].task_title
                == text_option((#[trigger] out[i]).task_title)
    &&& forall|k: int|
        0 <= k < history.len() && qualifies(#[trigger] history[k], start, end) ==> exists|i: int|
            0 <= i < out.len() && text_option((#[trigger] out[i]).task_title) == history[k].task_title
    &&& forall|i: int|
        0 <= i < out.len() ==> (#[trigger] out[i]).focus_seconds == title_total(
            history,
            text_option(out[i].task_title),
            start,
            end,
        )
    &&& forall|i: int, j: int| 0 <= i < j < out.len() ==> focus_entry_before(#[trigger] out[i], #[trigger] out[j])
}

/// What a snapshot reports of the local days.
pub open spec fn today_reports(today: TodaySummary, v: ServiceState, calendar: Calendar) -> bool {
    let starts = calendar.starts@;
    &&& today.focus_seconds == day_focus(v.history, starts, 6)
    &&& today.completed_rounds == day_rounds(v.history, starts, 6)
    &&& forall|d: int| 0 <= d < 7 ==> today.seven_day_focus_seconds@[d] == day_focus(v.history, starts, d)
    &&& today.seven_day_dates@ == calendar.dates@
    &&& today.average_focus_seconds == seven_day_total(today.seven_day_focus_seconds@) / 7
    &&& task_focus_reports(today.task_focus@, v.history, starts[6], starts[7])
}


proof fn lemma_text_before_irreflexive(a: Seq<char>, i: int)
    requires
        0 <= i,
    ensures
        !text_before_from(a, a, i),
    decreases a.len() - i,
{
    if i < a.len() {
        lemma_text_before_irreflexive(a, i + 1);
    }
}

proof fn lemma_text_before_transitive(a: Seq<char>, b: Seq<char>, c: Seq<char>, i: int)
    requires
        0 <= i,
        text_before_from(a, b, i),
        text_before_from(b, c, i),
    ensures
        text_before_from(a, c, i),
    decreases a.len() - i,
{
    if i < a.len() && i < b.len() && i < c.len() && a[i] == b[i] && b[i] == c[i] {
        lemma_text_before_transitive(a, b, c, i + 1);
    }
}

proof fn lemma_text_before_total(a: Seq<char>, b: Seq<char>, i: int)
    requires
        0 <= i <= a.len(),
        i <= b.len(),
        a.subrange(0, i) == b.subrange(0, i),
        a != b,
    ensures
        text_before_from(a, b, i) || text_before_from(b, a, i),
    decreases a.len() - i,
{
    if i < a.len() && i < b.len() && a[i] == b[i] {
        assert(a.subrange(0, i + 1) =~= a.subrange(0, i).push(a[i]));
        assert(b.subrange(0, i + 1) =~= b.subrange(0, i).push(b[i]));
        lemma_text_before_total(a, b, i + 1);
    } else if i == a.len() && i == b.len() {
        assert(a =~= a.subrange(0, i));
        assert(b =~= b.subrange(0, i));
    }
}

proof fn lemma_entry_order(a: TaskFocusSummary, b: TaskFocusSummary, c: TaskFocusSummary)
    ensures
        !focus_entry_before(a, a),
        focus_entry_before(a, b) && focus_entry_before(b, c) ==> focus_entry_before(a, c),
        text_option(a.task_title) != text_option(b.task_title) ==> focus_entry_before(a, b)
            || focus_entry_before(b, a),
{
    let (x, y, z) = (text_option(a.task_title), text_option(b.task_title), text_option(c.task_title));
    if x is Some {
        lemma_text_before_irreflexive(x->Some_0, 0);
    }
    if x is Some && y is Some && z is Some && text_before_from(x->Some_0, y->Some_0, 0)
        && text_before_from(y->Some_0, z->Some_0, 0) {
        lemma_text_before_transitive(x->Some_0, y->Some_0, z->Some_0, 0);
    }
    if x is Some && y is Some && x != y {
        assert(x->Some_0.subrange(0, 0) =~= y->Some_0.subrange(0, 0));
        lemma_text_before_total(x->Some_0, y->Some_0, 0);
    }
}

/// Whether `a` comes before `b` in text order.
fn text_less(a: &str, b: &str) -> (less: bool)
    ensures
        less == text_before_from(a@, b@, 0),
{
    let x = chars_of(a);
    let y = chars_of(b);
    let mut i: usize = 0;
    while i < x.len() && i < y.len()
        invariant
            i <= x@.len(),
            i <= y@.len(),
            x@ == a@,
            y@ == b@,
            text_before_from(a@, b@, 0) == text_before_from(a@, b@, i as int),
        decreases x@.len() - i,
    {
        if x[i] < y[i] {
            return true;
        }
        if x[i] > y[i] {
            return false;
        }
        i = i + 1;
    }
    i >= x.len() && i < y.len()
}

fn title_less(a: &Option<String>, b: &Option<String>) -> (less: bool)
    ensures
        less == title_before(text_option(*a), text_option(*b)),
{
    match (a, b) {
        (None, Some(_)) => true,
        (Some(x), Some(y)) => text_less(x.as_str(), y.as_str()),
        _ => false,
    }
}

fn same_title(a: &Option<String>, b: &Option<String>) -> (same: bool)
    ensures
        same == (text_option(*a) == text_option(*b)),
{
    match (a, b) {
        (None, None) => true,
        (Some(x), Some(y)) => str_equal(x.as_str(), y.as_str()),
        _ => false,
    }
}

fn copy_text(t: &Option<String>) -> (copy: Option<String>)
    ensures
        copy == *t,
{
    match t {
        Some(s) => Some(s.clone()),
        None => None,
    }
}

fn entry_less(a: &TaskFocusSummary, b: &TaskFocusSummary) -> (less: bool)
    ensures
        less == focus_entry_before(*a, *b),
{
    a.focus_seconds > b.focus_seconds || (a.focus_seconds == b.focus_seconds && title_less(
        &a.task_title,
        &b.task_title,
    ))
}

proof fn lemma_title_total_zero(h: Seq<RecordModel>, t: Option<Seq<char>>, start: i64, end: i64)
    requires
        forall|k: int| 0 <= k < h.len() ==> !(qualifies(#[trigger] h[k], start, end) && h[k].task_title == t),
    ensures
        title_total(h, t, start, end) == 0,
    decreases h.len(),
{
    if h.len() > 0 {
        assert forall|k: int| 0 <= k < h.drop_last().len() implies !(qualifies(
            #[trigger] h.drop_last()[k],
            start,
            end,
        ) && h.drop_last()[k].task_title == t) by {
            assert(h.drop_last()[k] == h[k]);
        }
        lemma_title_total_zero(h.drop_last(), t, start, end);
        assert(h.last() == h[h.len() - 1]);
    }
}

/// Whether `groups` holds one entry per title of the qualifying records,
/// with its total.
pub open spec fn grouped(groups: Seq<TaskFocusSummary>, h: Seq<RecordModel>, start: i64, end: i64) -> bool {
    &&& forall|g: int|
        0 <= g < groups.len() ==> exists|k: int|
            0 <= k < h.len() && qualifies(#[trigger] h[k], start, end) && h[k].task_title
                == text_option((#[trigger] groups[g]).task_title)
    &&& forall|k: int|
        0 <= k < h.len() && qualifies(#[trigger] h[k], start, end) ==> exists|g: int|
            0 <= g < groups.len() && text_option((#[trigger] groups[g]).task_title) == h[k].task_title
    &&& forall|g: int|
        0 <= g < groups.len() ==> (#[trigger] groups[g]).focus_seconds == title_total(
            h,
            text_option(groups[g].task_title),
            start,
            end,
        )
    &&& forall|a: int, b: int|
        0 <= a < b < groups.len() ==> text_option((#[trigger] groups[a]).task_title)
            != text_option((#[trigger] groups[b]).task_title)
}

#[verifier::rlimit(60)]
fn group_titles(history: &History, start: i64, end: i64) -> (groups: Vec<TaskFocusSummary>)
    ensures
        grouped(groups@, history@.map_values(|r: SessionRecord| record_model(r)), start, end),
{
    let records = history.records();
    let ghost h = history@.map_values(|r: SessionRecord| record_model(r));
    let mut groups: Vec<TaskFocusSummary> = Vec::new();
    let mut i: usize = 0;
    while i < records.len()
        invariant
            i <= records@.len(),
            records@ == history@,
            h == history@.map_values(|r: SessionRecord| record_model(r)),
            forall|g: int|
                0 <= g < groups@.len() ==> exists|k: int|
                    0 <= k < i && qualifies(#[trigger] h[k], start, end) && h[k].task_title
                        == text_option((#[trigger] groups@[g]).task_title),
            forall|k: int|
                0 <= k < i && qualifies(#[trigger] h[k], start, end) ==> exists|g: int|
                    0 <= g < groups@.len() && text_option((#[trigger] groups@[g]).task_title)
                        == h[k].task_title,
            forall|g: int|
                0 <= g < groups@.len() ==> (#[trigger] groups@[g]).focus_seconds == title_total(
                    h.subrange(0, i as int),
                    text_option(groups@[g].task_title),
                    start,
                    end,
                ),
            forall|a: int, b: int|
                0 <= a < b < groups@.len() ==> text_option((#[trigger] groups@[a]).task_title)
                    != text_option((#[trigger] groups@[b]).task_title),
        decreases records@.len() - i,
    {
        let record = &records[i];
        let ghost hp = h.subrange(0, i as int);
        let ghost hn = h.subrange(0, i as int + 1);
        proof {
            assert(hn.drop_last() =~= hp);
            assert(hn.last() == h[i as int]);
            assert(h[i as int] == record_model(records@[i as int]));
        }
        let is_focus = match record.kind {
            DomainKind::Focus => true,
            _ => false,
        };
        if is_focus && start <= record.ended_at && record.ended_at < end && record.actual_seconds > 0 {
            let mut j: usize = 0;
            let mut found = false;
            while j < groups.len() && !found
                invariant
                    j <= groups@.len(),
                    found ==> j < groups@.len() && text_option(groups@[j as int].task_title)
                        == text_option(record.task_title),
                    !found ==> forall|g: int|
                        0 <= g < j ==> text_option((#[trigger] groups@[g]).task_title)
                            != text_option(record.task_title),
                decreases groups@.len() - j + (if found {
                    0int
                } else {
                    1int
                }),
            {
                if same_title(&groups[j].task_title, &record.task_title) {
                    found = true;
                } else {
                    j = j + 1;
                }
            }
            if found {
                let old_total = groups[j].focus_seconds;
                let total = if old_total > u64::MAX - record.actual_seconds {
                    u64::MAX
                } else {
                    old_total + record.actual_seconds
                };
                let title = copy_text(&groups[j].task_title);
                let ghost before = groups@;
                groups.set(j, TaskFocusSummary { task_title: title, focus_seconds: total });
                proof {
                    assert forall|g: int| 0 <= g < groups@.len() implies exists|k: int|
                        0 <= k < i + 1 && qualifies(#[trigger] h[k], start, end) && h[k].task_title
                            == text_option((#[trigger] groups@[g]).task_title) by {
                        assert(text_option(groups@[g].task_title) == text_option(before[g].task_title));
                    }
                    assert forall|k: int| 0 <= k < i + 1 && qualifies(#[trigger] h[k], start, end) implies exists|g: int|
                        0 <= g < groups@.len() && text_option((#[trigger] groups@[g]).task_title)
                            == h[k].task_title by {
                        if k == i {
                            assert(text_option(groups@[j as int].task_title) == h[k].task_title);
                        } else {
                            let g0 = choose|g: int| 0 <= g < before.len() && text_option((#[trigger] before[g]).task_title)
                                == h[k].task_title;
                            assert(text_option(groups@[g0].task_title) == h[k].task_title);
                        }
                    }
                }
            } else {
                let title = copy_text(&record.task_title);
                let ghost before = groups@;
                proof {
                    lemma_title_total_zero(hp, text_option(record.task_title), start, end);
                }
                groups.push(TaskFocusSummary { task_title: title, focus_seconds: record.actual_seconds });
                proof {
                    assert forall|g: int| 0 <= g < groups@.len() implies exists|k: int|
                        0 <= k < i + 1 && qualifies(#[trigger] h[k], start, end) && h[k].task_title
                            == text_option((#[trigger] groups@[g]).task_title) by {
                        if g == before.len() {
                            assert(qualifies(h[i as int], start, end));
                        } else {
                            assert(groups@[g] == before[g]);
                        }
                    }
                    assert forall|k: int| 0 <= k < i + 1 && qualifies(#[trigger] h[k], start, end) implies exists|g: int|
                        0 <= g < groups@.len() && text_option((#[trigger] groups@[g]).task_title)
                            == h[k].task_title by {
                        if k == i {
                            assert(text_option(groups@[before.len() as int].task_title) == h[k].task_title);
                        } else {
                            let g0 = choose|g: int| 0 <= g < before.len() && text_option((#[trigger] before[g]).task_title)
                                == h[k].task_title;
                            assert(groups@[g0] == before[g0]);
                        }
                    }
                }
            }
        }
        i = i + 1;
    }
    assert(h.subrange(0, records@.len() as int) =~= h);
    groups
}

#[verifier::rlimit(60)]
pub(crate) fn order_entries(groups: Vec<TaskFocusSummary>) -> (out: Vec<TaskFocusSummary>)
    requires
        forall|a: int, b: int|
            0 <= a < b < groups@.len() ==> text_option((#[trigger] groups@[a]).task_title)
                != text_option((#[trigger] groups@[b]).task_title),
    ensures
        forall|g: int| 0 <= g < groups@.len() ==> #[trigger] out@.contains(groups@[g]),
        forall|a: int| 0 <= a < out@.len() ==> groups@.contains(#[trigger] out@[a]),
        forall|a: int, b: int| 0 <= a < b < out@.len() ==> focus_entry_before(#[trigger] out@[a], #[trigger] out@[b]),
{
    let mut rest = groups;
    let ghost all = rest@;
    let mut out: Vec<TaskFocusSummary> = Vec::new();
    assert(forall|g: int| 0 <= g < all.len() ==> #[trigger] out@.contains(all[g]) || rest@.contains(all[g])) by {
        assert forall|g: int| 0 <= g < all.len() implies #[trigger] out@.contains(all[g]) || rest@.contains(all[g]) by {
            assert(rest@[g] == all[g]);
        }
    }
    while rest.len() > 0
        invariant
            forall|g: int| 0 <= g < all.len() ==> #[trigger] out@.contains(all[g]) || rest@.contains(all[g]),
            forall|a: int| 0 <= a < out@.len() ==> all.contains(#[trigger] out@[a]),
            forall|r: int| 0 <= r < rest@.len() ==> all.contains(#[trigger] rest@[r]),
            forall|a: int, b: int|
                0 <= a < b < rest@.len() ==> text_option((#[trigger] rest@[a]).task_title)
                    != text_option((#[trigger] rest@[b]).task_title),
            forall|a: int, b: int| 0 <= a < b < out@.len() ==> focus_entry_before(#[trigger] out@[a], #[trigger] out@[b]),
            forall|a: int, r: int|
                0 <= a < out@.len() && 0 <= r < rest@.len() ==> focus_entry_before(#[trigger] out@[a], #[trigger] rest@[r]),
        decreases rest@.len(),
    {
        let mut best: usize = 0;
        let mut j: usize = 1;
        proof {
            lemma_entry_order(rest@[0], rest@[0], rest@[0]);
        }
        while j < rest.len()
            invariant
                0 <= best < j <= rest@.len(),
                forall|k: int| 0 <= k < j ==> !focus_entry_before(#[trigger] rest@[k], rest@[best as int]),
            decreases rest@.len() - j,
        {
            if entry_less(&rest[j], &rest[best]) {
                proof {
                    assert forall|k: int| 0 <= k < j + 1 implies !focus_entry_before(#[trigger] rest@[k], rest@[j as int]) by {
                        lemma_entry_order(rest@[k], rest@[j as int], rest@[best as int]);
                        lemma_entry_order(rest@[j as int], rest@[j as int], rest@[j as int]);
                    }
                }
                best = j;
            }
            proof {
                lemma_entry_order(rest@[best as int], rest@[best as int], rest@[best as int]);
            }
            j = j + 1;
        }
        let ghost old_rest = rest@;
        let ghost old_out = out@;
        let chosen = rest.remove(best);
        proof {
            assert forall|r: int| 0 <= r < rest@.len() implies focus_entry_before(chosen, #[trigger] rest@[r]) by {
                let orig = if r < best { r } else { r + 1 };
                assert(rest@[r] == old_rest[orig]);
                lemma_entry_order(chosen, old_rest[orig], chosen);
            }
        }
        out.push(chosen);
        proof {
            assert forall|a: int, b: int| 0 <= a < b < out@.len() implies focus_entry_before(#[trigger] out@[a], #[trigger] out@[b]) by {
                if b == old_out.len() {
                    assert(out@[a] == old_out[a]);
                }
            }
            assert forall|a: int, r: int|
                0 <= a < out@.len() && 0 <= r < rest@.len() implies focus_entry_before(#[trigger] out@[a], #[trigger] rest@[r]) by {
                let orig = if r < best { r } else { r + 1 };
                assert(rest@[r] == old_rest[orig]);
                if a < old_out.len() {
                    assert(out@[a] == old_out[a]);
                }
            }
            assert forall|g: int| 0 <= g < all.len() implies #[trigger] out@.contains(all[g]) || rest@.contains(all[g]) by {
                if old_out.contains(all[g]) {
                    let a = choose|a: int| 0 <= a < old_out.len() && old_out[a] == all[g];
                    assert(out@[a] == all[g]);
                } else {
                    let r = choose|r: int| 0 <= r < old_rest.len() && old_rest[r] == all[g];
                    if r == best {
                        assert(out@[old_out.len() as int] == all[g]);
                    } else if r < best {
                        assert(rest@[r] == all[g]);
                    } else {
                        assert(rest@[r - 1] == all[g]);
                    }
                }
            }
            assert forall|a: int| 0 <= a < out@.len() implies all.contains(#[trigger] out@[a]) by {
                if a < old_out.len() {
                    assert(out@[a] == old_out[a]);
                } else {
                    assert(out@[a] == old_rest[best as int]);
                }
            }
            assert forall|r: int| 0 <= r < rest@.len() implies all.contains(#[trigger] rest@[r]) by {
                let orig = if r < best { r } else { r + 1 };
                assert(rest@[r] == old_rest[orig]);
            }
            assert forall|a: int, b: int| 0 <= a < b < rest@.len() implies text_option((#[trigger] rest@[a]).task_title)
                    != text_option((#[trigger] rest@[b]).task_title) by {
                let oa = if a < best { a } else { a + 1 };
                let ob = if b < best { b } else { b + 1 };
                assert(rest@[a] == old_rest[oa]);
                assert(rest@[b] == old_rest[ob]);
            }
        }
    }
    assert forall|g: int| 0 <= g < all.len() implies #[trigger] out@.contains(all[g]) by {
        assert(out@.contains(all[g]) || rest@.contains(all[g]));
    }
    out
}

/// Today's focus per Task title, from Session History records ending in
/// `start..end`: totals per title, most focus first, then by title.
#[verifier::spinoff_prover]
#[verifier::rlimit(50)]
pub fn today_task_focus(history: &History, start: i64, end: i64) -> (out: Vec<TaskFocusSummary>)
    ensures
        task_focus_reports(
            out@,
            history@.map_values(|r: SessionRecord| record_model(r)),
            start,
            end,
        ),
{
    let ghost h = history@.map_values(|r: SessionRecord| record_model(r));
    let groups = group_titles(history, start, end);
    let ghost all = groups@;
    let out = order_entries(groups);
    proof {
        assert forall|i: int| 0 <= i < out@.len() implies exists|k: int|
            0 <= k < h.len() && qualifies(#[trigger] h[k], start, end) && h[k].task_title
                == text_option((#[trigger] out@[i]).task_title) by {
            assert(all.contains(out@[i]));
            let g = choose|g: int| 0 <= g < all.len() && all[g] == out@[i];
            assert(text_option(all[g].task_title) == text_option(out@[i].task_title));
        }
        assert forall|k: int| 0 <= k < h.len() && qualifies(#[trigger] h[k], start, end) implies exists|i: int|
            0 <= i < out@.len() && text_option((#[trigger] out@[i]).task_title) == h[k].task_title by {
            let g = choose|g: int| 0 <= g < all.len() && text_option((#[trigger] all[g]).task_title) == h[k].task_title;
            assert(out@.contains(all[g]));
            let a = choose|a: int| 0 <= a < out@.len() && out@[a] == all[g];
            assert(text_option(out@[a].task_title) == h[k].task_title);
        }
        assert forall|i: int| 0 <= i < out@.len() implies (#[trigger] out@[i]).focus_seconds == title_total(
            h,
            text_option(out@[i].task_title),
            start,
            end,
        ) by {
            assert(all.contains(out@[i]));
            let g = choose|g: int| 0 <= g < all.len() && all[g] == out@[i];
            assert(all[g].focus_seconds == title_total(h, text_option(all[g].task_title), start, end));
        }
    }
    out
}


impl Service {
    /// What Timer Frontends are shown of the Service: the Current Session,
    /// the Focus Cycle, durable health, reminder delivery, the Tasks with
    /// their focus time, Session History newest first, and the local days of
    /// `calendar`.
    pub fn snapshot(&self, calendar: &Calendar, delivery: ReminderDelivery) -> (s: Snapshot)
        ensures
            snapshot_reports(s, self@, delivery),
            today_reports(*s.today, self@, *calendar),
    {
        let ghost v = self@;
        let session = self.timer.current_session();
        let (state, kind, next_kind) = match session {
            CurrentSession::Pending(p) => ("pending", p.kind(), map_kind(p.kind())),
            CurrentSession::Running(r) => ("running", r.kind(), following_kind(&self.timer, r.kind())),
            CurrentSession::Paused(p) => ("paused", p.kind(), following_kind(&self.timer, p.kind())),
        };
        let current_task_id = self.timer.current_task();
        let current_task = match current_task_id {
            Some(id) => match self.tasks.get(id) {
                Ok(task) => {
                    proof {
                        let i = choose|i: int| is_first_index(v.tasks, id, i) && task@ == v.tasks[i];
                        lemma_first_index(v.tasks, id, i);
                    }
                    Some(String::from_str(task.title()))
                },
                Err(_) => None,
            },
            None => None,
        };
        let all = self.tasks.all();
        let mut tasks: Vec<TaskSummary> = Vec::new();
        let mut i: usize = 0;
        while i < all.len()
            invariant
                i <= all@.len(),
                all@.map_values(|t: crate::tasks::Task| t@) == v.tasks,
                v == self@,
                tasks@.len() == i,
                forall|k: int| 0 <= k < i ==> task_summary_reports(#[trigger] tasks@[k], v.tasks[k], v.history),
            decreases all@.len() - i,
        {
            let task = &all[i];
            let id = task.id();
            let focus = self.history.focus_seconds_for_task(id);
            proof {
                lemma_totals_of_models(self.history@, id, Seq::empty(), 0);
                assert(all@[i as int]@ == v.tasks[i as int]);
            }
            let completed = match task.status() {
                TaskStatus::Completed => true,
                TaskStatus::Open => false,
            };
            tasks.push(
                TaskSummary {
                    id: id.get(),
                    title: String::from_str(task.title()),
                    completed,
                    focus_seconds: focus,
                },
            );
            i = i + 1;
        }
        let records = self.history.records();
        let n = records.len();
        let mut recent: Vec<RecentSessionSummary> = Vec::new();
        let mut k: usize = 0;
        while k < n
            invariant
                k <= n,
                n == records@.len(),
                records@ == self.history@,
                v == self@,
                recent@.len() == k,
                forall|j: int| 0 <= j < k ==> recent_reports(#[trigger] recent@[j], v.history[n - 1 - j]),
            decreases n - k,
        {
            let r = &records[n - 1 - k];
            proof {
                assert(v.history[n - 1 - k] == record_model(records@[n - 1 - k]));
            }
            recent.push(
                RecentSessionSummary {
                    id: r.id,
                    kind: map_kind(r.kind),
                    outcome: String::from_str(outcome_str(r.outcome)),
                    actual_seconds: r.actual_seconds,
                    task_title: copy_text(&r.task_title),
                },
            );
            k = k + 1;
        }
        let summary = self.history.summarize(calendar.starts);
        proof {
            assert forall|d: int| 0 <= d < 7 implies summary.focus_seconds@[d] == day_focus(v.history, calendar.starts@, d)
                && summary.completed_rounds@[d] == day_rounds(v.history, calendar.starts@, d) by {
                lemma_totals_of_models(self.history@, TaskId::with_value(0), calendar.starts@, d);
            }
        }
        let average = summary.average_focus_seconds();
        let dates: [String; 7] = [
            calendar.dates[0].clone(),
            calendar.dates[1].clone(),
            calendar.dates[2].clone(),
            calendar.dates[3].clone(),
            calendar.dates[4].clone(),
            calendar.dates[5].clone(),
            calendar.dates[6].clone(),
        ];
        assert(dates@ =~= calendar.dates@);
        let task_focus = today_task_focus(&self.history, calendar.starts[6], calendar.starts[7]);
        let today = TodaySummary {
            focus_seconds: summary.focus_seconds[6],
            completed_rounds: summary.completed_rounds[6],
            seven_day_focus_seconds: summary.focus_seconds,
            seven_day_dates: dates,
            average_focus_seconds: average,
            task_focus,
        };
        let pending_review = match &self.pending_review {
            Some(r) => Some(
                PendingReviewSummary {
                    session_id: r.session_id,
                    actual_seconds: r.actual_seconds,
                    task_id: r.task_id,
                    task_title: copy_text(&r.task_title),
                },
            ),
            None => None,
        };
        let cycle = self.timer.focus_cycle();
        Snapshot {
            state: String::from_str(state),
            kind: map_kind(kind),
            remaining_seconds: self.timer.remaining_seconds(self.now),
            planned_seconds: self.timer.planned_seconds(),
            current_task,
            current_task_id: match current_task_id {
                Some(id) => Some(id.get()),
                None => None,
            },
            completed_rounds: cycle.completed_rounds(),
            rounds_per_cycle: cycle.rounds_per_cycle(),
            next_kind: Some(next_kind),
            durable_health: DurableHealth {
                state: self.durable_health,
                last_successful_commit: self.last_successful_commit,
                error: copy_text(&self.durable_error),
            },
            reminder_delivery: delivery,
            tasks,
            today: Box::new(today),
            recent_history: recent,
            action_chain: ActionChainSummary {
                id: self.current_chain_id,
                length: self.current_chain_length,
            },
            pending_review,
            recent_chain_links: Vec::new(),
        }
    }
}


// ---------------------------------------------------------------------------
// Answering requests.
// ---------------------------------------------------------------------------

/// The name of a Task status in a Task list.
pub open spec fn status_text(status: TaskStatus) -> Seq<char> {
    match status {
        TaskStatus::Open => "open"@,
        TaskStatus::Completed => "completed"@,
    }
}

/// What a Task list reports.
pub open spec fn task_list_reports(value: DataValue, v: ServiceState) -> bool {
    value matches DataValue::TaskList(entries) && entries@.len() == v.tasks.len() && forall|i: int|
        0 <= i < v.tasks.len() ==> {
            &&& (#[trigger] entries@[i]).id == v.tasks[i].0.value()
            &&& entries@[i].title@ == v.tasks[i].1
            &&& entries@[i].status@ == status_text(v.tasks[i].2)
        }
}

/// What a Session History listing reports.
pub open spec fn history_reports(value: DataValue, v: ServiceState) -> bool {
    value matches DataValue::History(entries) && entries@.len() == v.history.len() && forall|i: int|
        0 <= i < v.history.len() ==> {
            let r = v.history[i];
            &&& (#[trigger] entries@[i]).ended_at == r.ended_at
            &&& entries@[i].kind@ == domain_kind_text(r.kind)
            &&& entries@[i].outcome@ == outcome_text(r.outcome)
            &&& entries@[i].planned_seconds == r.planned_seconds
            &&& entries@[i].actual_seconds == r.actual_seconds
            &&& entries@[i].task_id == match r.task_id {
                Some(t) => Some(t.value()),
                None => None,
            }
            &&& text_option(entries@[i].task_title) == r.task_title
        }
}

/// What a seven-day summary reports.
pub open spec fn summary_reports(value: DataValue, v: ServiceState, calendar: Calendar) -> bool {
    value matches DataValue::Summary { focus_seconds, completed_rounds, average_focus_seconds }
        && (forall|d: int|
        0 <= d < 7 ==> focus_seconds@[d] == day_focus(v.history, calendar.starts@, d)
            && completed_rounds@[d] == day_rounds(v.history, calendar.starts@, d))
        && average_focus_seconds == seven_day_total(focus_seconds@) / 7
}

/// What a read-only data answer reports.
pub open spec fn data_reports(value: DataValue, command: Command, v: ServiceState, calendar: Calendar) -> bool {
    match command {
        Command::TaskList => task_list_reports(value, v),
        Command::History => history_reports(value, v),
        Command::Summary => summary_reports(value, v, calendar),
        _ => false,
    }
}

/// The delivery counts of a Service that keeps no durable outbox.
pub open spec fn no_deliveries() -> ReminderDelivery {
    ReminderDelivery { pending: 0, retrying: 0, delivered: 0, exhausted: 0 }
}

/// Whether a handled request carries out a decision.
pub open spec fn handled_as(
    handled: Handled,
    d: Decision,
    w: ServiceState,
    request: Request,
    calendar: Calendar,
    delivery: ReminderDelivery,
) -> bool {
    match d {
        Decision::Rejected(m) => handled matches Handled::Respond(
            Response::Error { error: ProtocolError::Rejected { message } },
        ) && message@ == m,
        Decision::InvalidTitle(rule) => handled == Handled::Respond(
            Response::Error { error: ProtocolError::InvalidTaskTitle { rule } },
        ),
        Decision::Current => handled matches Handled::Respond(Response::Snapshot { snapshot })
            && snapshot_reports(snapshot, w, delivery) && today_reports(*snapshot.today, w, calendar),
        Decision::Data => handled matches Handled::Respond(Response::Data { value }) && data_reports(
            value,
            request.command,
            w,
            calendar,
        ),
        Decision::Commit(reply) => handled == Handled::Commit { key: request.idempotency_key, reply },
    }
}

/// What came of making a commit durable.
#[derive(Debug)]
pub enum StoreOutcome {
    /// The Service keeps no durable store.
    Absent,
    /// The state was written.
    Saved,
    /// The write failed with this error.
    Failed(String),
}

/// The state after a commit's outcome: a written commit records its
/// idempotency key and time; a failed one degrades durable health.
pub open spec fn commit_spec(v: ServiceState, key: Option<String>, outcome: StoreOutcome) -> ServiceState {
    match outcome {
        StoreOutcome::Absent => v,
        StoreOutcome::Saved => ServiceState {
            applied_keys: match key {
                Some(k) => if v.applied_keys.contains(k@) {
                    v.applied_keys
                } else {
                    v.applied_keys.push(k@)
                },
                None => v.applied_keys,
            },
            last_commit: Some(v.wall),
            ..v
        },
        StoreOutcome::Failed(e) => ServiceState {
            health: DurableHealthState::Degraded,
            durable_error: Some(e@),
            ..v
        },
    }
}

impl Service {
    /// The refusal of a mutating request while durable state is unavailable.
    pub fn refusal(&self, request: &Request) -> (refused: Option<Response>)
        ensures
            match refusal_spec(self@, *request) {
                Some(m) => refused matches Some(
                    Response::Error { error: ProtocolError::DurableWriteUnavailable { message } },
                ) && message@ == m,
                None => refused is None,
            },
    {
        let degraded = match self.durable_health {
            DurableHealthState::Degraded => true,
            DurableHealthState::Healthy => false,
        };
        if degraded && request.command.mutates() {
            let message = match &self.durable_error {
                Some(e) => e.clone(),
                None => String::from_str("durable state is unavailable"),
            };
            Some(Response::Error { error: ProtocolError::DurableWriteUnavailable { message } })
        } else {
            None
        }
    }

    fn key_is_applied(&self, key: &Option<String>) -> (applied: bool)
        ensures
            applied == key_applied(self@, *key),
    {
        match key {
            None => false,
            Some(k) => {
                let mut i: usize = 0;
                while i < self.applied_keys.len()
                    invariant
                        i <= self.applied_keys@.len(),
                        *key == Some(*k),
                        forall|j: int| 0 <= j < i ==> (#[trigger] self.applied_keys@[j])@ != k@,
                    decreases self.applied_keys@.len() - i,
                {
                    if str_equal(self.applied_keys[i].as_str(), k.as_str()) {
                        assert(self@.applied_keys[i as int] == k@);
                        assert(self@.applied_keys.contains(k@));
                        return true;
                    }
                    i = i + 1;
                }
                proof {
                    if self@.applied_keys.contains(k@) {
                        let j = choose|j: int| 0 <= j < self@.applied_keys.len() && self@.applied_keys[j] == k@;
                        assert(self.applied_keys@[j]@ == k@);
                    }
                }
                false
            },
        }
    }

    fn task_list(&self) -> (value: DataValue)
        ensures
            task_list_reports(value, self@),
    {
        let all = self.tasks.all();
        let mut entries: Vec<TaskListEntry> = Vec::new();
        let mut i: usize = 0;
        while i < all.len()
            invariant
                i <= all@.len(),
                all@.map_values(|t: crate::tasks::Task| t@) == self@.tasks,
                entries@.len() == i,
                forall|k: int|
                    0 <= k < i ==> {
                        &&& (#[trigger] entries@[k]).id == self@.tasks[k].0.value()
                        &&& entries@[k].title@ == self@.tasks[k].1
                        &&& entries@[k].status@ == status_text(self@.tasks[k].2)
                    },
            decreases all@.len() - i,
        {
            let task = &all[i];
            proof {
                assert(all@[i as int]@ == self@.tasks[i as int]);
            }
            let status = match task.status() {
                TaskStatus::Open => "open",
                TaskStatus::Completed => "completed",
            };
            entries.push(
                TaskListEntry {
                    id: task.id().get(),
                    title: String::from_str(task.title()),
                    status: String::from_str(status),
                },
            );
            i = i + 1;
        }
        DataValue::TaskList(entries)
    }

    fn history_list(&self) -> (value: DataValue)
        ensures
            history_reports(value, self@),
    {
        let records = self.history.records();
        let mut entries: Vec<HistoryEntry> = Vec::new();
        let mut i: usize = 0;
        while i < records.len()
            invariant
                i <= records@.len(),
                records@ == self.history@,
                entries@.len() == i,
                forall|k: int|
                    0 <= k < i ==> {
                        let r = self@.history[k];
                        &&& (#[trigger] entries@[k]).ended_at == r.ended_at
                        &&& entries@[k].kind@ == domain_kind_text(r.kind)
                        &&& entries@[k].outcome@ == outcome_text(r.outcome)
                        &&& entries@[k].planned_seconds == r.planned_seconds
                        &&& entries@[k].actual_seconds == r.actual_seconds
                        &&& entries@[k].task_id == match r.task_id {
                            Some(t) => Some(t.value()),
                            None => None,
                        }
                        &&& text_option(entries@[k].task_title) == r.task_title
                    },
            decreases records@.len() - i,
        {
            let r = &records[i];
            proof {
                assert(self@.history[i as int] == record_model(records@[i as int]));
            }
            entries.push(
                HistoryEntry {
                    ended_at: r.ended_at,
                    kind: String::from_str(kind_str(map_kind(r.kind))),
                    outcome: String::from_str(outcome_str(r.outcome)),
                    planned_seconds: r.planned_seconds,
                    actual_seconds: r.actual_seconds,
                    task_id: match r.task_id {
                        Some(t) => Some(t.get()),
                        None => None,
                    },
                    task_title: copy_text(&r.task_title),
                },
            );
            i = i + 1;
        }
        DataValue::History(entries)
    }

    fn summary(&self, calendar: &Calendar) -> (value: DataValue)
        ensures
            summary_reports(value, self@, *calendar),
    {
        let summary = self.history.summarize(calendar.starts);
        proof {
            assert forall|d: int| 0 <= d < 7 implies summary.focus_seconds@[d] == day_focus(self@.history, calendar.starts@, d)
                && summary.completed_rounds@[d] == day_rounds(self@.history, calendar.starts@, d) by {
                lemma_totals_of_models(self.history@, TaskId::with_value(0), calendar.starts@, d);
            }
        }
        let average = summary.average_focus_seconds();
        DataValue::Summary {
            focus_seconds: summary.focus_seconds,
            completed_rounds: summary.completed_rounds,
            average_focus_seconds: average,
        }
    }

    /// Decides a request that passed [`Service::refusal`], after the clock was
    /// observed: a replayed idempotency key and a status request are answered
    /// with the snapshot, reads with data, refusals with their error, and an
    /// accepted mutation with a commit for the caller to make durable.
    #[verifier::rlimit(40)]
    pub fn handle_request(&mut self, request: Request, calendar: &Calendar, delivery: ReminderDelivery) -> (handled: Handled)
        ensures
            storable(old(self)@) ==> storable(final(self)@),
            ({
                let (w, d) = handle_spec(old(self)@, request);
                final(self)@ == w && handled_as(handled, d, w, request, *calendar, delivery)
            }),
    {
        proof {
            if storable(self@) {
                law_requests_keep_the_service_storable(self@, request);
            }
        }
        if self.key_is_applied(&request.idempotency_key) {
            return Handled::Respond(Response::Snapshot { snapshot: self.snapshot(calendar, delivery) });
        }
        let key = copy_text(&request.idempotency_key);
        let step = match &request.command {
            Command::Status => {
                return Handled::Respond(Response::Snapshot { snapshot: self.snapshot(calendar, delivery) });
            },
            Command::TaskList => {
                let value = self.task_list();
                return Handled::Respond(Response::Data { value });
            },
            Command::History => {
                let value = self.history_list();
                return Handled::Respond(Response::Data { value });
            },
            Command::Summary => {
                let value = self.summary(calendar);
                return Handled::Respond(Response::Data { value });
            },
            Command::Start { kind, task_id } => self.do_start(*kind, *task_id),
            Command::StartTitle { title } => self.do_start_title(title.as_str()),
            Command::Pause => self.do_pause(),
            Command::Resume => self.do_resume(),
            Command::Stop => self.do_stop(),
            Command::Skip => self.do_skip(),
            Command::TaskCreate { title } => self.do_create(title.as_str()),
            Command::TaskRename { id, title } => self.do_rename(*id, title.as_str()),
            Command::TaskComplete { id } => self.do_set_status(*id, TaskStatus::Completed),
            Command::TaskReopen { id } => self.do_set_status(*id, TaskStatus::Open),
            Command::TaskDelete { id } => self.do_delete(*id),
            Command::TaskSelect { id, stop_current } => self.do_select(*id, *stop_current),
            Command::HistoryDelete { ids } => self.do_history_delete(ids),
            _ => Err(rejected(String::from_str("command is not supported by this Timer Service"))),
        };
        match step {
            Ok(reply) => Handled::Commit { key, reply },
            Err(response) => Handled::Respond(response),
        }
    }

    /// Records the outcome of making the state durable.
    pub fn state_saved(&mut self, key: Option<String>, outcome: StoreOutcome) -> (result: Result<(), String>)
        ensures
            storable(old(self)@) ==> storable(final(self)@),
            final(self)@ == commit_spec(old(self)@, key, outcome),
            match outcome {
                StoreOutcome::Failed(e) => result == Err::<(), String>(e),
                _ => result is Ok,
            },
    {
        proof {
            if storable(self@) {
                law_commit_keeps_the_service_storable(self@, key, outcome);
            }
        }
        match outcome {
            StoreOutcome::Absent => Ok(()),
            StoreOutcome::Saved => {
                match key {
                    Some(k) => {
                        let known = self.key_is_applied(&Some(k.clone()));
                        if !known {
                            self.applied_keys.push(k);
                            assert(self@.applied_keys =~= old(self)@.applied_keys.push(k@));
                        }
                    },
                    None => {},
                }
                self.last_successful_commit = Some(self.wall);
                Ok(())
            },
            StoreOutcome::Failed(error) => {
                self.durable_health = DurableHealthState::Degraded;
                self.durable_error = Some(error.clone());
                Err(error)
            },
        }
    }

    /// Answers a committed request once its outcome is known: the reply when
    /// the state was written (or no store is kept), and the durable-write
    /// error, with durable health degraded, when the write failed.
    pub fn finish(
        &mut self,
        key: Option<String>,
        reply: Reply,
        outcome: StoreOutcome,
        calendar: &Calendar,
        delivery: ReminderDelivery,
    ) -> (response: Response)
        ensures
            final(self)@ == commit_spec(old(self)@, key, outcome),
            match outcome {
                StoreOutcome::Failed(e) => response == (Response::Error {
                    error: ProtocolError::DurableWriteUnavailable { message: e },
                }),
                _ => match reply {
                    Reply::Snapshot => response matches Response::Snapshot { snapshot }
                        && snapshot_reports(snapshot, final(self)@, delivery) && today_reports(
                        *snapshot.today,
                        final(self)@,
                        *calendar,
                    ),
                    Reply::CreatedTask(id) => response == (Response::Data {
                        value: DataValue::CreatedTask { id },
                    }),
                },
            },
    {
        match self.state_saved(key, outcome) {
            Ok(()) => match reply {
                Reply::Snapshot => Response::Snapshot { snapshot: self.snapshot(calendar, delivery) },
                Reply::CreatedTask(id) => Response::Data { value: DataValue::CreatedTask { id } },
            },
            Err(message) => Response::Error {
                error: ProtocolError::DurableWriteUnavailable { message },
            },
        }
    }

    /// Handles a request for a Service that keeps no durable store: refused
    /// mutations while degraded, otherwise decided and answered at once.
    pub fn handle(&mut self, request: Request, calendar: &Calendar) -> (response: Response)
        ensures
            storable(old(self)@) ==> storable(final(self)@),
            refusal_spec(old(self)@, request) is Some ==> final(self)@ == old(self)@,
            refusal_spec(old(self)@, request) is None ==> final(self)@ == handle_spec(old(self)@, request).0,
            refusal_spec(old(self)@, request) matches Some(m) ==> (response matches Response::Error {
                error: ProtocolError::DurableWriteUnavailable { message },
            } && message@ == m),
            refusal_spec(old(self)@, request) is None ==> match handle_spec(old(self)@, request).1 {
                Decision::Rejected(m) => response matches Response::Error {
                    error: ProtocolError::Rejected { message },
                } && message@ == m,
                Decision::InvalidTitle(rule) => response == (Response::Error {
                    error: ProtocolError::InvalidTaskTitle { rule },
                }),
                Decision::Current => response matches Response::Snapshot { snapshot }
                    && snapshot_reports(snapshot, final(self)@, no_deliveries()) && today_reports(
                    *snapshot.today,
                    final(self)@,
                    *calendar,
                ),
                Decision::Data => response matches Response::Data { value } && data_reports(
                    value,
                    request.command,
                    final(self)@,
                    *calendar,
                ),
                Decision::Commit(Reply::Snapshot) => response matches Response::Snapshot { snapshot }
                    && snapshot_reports(snapshot, final(self)@, no_deliveries()) && today_reports(
                    *snapshot.today,
                    final(self)@,
                    *calendar,
                ),
                Decision::Commit(Reply::CreatedTask(id)) => response == (Response::Data {
                    value: DataValue::CreatedTask { id },
                }),
            },
    {
        proof {
            if storable(self@) {
                law_requests_keep_the_service_storable(self@, request);
            }
        }
        match self.refusal(&request) {
            Some(response) => response,
            None => {
                let delivery = ReminderDelivery { pending: 0, retrying: 0, delivered: 0, exhausted: 0 };
                match self.handle_request(request, calendar, delivery) {
                    Handled::Respond(response) => response,
                    Handled::Commit { key, reply } => self.finish(
                        key,
                        reply,
                        StoreOutcome::Absent,
                        calendar,
                        delivery,
                    ),
                }
            },
        }
    }
}


// ---------------------------------------------------------------------------
// Observing the clock, completions and reminders.
// ---------------------------------------------------------------------------

/// What observing the clock asks the caller to do next.
#[derive(Debug, PartialEq, Eq)]
pub enum Observed {
    /// Nothing changed that must be made durable.
    Unchanged,
    /// The state changed; commit it without an idempotency key.
    Persist,
    /// A Session was completed: commit it together with its reminder
    /// effects, stored under `reminder_key`.
    Completion { reminder_key: String, effects: Vec<ReminderEffectKind> },
}

/// The reminder effects that a completion stores.
pub open spec fn effects_spec(v: ServiceState) -> Seq<ReminderEffectKind> {
    if !v.reminders_enabled {
        Seq::empty()
    } else if v.sound_enabled {
        seq![ReminderEffectKind::Notification, ReminderEffectKind::Sound]
    } else {
        seq![ReminderEffectKind::Notification]
    }
}

/// Whether one of the events completes a Session.
pub open spec fn has_completion(events: Seq<DomainEvent>) -> bool {
    exists|i: int| 0 <= i < events.len() && is_completion(#[trigger] events[i])
}

/// What observing the clock at `now` asks the caller to commit: a completion
/// with its reminder key and effects, other ended Sessions, or nothing.
pub open spec fn observed_as(observed: Observed, v: ServiceState, now: u64) -> bool {
    match advance_spec(v.timer, now) {
        Err(_) => observed is Unchanged,
        Ok((_, events)) => if has_completion(events) {
            observed matches Observed::Completion { reminder_key, effects } && reminder_key@
                == "session-event-"@ + decimal(v.next_event_id as nat) && effects@ == effects_spec(v)
        } else if events.len() > 0 {
            observed is Persist
        } else {
            observed is Unchanged
        },
    }
}

/// The state after observing the clock: the Running Session completes at its
/// deadline and is recorded.
pub open spec fn observation_spec(v: ServiceState, now: u64, wall: i64) -> ServiceState {
    let v1 = ServiceState { now, wall, ..v };
    match advance_spec(v.timer, now) {
        Err(_) => v1,
        Ok((t, events)) => record_events(ServiceState { timer: t, ..v1 }, events, planned_spec(v.timer)),
    }
}

/// What came of committing a completion with its reminder effects.
#[derive(Debug)]
pub enum CompletionOutcome {
    /// The Service keeps no durable store.
    Absent,
    /// The completion was written; `claimed` tells whether this write
    /// claimed its reminder, rather than finding it already stored.
    Saved { claimed: bool },
    /// The write failed with this error.
    Failed(String),
}

/// How the reminder of a committed completion is delivered.
#[derive(Clone, Copy, Debug, PartialEq, Eq, Structural)]
pub enum Dispatch {
    /// No reminder is delivered now.
    Nothing,
    /// Deliver the completion's effects at once; no outbox is kept.
    Immediate,
    /// Deliver the effects that the durable outbox has due.
    Pending,
}

/// The state and the delivery after a completion's commit outcome.
pub open spec fn completion_spec(v: ServiceState, outcome: CompletionOutcome) -> (ServiceState, Dispatch) {
    match outcome {
        CompletionOutcome::Absent => (
            v,
            if v.reminders_enabled {
                Dispatch::Immediate
            } else {
                Dispatch::Nothing
            },
        ),
        CompletionOutcome::Saved { claimed } => (
            ServiceState { last_commit: Some(v.wall), ..v },
            if claimed && v.reminders_enabled {
                Dispatch::Pending
            } else {
                Dispatch::Nothing
            },
        ),
        CompletionOutcome::Failed(e) => (
            ServiceState { health: DurableHealthState::Degraded, durable_error: Some(e@), ..v },
            Dispatch::Nothing,
        ),
    }
}

impl Service {
    /// The reminder effects that a completion stores: a notification, and a
    /// sound when one is configured, or none while reminders are off.
    pub fn enabled_reminder_effects(&self) -> (effects: Vec<ReminderEffectKind>)
        ensures
            effects@ == effects_spec(self@),
    {
        let mut effects: Vec<ReminderEffectKind> = Vec::new();
        if !self.reminders_enabled {
            return effects;
        }
        effects.push(ReminderEffectKind::Notification);
        if self.sound_enabled {
            effects.push(ReminderEffectKind::Sound);
        }
        assert(effects@ =~= effects_spec(self@));
        effects
    }

    /// Observes the clock at `now` (suspend-aware seconds) and `wall` (Unix
    /// seconds): a Running Session that reached its deadline completes and is
    /// recorded, and the caller learns what to commit.
    pub fn apply_observation(&mut self, now: u64, wall: i64) -> (observed: Observed)
        ensures
            storable(old(self)@) ==> storable(final(self)@),
            final(self)@ == observation_spec(old(self)@, now, wall),
            observed_as(observed, old(self)@, now),
    {
        proof {
            if storable(self@) {
                law_observation_keeps_the_service_storable(self@, now, wall);
            }
        }
        self.now = now;
        self.wall = wall;
        let planned = self.timer.planned_seconds();
        let result = self.timer.advance(now);
        match result {
            Err(_) => Observed::Unchanged,
            Ok(transition) => {
                let events = transition.events();
                let changed = events.len() > 0;
                let mut completed = false;
                let mut i: usize = 0;
                while i < events.len()
                    invariant
                        i <= events@.len(),
                        completed == exists|j: int| 0 <= j < i && is_completion(#[trigger] events@[j]),
                    decreases events@.len() - i,
                {
                    let DomainEvent::SessionEnded { outcome, .. } = events[i];
                    match outcome {
                        SessionOutcome::Completed => {
                            completed = true;
                        },
                        _ => {},
                    }
                    i = i + 1;
                }
                let digits = decimal_string(self.next_event_id);
                let reminder_key = concat("session-event-", digits.as_str());
                let effects = self.enabled_reminder_effects();
                self.record(&transition, planned);
                if completed {
                    Observed::Completion { reminder_key, effects }
                } else if changed {
                    Observed::Persist
                } else {
                    Observed::Unchanged
                }
            },
        }
    }

    /// Records the outcome of committing a completion, and tells how its
    /// reminder is delivered.
    pub fn completion_saved(&mut self, outcome: CompletionOutcome) -> (dispatch: Dispatch)
        ensures
            storable(old(self)@) ==> storable(final(self)@),
            (final(self)@, dispatch) == completion_spec(old(self)@, outcome),
    {
        match outcome {
            CompletionOutcome::Absent => if self.reminders_enabled {
                Dispatch::Immediate
            } else {
                Dispatch::Nothing
            },
            CompletionOutcome::Saved { claimed } => {
                self.last_successful_commit = Some(self.wall);
                if claimed && self.reminders_enabled {
                    Dispatch::Pending
                } else {
                    Dispatch::Nothing
                }
            },
            CompletionOutcome::Failed(error) => {
                self.durable_health = DurableHealthState::Degraded;
                self.durable_error = Some(error);
                Dispatch::Nothing
            },
        }
    }

    /// Whether durable reminder delivery must wait: it does while durable
    /// state is unavailable.
    pub fn reminders_blocked(&self) -> (blocked: bool)
        ensures
            blocked == (self@.health == DurableHealthState::Degraded),
    {
        match self.durable_health {
            DurableHealthState::Degraded => true,
            DurableHealthState::Healthy => false,
        }
    }

    /// What to store after delivering `effect` failed with `error`: the retry
    /// plan at the Service's wall-clock time, and the stored error text.
    pub fn reminder_failure(&self, effect: &PendingReminderEffect, error: &str) -> (failure: (RetryPlan, String))
        ensures
            failure.0 == retry_plan_spec(effect.id, effect.attempt_count, effect.created_at, self@.wall),
            failure.1@ == if error@.len() > MAX_REMINDER_ERROR_CHARS {
                error@.subrange(0, MAX_REMINDER_ERROR_CHARS as int)
            } else {
                error@
            },
    {
        (retry_plan(effect, self.wall), stored_error(error))
    }

    /// Records whether storing a delivery result succeeded; delivery goes on
    /// only if it did.
    pub fn reminder_recorded(&mut self, outcome: Result<(), String>) -> (go_on: bool)
        ensures
            storable(old(self)@) ==> storable(final(self)@),
            go_on == outcome is Ok,
            outcome is Ok ==> final(self)@ == (ServiceState { last_commit: Some(old(self)@.wall), ..old(self)@ }),
            outcome matches Err(e) ==> final(self)@ == (ServiceState {
                health: DurableHealthState::Degraded,
                durable_error: Some(e@),
                ..old(self)@
            }),
    {
        match outcome {
            Ok(()) => {
                self.last_successful_commit = Some(self.wall);
                true
            },
            Err(error) => {
                self.mark_durable_failure(error);
                false
            },
        }
    }

    /// Marks durable state as unavailable because of `error`.
    pub fn mark_durable_failure(&mut self, error: String)
        ensures
            storable(old(self)@) ==> storable(final(self)@),
            final(self)@ == (ServiceState {
                health: DurableHealthState::Degraded,
                durable_error: Some(error@),
                ..old(self)@
            }),
    {
        self.durable_health = DurableHealthState::Degraded;
        self.durable_error = Some(error);
    }

    /// Applies new lengths for Sessions that have not started yet; the
    /// caller commits the state.
    pub fn configure_durations(&mut self, durations: SessionDurations)
        ensures
            final(self)@ == (ServiceState {
                timer: TimerState { durations, ..old(self)@.timer },
                ..old(self)@
            }),
            storable(old(self)@) ==> storable(final(self)@),
    {
        self.timer.set_durations(durations);
    }

    /// Applies a new Focus Cycle length; the caller commits the state.
    pub fn configure_cycle(&mut self, rounds: u8) -> (result: Result<(), String>)
        ensures
            storable(old(self)@) ==> storable(final(self)@),
            match crate::domain::set_rounds_spec(old(self)@.timer, rounds) {
                Ok(t) => result is Ok && final(self)@ == (ServiceState { timer: t, ..old(self)@ }),
                Err(e) => (result matches Err(m) && m@ == domain_error_text(e)) && final(self)@ == old(self)@,
            },
    {
        proof {
            if storable(self@) {
                law_cycle_change_keeps_the_service_storable(self@, rounds);
            }
        }
        match self.timer.set_rounds_per_cycle(rounds) {
            Ok(()) => Ok(()),
            Err(e) => Err(String::from_str(e.message())),
        }
    }

    /// Turns reminders on or off, and says whether a sound is configured.
    pub fn configure_reminder(&mut self, enabled: bool, sound: bool)
        ensures
            storable(old(self)@) ==> storable(final(self)@),
            final(self)@ == (ServiceState { reminders_enabled: enabled, sound_enabled: sound, ..old(self)@ }),
    {
        self.reminders_enabled = enabled;
        self.sound_enabled = sound;
    }

    /// Adds a Session History record directly, as an import does.
    pub fn record_history(&mut self, record: SessionRecord)
        ensures
            storable(old(self)@) && record.id > 0 ==> storable(final(self)@),
            final(self)@ == (ServiceState { history: old(self)@.history.push(record_model(record)), ..old(self)@ }),
    {
        self.history.push(record);
        assert(self@.history =~= old(self)@.history.push(record_model(record)));
    }

    /// Creates a Task directly, without a request.
    pub fn create_task(&mut self, title: &str) -> (result: Result<TaskId, TaskError>)
        ensures
            storable(old(self)@) ==> storable(final(self)@),
            ({
                let (w, d) = create_decision(old(self)@, title@);
                final(self)@ == w && match d {
                    Decision::Commit(Reply::CreatedTask(id)) => result matches Ok(t) && t.value() == id,
                    _ => result is Err,
                }
            }),
    {
        proof {
            if storable(self@) {
                lemma_create_storable(self@, title@);
            }
        }
        let result = self.tasks.create(title);
        proof {
            TaskId::lemma_with_value(old(self)@.next_task_id);
            if result is Ok {
                TaskId::lemma_value_injective(result->Ok_0, TaskId::with_value(old(self)@.next_task_id));
            }
        }
        result
    }

    pub fn timer(&self) -> (timer: &Timer)
        ensures
            timer@ == self@.timer,
    {
        &self.timer
    }

    pub fn tasks(&self) -> (tasks: &TaskStore)
        ensures
            tasks@ == self@.tasks,
    {
        &self.tasks
    }

    pub fn history(&self) -> (history: &History)
        ensures
            history@.map_values(|r: SessionRecord| record_model(r)) == self@.history,
    {
        &self.history
    }

    pub fn now(&self) -> (now: u64)
        ensures
            now == self@.now,
    {
        self.now
    }

    pub fn wall(&self) -> (wall: i64)
        ensures
            wall == self@.wall,
    {
        self.wall
    }

    pub fn durable_health(&self) -> (health: DurableHealthState)
        ensures
            health == self@.health,
    {
        self.durable_health
    }
}


// ---------------------------------------------------------------------------
// Durable state.
// ---------------------------------------------------------------------------

/// The stored form of the Current Session.
#[derive(Clone, Debug, PartialEq, Eq)]
pub enum PersistedSession {
    Pending { kind: String },
    Running {
        kind: String,
        planned_seconds: u64,
        accumulated_seconds: u64,
        started_at: u64,
        task_id: Option<u64>,
    },
    Paused { kind: String, planned_seconds: u64, elapsed_seconds: u64, task_id: Option<u64> },
}

/// The stored form of the Timer.
#[derive(Clone, Debug, PartialEq, Eq)]
pub struct PersistedTimer {
    pub session: PersistedSession,
    pub current_task: Option<u64>,
    pub completed_rounds: u8,
    pub rounds_per_cycle: u8,
    pub focus_seconds: u64,
    pub short_break_seconds: u64,
    pub long_break_seconds: u64,
}

/// The stored form of a Task.
#[derive(Clone, Debug, PartialEq, Eq)]
pub struct PersistedTask {
    pub id: u64,
    pub title: String,
    pub status: String,
}

/// The stored form of a Session History record.
#[derive(Clone, Debug, PartialEq, Eq)]
pub struct PersistedRecord {
    pub id: u64,
    pub ended_at: i64,
    pub kind: String,
    pub outcome: String,
    pub planned_seconds: u64,
    pub actual_seconds: u64,
    pub task_id: Option<u64>,
    pub task_title: Option<String>,
}

/// Everything the Service stores, with the observation it was stored at.
#[derive(Clone, Debug, PartialEq, Eq)]
pub struct PersistedState {
    pub timer: PersistedTimer,
    pub tasks: Vec<PersistedTask>,
    pub next_task_id: u64,
    pub history: Vec<PersistedRecord>,
    pub next_event_id: u64,
    pub boot_id: String,
    pub observed_monotonic: u64,
    pub observed_wall: i64,
    pub current_chain_id: u64,
    pub current_chain_length: u64,
    pub pending_review: Option<PendingReview>,
}

/// The stored form of the Current Session, observed at `now`: a Running
/// Session's elapsed time is folded into what it accumulated.
pub open spec fn session_stored(session: PersistedSession, state: SessionState, now: u64) -> bool {
    match state {
        SessionState::Pending { kind } => session matches PersistedSession::Pending { kind: k }
            && k@ == domain_kind_name_spec(kind),
        SessionState::Running { kind, planned_seconds, accumulated_seconds, started_at, task_id } => {
            session matches PersistedSession::Running {
                kind: k,
                planned_seconds: p,
                accumulated_seconds: a,
                started_at: s,
                task_id: t,
            } && k@ == domain_kind_name_spec(kind) && p == planned_seconds && a == saturating_add_u64(
                accumulated_seconds,
                crate::domain::saturating_sub_u64(now, started_at),
            ) && s == now && t == match task_id {
                Some(id) => Some(id.value()),
                None => None,
            }
        },
        SessionState::Paused { kind, planned_seconds, elapsed_seconds, task_id } => {
            session matches PersistedSession::Paused {
                kind: k,
                planned_seconds: p,
                elapsed_seconds: e,
                task_id: t,
            } && k@ == domain_kind_name_spec(kind) && p == planned_seconds && e == elapsed_seconds
                && t == match task_id {
                Some(id) => Some(id.value()),
                None => None,
            }
        },
    }
}

/// The stored form of a Session History record.
pub open spec fn record_stored(p: PersistedRecord, r: RecordModel) -> bool {
    &&& p.id == r.id
    &&& p.ended_at == r.ended_at
    &&& p.kind@ == domain_kind_name_spec(r.kind)
    &&& p.outcome@ == outcome_name_spec(r.outcome)
    &&& p.planned_seconds == r.planned_seconds
    &&& p.actual_seconds == r.actual_seconds
    &&& p.task_id == match r.task_id {
        Some(t) => Some(t.value()),
        None => None,
    }
    &&& text_option(p.task_title) == r.task_title
}

/// Whether `p` is the stored form of the state `v` in the boot `boot_id`.
pub open spec fn state_stored(p: PersistedState, v: ServiceState, boot_id: Seq<char>) -> bool {
    &&& session_stored(p.timer.session, v.timer.session, v.now)
    &&& p.timer.current_task == match v.timer.current_task {
        Some(t) => Some(t.value()),
        None => None,
    }
    &&& p.timer.completed_rounds == v.timer.completed_rounds
    &&& p.timer.rounds_per_cycle == v.timer.rounds_per_cycle
    &&& p.timer.focus_seconds == v.timer.durations.spec_focus()
    &&& p.timer.short_break_seconds == v.timer.durations.spec_short_break()
    &&& p.timer.long_break_seconds == v.timer.durations.spec_long_break()
    &&& p.tasks@.len() == v.tasks.len()
    &&& forall|i: int|
        0 <= i < v.tasks.len() ==> {
            &&& (#[trigger] p.tasks@[i]).id == v.tasks[i].0.value()
            &&& p.tasks@[i].title@ == v.tasks[i].1
            &&& p.tasks@[i].status@ == status_text(v.tasks[i].2)
        }
    &&& p.next_task_id == v.next_task_id
    &&& p.history@.len() == v.history.len()
    &&& forall|i: int| 0 <= i < v.history.len() ==> record_stored(#[trigger] p.history@[i], v.history[i])
    &&& p.next_event_id == v.next_event_id
    &&& p.boot_id@ == boot_id
    &&& p.observed_monotonic == v.now
    &&& p.observed_wall == v.wall
    &&& p.current_chain_id == v.chain_id
    &&& p.current_chain_length == v.chain_length
    &&& match p.pending_review {
        Some(r) => v.review == Some(review_model(r)),
        None => v.review is None,
    }
}

fn copy_review(r: &Option<PendingReview>) -> (copy: Option<PendingReview>)
    ensures
        copy == *r,
{
    match r {
        Some(review) => Some(
            PendingReview {
                session_id: review.session_id,
                actual_seconds: review.actual_seconds,
                task_id: review.task_id,
                task_title: copy_text(&review.task_title),
            },
        ),
        None => None,
    }
}

impl Service {
    /// The stored form of the Service, observed in the boot `boot_id`.
    pub fn persisted_state(&self, boot_id: String) -> (p: PersistedState)
        ensures
            state_stored(p, self@, boot_id@),
    {
        let state = self.timer.state();
        let now = self.now;
        let session = match state.session {
            SessionState::Pending { kind } => PersistedSession::Pending {
                kind: String::from_str(domain_kind_name(kind)),
            },
            SessionState::Running { kind, planned_seconds, accumulated_seconds, started_at, task_id } => {
                let elapsed = if now < started_at {
                    0
                } else {
                    now - started_at
                };
                let accumulated = if accumulated_seconds > u64::MAX - elapsed {
                    u64::MAX
                } else {
                    accumulated_seconds + elapsed
                };
                PersistedSession::Running {
                    kind: String::from_str(domain_kind_name(kind)),
                    planned_seconds,
                    accumulated_seconds: accumulated,
                    started_at: now,
                    task_id: match task_id {
                        Some(t) => Some(t.get()),
                        None => None,
                    },
                }
            },
            SessionState::Paused { kind, planned_seconds, elapsed_seconds, task_id } => PersistedSession::Paused {
                kind: String::from_str(domain_kind_name(kind)),
                planned_seconds,
                elapsed_seconds,
                task_id: match task_id {
                    Some(t) => Some(t.get()),
                    None => None,
                },
            },
        };
        let all = self.tasks.all();
        let mut tasks: Vec<PersistedTask> = Vec::new();
        let mut i: usize = 0;
        while i < all.len()
            invariant
                i <= all@.len(),
                all@.map_values(|t: crate::tasks::Task| t@) == self@.tasks,
                tasks@.len() == i,
                forall|k: int|
                    0 <= k < i ==> {
                        &&& (#[trigger] tasks@[k]).id == self@.tasks[k].0.value()
                        &&& tasks@[k].title@ == self@.tasks[k].1
                        &&& tasks@[k].status@ == status_text(self@.tasks[k].2)
                    },
            decreases all@.len() - i,
        {
            let task = &all[i];
            proof {
                assert(all@[i as int]@ == self@.tasks[i as int]);
            }
            let status = match task.status() {
                TaskStatus::Open => "open",
                TaskStatus::Completed => "completed",
            };
            tasks.push(
                PersistedTask {
                    id: task.id().get(),
                    title: String::from_str(task.title()),
                    status: String::from_str(status),
                },
            );
            i = i + 1;
        }
        let records = self.history.records();
        let mut history: Vec<PersistedRecord> = Vec::new();
        let mut k: usize = 0;
        while k < records.len()
            invariant
                k <= records@.len(),
                records@ == self.history@,
                history@.len() == k,
                forall|j: int| 0 <= j < k ==> record_stored(#[trigger] history@[j], self@.history[j]),
            decreases records@.len() - k,
        {
            let r = &records[k];
            proof {
                assert(self@.history[k as int] == record_model(records@[k as int]));
            }
            history.push(
                PersistedRecord {
                    id: r.id,
                    ended_at: r.ended_at,
                    kind: String::from_str(domain_kind_name(r.kind)),
                    outcome: String::from_str(outcome_name(r.outcome)),
                    planned_seconds: r.planned_seconds,
                    actual_seconds: r.actual_seconds,
                    task_id: match r.task_id {
                        Some(t) => Some(t.get()),
                        None => None,
                    },
                    task_title: copy_text(&r.task_title),
                },
            );
            k = k + 1;
        }
        PersistedState {
            timer: PersistedTimer {
                session,
                current_task: match state.current_task {
                    Some(t) => Some(t.get()),
                    None => None,
                },
                completed_rounds: state.completed_rounds,
                rounds_per_cycle: state.rounds_per_cycle,
                focus_seconds: state.durations.focus(),
                short_break_seconds: state.durations.short_break(),
                long_break_seconds: state.durations.long_break(),
            },
            tasks,
            next_task_id: self.tasks.next_id(),
            history,
            next_event_id: self.next_event_id,
            boot_id,
            observed_monotonic: self.now,
            observed_wall: self.wall,
            current_chain_id: self.current_chain_id,
            current_chain_length: self.current_chain_length,
            pending_review: copy_review(&self.pending_review),
        }
    }
}


/// The domain kind stored under `name`, if any.
pub open spec fn parse_kind_spec(name: Seq<char>) -> Option<DomainKind> {
    if name == "focus"@ {
        Some(DomainKind::Focus)
    } else if name == "short_break"@ {
        Some(DomainKind::ShortBreak)
    } else if name == "long_break"@ {
        Some(DomainKind::LongBreak)
    } else {
        None
    }
}

/// The outcome stored under `name`, if any.
pub open spec fn parse_outcome_spec(name: Seq<char>) -> Option<SessionOutcome> {
    if name == "completed"@ {
        Some(SessionOutcome::Completed)
    } else if name == "stopped"@ {
        Some(SessionOutcome::Stopped)
    } else if name == "skipped"@ {
        Some(SessionOutcome::Skipped)
    } else {
        None
    }
}

/// The Task status stored under `name`, if any.
pub open spec fn parse_status_spec(name: Seq<char>) -> Option<TaskStatus> {
    if name == "open"@ {
        Some(TaskStatus::Open)
    } else if name == "completed"@ {
        Some(TaskStatus::Completed)
    } else {
        None
    }
}

/// Reads a stored domain Session kind.
pub fn parse_kind(value: &str) -> (kind: Result<DomainKind, String>)
    ensures
        match parse_kind_spec(value@) {
            Some(k) => kind == Ok::<DomainKind, String>(k),
            None => kind matches Err(m) && m@ == "invalid Session kind: "@ + value@,
        },
{
    if str_equal(value, "focus") {
        Ok(DomainKind::Focus)
    } else if str_equal(value, "short_break") {
        Ok(DomainKind::ShortBreak)
    } else if str_equal(value, "long_break") {
        Ok(DomainKind::LongBreak)
    } else {
        Err(concat("invalid Session kind: ", value))
    }
}

/// Reads a stored Session outcome.
pub fn parse_outcome(value: &str) -> (outcome: Result<SessionOutcome, String>)
    ensures
        match parse_outcome_spec(value@) {
            Some(o) => outcome == Ok::<SessionOutcome, String>(o),
            None => outcome matches Err(m) && m@ == "invalid Session outcome: "@ + value@,
        },
{
    if str_equal(value, "completed") {
        Ok(SessionOutcome::Completed)
    } else if str_equal(value, "stopped") {
        Ok(SessionOutcome::Stopped)
    } else if str_equal(value, "skipped") {
        Ok(SessionOutcome::Skipped)
    } else {
        Err(concat("invalid Session outcome: ", value))
    }
}

fn parse_status(value: &str) -> (status: Result<TaskStatus, String>)
    ensures
        match parse_status_spec(value@) {
            Some(s) => status == Ok::<TaskStatus, String>(s),
            None => status matches Err(m) && m@ == "invalid Task status: "@ + value@,
        },
{
    if str_equal(value, "open") {
        Ok(TaskStatus::Open)
    } else if str_equal(value, "completed") {
        Ok(TaskStatus::Completed)
    } else {
        Err(concat("invalid Task status: ", value))
    }
}

/// The kind name of a stored session.
pub open spec fn stored_kind(session: PersistedSession) -> Seq<char> {
    match session {
        PersistedSession::Pending { kind } => kind@,
        PersistedSession::Running { kind, .. } => kind@,
        PersistedSession::Paused { kind, .. } => kind@,
    }
}

/// What is wrong with a stored Timer's cycle and session, if anything.
pub open spec fn timer_check(t: PersistedTimer) -> Option<DomainError> {
    if t.rounds_per_cycle == 0 || t.completed_rounds > t.rounds_per_cycle {
        Some(DomainError::InvalidCycleLength)
    } else {
        match t.session {
            PersistedSession::Running { planned_seconds, .. } => if planned_seconds == 0 {
                Some(DomainError::InvalidDuration)
            } else {
                None
            },
            PersistedSession::Paused { planned_seconds, elapsed_seconds, .. } => if planned_seconds
                == 0 || elapsed_seconds >= planned_seconds {
                Some(DomainError::InvalidDuration)
            } else {
                None
            },
            _ => None,
        }
    }
}

/// The first stored Task, from `i` on, whose status cannot be read.
pub open spec fn first_bad_status(tasks: Seq<PersistedTask>, i: int) -> Option<Seq<char>>
    decreases tasks.len() - i,
{
    if i < 0 || i >= tasks.len() {
        None
    } else if parse_status_spec(tasks[i].status@) is None {
        Some("invalid Task status: "@ + tasks[i].status@)
    } else {
        first_bad_status(tasks, i + 1)
    }
}

/// The first stored Task, from `i` on, whose title breaks a rule.
pub open spec fn first_bad_title(tasks: Seq<PersistedTask>, i: int) -> Option<TaskError>
    decreases tasks.len() - i,
{
    if i < 0 || i >= tasks.len() {
        None
    } else if title_violation(tasks[i].title@) is Some {
        title_violation(tasks[i].title@)
    } else {
        first_bad_title(tasks, i + 1)
    }
}

/// The first stored record, from `i` on, whose kind or outcome cannot be read.
pub open spec fn first_bad_record(history: Seq<PersistedRecord>, i: int) -> Option<Seq<char>>
    decreases history.len() - i,
{
    if i < 0 || i >= history.len() {
        None
    } else if parse_kind_spec(history[i].kind@) is None {
        Some("invalid Session kind: "@ + history[i].kind@)
    } else if parse_outcome_spec(history[i].outcome@) is None {
        Some("invalid Session outcome: "@ + history[i].outcome@)
    } else {
        first_bad_record(history, i + 1)
    }
}

/// Why a stored state cannot be restored, if it cannot.
pub open spec fn restore_error(p: PersistedState) -> Option<Seq<char>> {
    if p.timer.focus_seconds == 0 || p.timer.short_break_seconds == 0 || p.timer.long_break_seconds == 0 {
        Some(domain_error_text(DomainError::InvalidDuration))
    } else if parse_kind_spec(stored_kind(p.timer.session)) is None {
        Some("invalid Session kind: "@ + stored_kind(p.timer.session))
    } else if timer_check(p.timer) is Some {
        Some(domain_error_text(timer_check(p.timer)->Some_0))
    } else if first_bad_status(p.tasks@, 0) is Some {
        first_bad_status(p.tasks@, 0)
    } else if p.next_task_id == 0 {
        Some(task_error_text(TaskError::IdExhausted))
    } else if first_bad_title(p.tasks@, 0) is Some {
        Some(task_error_text(first_bad_title(p.tasks@, 0)->Some_0))
    } else {
        first_bad_record(p.history@, 0)
    }
}

/// The restored identity of the stored record at position `i`: records
/// stored without one are numbered by position from one.
pub open spec fn restored_record_id(stored: u64, i: int) -> u64 {
    if stored == 0 {
        if i + 1 > u64::MAX {
            u64::MAX
        } else {
            (i + 1) as u64
        }
    } else {
        stored
    }
}

/// The restored Session: a Running Session's accumulated time grows by the
/// recovered seconds and it restarts at the current observation.
pub open spec fn session_restored(state: SessionState, stored: PersistedSession, recovered: u64, now: u64) -> bool {
    match stored {
        PersistedSession::Pending { kind } => state == SessionState::Pending {
            kind: parse_kind_spec(kind@)->Some_0,
        },
        PersistedSession::Running { kind, planned_seconds, accumulated_seconds, task_id, .. } => state
            == SessionState::Running {
            kind: parse_kind_spec(kind@)->Some_0,
            planned_seconds,
            accumulated_seconds: saturating_add_u64(accumulated_seconds, recovered),
            started_at: now,
            task_id: task_id_option(task_id),
        },
        PersistedSession::Paused { kind, planned_seconds, elapsed_seconds, task_id } => state
            == SessionState::Paused {
            kind: parse_kind_spec(kind@)->Some_0,
            planned_seconds,
            elapsed_seconds,
            task_id: task_id_option(task_id),
        },
    }
}

/// Whether `v` is the state restored from `p` at the observation `current`.
pub open spec fn state_restored(v: ServiceState, p: PersistedState, current: RecoveryObservation) -> bool {
    let recovered = recovery_spec(
        p.boot_id@,
        p.observed_monotonic,
        p.observed_wall,
        current.boot_id@,
        current.monotonic_seconds,
        current.wall_seconds,
    ).seconds;
    &&& session_restored(v.timer.session, p.timer.session, recovered, current.monotonic_seconds)
    &&& v.timer.current_task == task_id_option(p.timer.current_task)
    &&& v.timer.completed_rounds == p.timer.completed_rounds
    &&& v.timer.rounds_per_cycle == p.timer.rounds_per_cycle
    &&& v.timer.durations.spec_focus() == p.timer.focus_seconds
    &&& v.timer.durations.spec_short_break() == p.timer.short_break_seconds
    &&& v.timer.durations.spec_long_break() == p.timer.long_break_seconds
    &&& v.tasks.len() == p.tasks@.len()
    &&& forall|i: int|
        0 <= i < v.tasks.len() ==> #[trigger] v.tasks[i] == (
            TaskId::with_value(p.tasks@[i].id),
            p.tasks@[i].title@,
            parse_status_spec(p.tasks@[i].status@)->Some_0,
        )
    &&& v.next_task_id == p.next_task_id
    &&& v.history.len() == p.history@.len()
    &&& forall|i: int|
        0 <= i < v.history.len() ==> {
            let r = p.history@[i];
            #[trigger] v.history[i] == RecordModel {
                id: restored_record_id(r.id, i),
                ended_at: r.ended_at,
                kind: parse_kind_spec(r.kind@)->Some_0,
                outcome: parse_outcome_spec(r.outcome@)->Some_0,
                planned_seconds: r.planned_seconds,
                actual_seconds: r.actual_seconds,
                task_id: task_id_option(r.task_id),
                task_title: text_option(r.task_title),
            }
        }
    &&& v.applied_keys.len() == 0
    &&& v.health == DurableHealthState::Healthy
    &&& v.last_commit is None
    &&& v.durable_error is None
    &&& v.reminders_enabled
    &&& !v.sound_enabled
    &&& v.next_event_id == if p.next_event_id == 0 {
        1
    } else {
        p.next_event_id
    }
    &&& v.now == current.monotonic_seconds
    &&& v.wall == current.wall_seconds
    &&& v.chain_id == p.current_chain_id
    &&& v.chain_length == p.current_chain_length
    &&& v.review == match p.pending_review {
        Some(r) => Some(review_model(r)),
        None => None,
    }
}

proof fn lemma_first_bad_title(tasks: Seq<PersistedTask>, k: int, e: TaskError, i: int)
    requires
        0 <= i <= k < tasks.len(),
        title_violation(tasks[k].title@) == Some(e),
        forall|j: int| i <= j < k ==> title_violation((#[trigger] tasks[j]).title@) is None,
    ensures
        first_bad_title(tasks, i) == Some(e),
    decreases k - i,
{
    if i < k {
        lemma_first_bad_title(tasks, k, e, i + 1);
    }
}

impl Service {
    /// Restores a stored Service at the current observation, checking every
    /// stored value; the seconds that passed since it was stored are added to
    /// a Running Session.
    #[verifier::rlimit(60)]
    pub fn restore(p: PersistedState, current: &RecoveryObservation) -> (result: Result<Service, String>)
        ensures
            match restore_error(p) {
                Some(m) => result matches Err(e) && e@ == m,
                None => result matches Ok(service) && state_restored(service@, p, *current)
                    && storable(service@),
            },
    {
        let durations = match SessionDurations::new(
            p.timer.focus_seconds,
            p.timer.short_break_seconds,
            p.timer.long_break_seconds,
        ) {
            Ok(d) => d,
            Err(e) => {
                return Err(String::from_str(e.message()));
            },
        };
        let stored_observation = RecoveryObservation {
            boot_id: p.boot_id.clone(),
            monotonic_seconds: p.observed_monotonic,
            wall_seconds: p.observed_wall,
        };
        let recovered = elapsed_during_recovery(&stored_observation, current).seconds;
        let session = match &p.timer.session {
            PersistedSession::Pending { kind } => SessionState::Pending {
                kind: match parse_kind(kind.as_str()) {
                    Ok(k) => k,
                    Err(e) => {
                        return Err(e);
                    },
                },
            },
            PersistedSession::Running { kind, planned_seconds, accumulated_seconds, task_id, .. } => {
                let k = match parse_kind(kind.as_str()) {
                    Ok(k) => k,
                    Err(e) => {
                        return Err(e);
                    },
                };
                let accumulated = if *accumulated_seconds > u64::MAX - recovered {
                    u64::MAX
                } else {
                    *accumulated_seconds + recovered
                };
                SessionState::Running {
                    kind: k,
                    planned_seconds: *planned_seconds,
                    accumulated_seconds: accumulated,
                    started_at: current.monotonic_seconds,
                    task_id: match task_id {
                        Some(t) => Some(TaskId::new(*t)),
                        None => None,
                    },
                }
            },
            PersistedSession::Paused { kind, planned_seconds, elapsed_seconds, task_id } => {
                let k = match parse_kind(kind.as_str()) {
                    Ok(k) => k,
                    Err(e) => {
                        return Err(e);
                    },
                };
                SessionState::Paused {
                    kind: k,
                    planned_seconds: *planned_seconds,
                    elapsed_seconds: *elapsed_seconds,
                    task_id: match task_id {
                        Some(t) => Some(TaskId::new(*t)),
                        None => None,
                    },
                }
            },
        };
        let timer = match Timer::restore(
            TimerState {
                session,
                current_task: match p.timer.current_task {
                    Some(t) => Some(TaskId::new(t)),
                    None => None,
                },
                completed_rounds: p.timer.completed_rounds,
                rounds_per_cycle: p.timer.rounds_per_cycle,
                durations,
            },
        ) {
            Ok(t) => t,
            Err(e) => {
                return Err(String::from_str(e.message()));
            },
        };
        assert(timer_check(p.timer) is None);
        assert(parse_kind_spec(stored_kind(p.timer.session)) is Some);
        let mut entries: Vec<(TaskId, String, TaskStatus)> = Vec::new();
        let mut i: usize = 0;
        while i < p.tasks.len()
            invariant
                i <= p.tasks@.len(),
                entries@.len() == i,
                !(p.timer.focus_seconds == 0 || p.timer.short_break_seconds == 0
                    || p.timer.long_break_seconds == 0),
                parse_kind_spec(stored_kind(p.timer.session)) is Some,
                timer_check(p.timer) is None,
                forall|j: int| 0 <= j < i ==> parse_status_spec((#[trigger] p.tasks@[j]).status@) is Some,
                first_bad_status(p.tasks@, 0) == first_bad_status(p.tasks@, i as int),
                forall|j: int|
                    0 <= j < i ==> (#[trigger] entries@[j]) == (
                        TaskId::with_value(p.tasks@[j].id),
                        p.tasks@[j].title,
                        parse_status_spec(p.tasks@[j].status@)->Some_0,
                    ),
            decreases p.tasks@.len() - i,
        {
            let task = &p.tasks[i];
            let status = match parse_status(task.status.as_str()) {
                Ok(s) => s,
                Err(e) => {
                    return Err(e);
                },
            };
            entries.push((TaskId::new(task.id), task.title.clone(), status));
            i = i + 1;
        }
        let ghost stored_entries = entries@;
        let tasks = match TaskStore::restore(entries, p.next_task_id) {
            Ok(store) => store,
            Err(e) => {
                proof {
                    if p.next_task_id != 0 {
                        let k = choose|k: int|
                            0 <= k < stored_entries.len() && title_violation((#[trigger] stored_entries[k]).1@) == Some(e)
                                && forall|j: int|
                                0 <= j < k ==> title_violation((#[trigger] stored_entries[j]).1@) is None;
                        assert forall|j: int| 0 <= j < k implies title_violation((#[trigger] p.tasks@[j]).title@) is None by {
                            assert(stored_entries[j].1@ == p.tasks@[j].title@);
                        }
                        lemma_first_bad_title(p.tasks@, k, e, 0);
                    }
                }
                return Err(e.message());
            },
        };
        proof {
            if first_bad_title(p.tasks@, 0) is Some {
                assert(false) by {
                    assert(forall|j: int| 0 <= j < p.tasks@.len() ==> title_violation((#[trigger] p.tasks@[j]).title@) is None) by {
                        assert forall|j: int| 0 <= j < p.tasks@.len() implies title_violation((#[trigger] p.tasks@[j]).title@) is None by {
                            assert(stored_entries[j].1@ == p.tasks@[j].title@);
                        }
                    }
                    lemma_no_bad_title(p.tasks@, 0);
                }
            }
        }
        let mut records: Vec<SessionRecord> = Vec::new();
        let mut k: usize = 0;
        while k < p.history.len()
            invariant
                k <= p.history@.len(),
                records@.len() == k,
                !(p.timer.focus_seconds == 0 || p.timer.short_break_seconds == 0
                    || p.timer.long_break_seconds == 0),
                parse_kind_spec(stored_kind(p.timer.session)) is Some,
                timer_check(p.timer) is None,
                first_bad_status(p.tasks@, 0) is None,
                p.next_task_id != 0,
                first_bad_title(p.tasks@, 0) is None,
                first_bad_record(p.history@, 0) == first_bad_record(p.history@, k as int),
                forall|j: int|
                    0 <= j < k ==> {
                        let r = p.history@[j];
                        record_model(#[trigger] records@[j]) == RecordModel {
                            id: restored_record_id(r.id, j),
                            ended_at: r.ended_at,
                            kind: parse_kind_spec(r.kind@)->Some_0,
                            outcome: parse_outcome_spec(r.outcome@)->Some_0,
                            planned_seconds: r.planned_seconds,
                            actual_seconds: r.actual_seconds,
                            task_id: task_id_option(r.task_id),
                            task_title: text_option(r.task_title),
                        }
                    },
            decreases p.history@.len() - k,
        {
            let r = &p.history[k];
            let kind = match parse_kind(r.kind.as_str()) {
                Ok(kind) => kind,
                Err(e) => {
                    return Err(e);
                },
            };
            let outcome = match parse_outcome(r.outcome.as_str()) {
                Ok(o) => o,
                Err(e) => {
                    return Err(e);
                },
            };
            let id = if r.id == 0 {
                if k as u64 == u64::MAX {
                    u64::MAX
                } else {
                    k as u64 + 1
                }
            } else {
                r.id
            };
            records.push(
                SessionRecord {
                    id,
                    ended_at: r.ended_at,
                    kind,
                    outcome,
                    planned_seconds: r.planned_seconds,
                    actual_seconds: r.actual_seconds,
                    task_id: match r.task_id {
                        Some(t) => Some(TaskId::new(t)),
                        None => None,
                    },
                    task_title: copy_text(&r.task_title),
                },
            );
            k = k + 1;
        }
        let history = History::restore(records);
        let service = Service {
            timer,
            tasks,
            history,
            applied_keys: Vec::new(),
            durable_health: DurableHealthState::Healthy,
            last_successful_commit: None,
            durable_error: None,
            reminders_enabled: true,
            sound_enabled: false,
            next_event_id: if p.next_event_id == 0 {
                1
            } else {
                p.next_event_id
            },
            now: current.monotonic_seconds,
            wall: current.wall_seconds,
            current_chain_id: p.current_chain_id,
            current_chain_length: p.current_chain_length,
            pending_review: copy_review(&p.pending_review),
        };
        assert(service@.applied_keys =~= Seq::<Seq<char>>::empty());
        proof {
            if restore_error(p) is None && state_restored(service@, p, *current) {
                law_restored_service_is_storable(service@, p, *current);
            }
        }
        Ok(service)
    }
}

proof fn lemma_no_bad_title(tasks: Seq<PersistedTask>, i: int)
    requires
        0 <= i,
        forall|j: int| 0 <= j < tasks.len() ==> title_violation((#[trigger] tasks[j]).title@) is None,
    ensures
        first_bad_title(tasks, i) is None,
    decreases tasks.len() - i,
{
    if i < tasks.len() {
        lemma_no_bad_title(tasks, i + 1);
    }
}


impl Service {
    /// Replaces the idempotency keys known to be committed, as the durable
    /// store lists them after a restart, so that their requests are
    /// recognized as replays.
    pub fn restore_applied_keys(&mut self, keys: Vec<String>)
        ensures
            final(self)@ == (ServiceState {
                applied_keys: keys@.map_values(|k: String| k@),
                ..old(self)@
            }),
            storable(old(self)@) && final(self)@.applied_keys.no_duplicates() ==> storable(
                final(self)@,
            ),
    {
        self.applied_keys = keys;
    }
}

impl Service {
    /// Observes the clock unless durable state is unavailable: while it is,
    /// time does not move the Service, so nothing progresses that could not
    /// be committed.
    pub fn observe(&mut self, now: u64, wall: i64) -> (observed: Observed)
        ensures
            storable(old(self)@) ==> storable(final(self)@),
            old(self)@.health == DurableHealthState::Degraded ==> final(self)@ == old(self)@
                && observed is Unchanged,
            old(self)@.health == DurableHealthState::Healthy ==> final(self)@ == observation_spec(
                old(self)@,
                now,
                wall,
            ) && observed_as(observed, old(self)@, now),
    {
        proof {
            if storable(self@) {
                law_observation_keeps_the_service_storable(self@, now, wall);
            }
        }
        if self.reminders_blocked() {
            Observed::Unchanged
        } else {
            self.apply_observation(now, wall)
        }
    }
}

// ---------------------------------------------------------------------------
// Laws of the Service.
// ---------------------------------------------------------------------------

/// A mutation whose idempotency key was already applied is answered with the
/// current snapshot and changes nothing, so a retried request is harmless.
pub proof fn law_replayed_request_changes_nothing(v: ServiceState, request: Request)
    requires
        key_applied(v, request.idempotency_key),
    ensures
        handle_spec(v, request) == (v, Decision::Current),
{
}

/// Reading the status, the Tasks, Session History or the summary changes
/// nothing.
pub proof fn law_reads_change_nothing(v: ServiceState, request: Request)
    requires
        !command_mutates(request.command),
        request.command is Status || request.command is TaskList || request.command is History
            || request.command is Summary,
    ensures
        handle_spec(v, request).0 == v,
        refusal_spec(v, request) is None,
{
}

/// While durable state is unavailable every mutation is refused with the
/// durable error, and every read is still answered.
pub proof fn law_degraded_service_refuses_only_mutations(v: ServiceState, request: Request)
    requires
        v.health == DurableHealthState::Degraded,
    ensures
        command_mutates(request.command) <==> refusal_spec(v, request) is Some,
{
}

/// A failed durable write degrades durable health, and every later mutation
/// is refused with that write's error.
pub proof fn law_failed_write_blocks_later_mutations(
    v: ServiceState,
    key: Option<String>,
    error: String,
    later: Request,
)
    requires
        command_mutates(later.command),
    ensures
        commit_spec(v, key, StoreOutcome::Failed(error)).health == DurableHealthState::Degraded,
        refusal_spec(commit_spec(v, key, StoreOutcome::Failed(error)), later) == Some(error@),
{
}

/// Once a mutation is committed under its idempotency key, the same request
/// again is recognized as a replay.
pub proof fn law_committed_key_is_recognized(v: ServiceState, request: Request)
    requires
        request.idempotency_key is Some,
    ensures
        key_applied(commit_spec(v, request.idempotency_key, StoreOutcome::Saved), request.idempotency_key),
        handle_spec(commit_spec(v, request.idempotency_key, StoreOutcome::Saved), request).0
            == commit_spec(v, request.idempotency_key, StoreOutcome::Saved),
{
    let k = request.idempotency_key->Some_0;
    let w = commit_spec(v, request.idempotency_key, StoreOutcome::Saved);
    if !v.applied_keys.contains(k@) {
        assert(w.applied_keys[v.applied_keys.len() as int] == k@);
    }
}

/// Committing keeps a storable Service storable; in particular the
/// committed idempotency keys never hold one key twice, as the set of keys
/// they stand for would not.
pub proof fn law_commit_keeps_the_service_storable(v: ServiceState, key: Option<String>, outcome: StoreOutcome)
    requires
        storable(v),
    ensures
        storable(commit_spec(v, key, outcome)),
        commit_spec(v, key, outcome).applied_keys.no_duplicates(),
{
}

proof fn lemma_recording_keeps_the_timer(v: ServiceState, events: Seq<DomainEvent>, planned: u64)
    ensures
        record_events(v, events, planned).timer == v.timer,
        record_events(v, events, planned).tasks == v.tasks,
        record_events(v, events, planned).history.len() == v.history.len() + events.len(),
    decreases events.len(),
{
    if events.len() > 0 {
        lemma_recording_keeps_the_timer(v, events.drop_last(), planned);
    }
}

/// Pause, Resume, Stop and Skip each move the Timer exactly as the Timer's
/// transition of that name does, record one history entry for each Session
/// that the transition ends, and leave the Tasks alone; a transition the
/// Timer refuses is answered with its error and changes nothing.
pub proof fn law_timer_commands_apply_their_transitions(v: ServiceState, version: u16)
    ensures
        ({
            let pause = handle_spec(v, Request { version, idempotency_key: None, command: Command::Pause });
            match pause_spec(v.timer, v.now) {
                Ok((t, events)) => pause.0.timer == t && pause.0.tasks == v.tasks
                    && pause.0.history.len() == v.history.len() + events.len()
                    && pause.1 == Decision::Commit(Reply::Snapshot),
                Err(e) => pause == (v, Decision::Rejected(domain_error_text(e))),
            }
        }),
        ({
            let resume = handle_spec(v, Request { version, idempotency_key: None, command: Command::Resume });
            match resume_spec(v.timer, v.now) {
                Ok((t, events)) => resume.0.timer == t && resume.0.tasks == v.tasks
                    && resume.0.history.len() == v.history.len() + events.len()
                    && resume.1 == Decision::Commit(Reply::Snapshot),
                Err(e) => resume == (v, Decision::Rejected(domain_error_text(e))),
            }
        }),
        ({
            let stop = handle_spec(v, Request { version, idempotency_key: None, command: Command::Stop });
            match stop_spec(v.timer, v.now) {
                Ok((t, events)) => stop.0.timer == t && stop.0.tasks == v.tasks
                    && stop.0.history.len() == v.history.len() + events.len()
                    && stop.1 == Decision::Commit(Reply::Snapshot),
                Err(e) => stop == (v, Decision::Rejected(domain_error_text(e))),
            }
        }),
        ({
            let skip = handle_spec(v, Request { version, idempotency_key: None, command: Command::Skip });
            match skip_spec(v.timer) {
                Ok((t, events)) => skip.0.timer == t && skip.0.tasks == v.tasks
                    && skip.0.history.len() == v.history.len() + events.len()
                    && skip.1 == Decision::Commit(Reply::Snapshot),
                Err(e) => skip == (v, Decision::Rejected(domain_error_text(e))),
            }
        }),
{
    let p = planned_spec(v.timer);
    match pause_spec(v.timer, v.now) {
        Ok((t, events)) => lemma_recording_keeps_the_timer(ServiceState { timer: t, ..v }, events, p),
        Err(_) => {},
    }
    match resume_spec(v.timer, v.now) {
        Ok((t, events)) => lemma_recording_keeps_the_timer(ServiceState { timer: t, ..v }, events, p),
        Err(_) => {},
    }
    match stop_spec(v.timer, v.now) {
        Ok((t, events)) => lemma_recording_keeps_the_timer(ServiceState { timer: t, ..v }, events, p),
        Err(_) => {},
    }
    match skip_spec(v.timer) {
        Ok((t, events)) => lemma_recording_keeps_the_timer(ServiceState { timer: t, ..v }, events, p),
        Err(_) => {},
    }
}

/// Creating a Task appends an open Task with the normalized title under the
/// next identity and answers that identity; renaming gives the Task the
/// normalized title and keeps its identity, status and place; deleting a Task
/// no Session holds removes exactly it; a title that breaks the title rules
/// changes nothing.
pub proof fn law_task_commands_edit_the_task_list(v: ServiceState, version: u16, id: u64, title: String)
    ensures
        ({
            let create = handle_spec(v, Request { version, idempotency_key: None, command: Command::TaskCreate { title } });
            &&& normalized_title_spec(title@) is Ok && v.next_task_id < u64::MAX ==> {
                let t = normalized_title_spec(title@)->Ok_0;
                &&& create.0.tasks.len() == v.tasks.len() + 1
                &&& create.0.tasks.last() == (TaskId::with_value(v.next_task_id), t, TaskStatus::Open)
                &&& create.0.tasks.drop_last() == v.tasks
                &&& create.0.next_task_id == v.next_task_id + 1
                &&& create.1 == Decision::Commit(Reply::CreatedTask(v.next_task_id))
            }
            &&& normalized_title_spec(title@) is Err ==> create.0 == v
        }),
        ({
            let tid = TaskId::with_value(id);
            let rename = handle_spec(v, Request { version, idempotency_key: None, command: Command::TaskRename { id, title } });
            let i = first_index(v.tasks, tid);
            &&& normalized_title_spec(title@) is Ok && has_id(v.tasks, tid) ==> {
                let t = normalized_title_spec(title@)->Ok_0;
                &&& 0 <= i < v.tasks.len() && v.tasks[i].0 == tid
                &&& rename.0.tasks.len() == v.tasks.len()
                &&& rename.0.tasks[i] == (tid, t, v.tasks[i].2)
                &&& forall|j: int| 0 <= j < v.tasks.len() && j != i ==> #[trigger] rename.0.tasks[j] == v.tasks[j]
                &&& rename.1 == Decision::Commit(Reply::Snapshot)
            }
            &&& (normalized_title_spec(title@) is Err || !has_id(v.tasks, tid)) ==> rename.0 == v
        }),
        ({
            let tid = TaskId::with_value(id);
            let delete = handle_spec(v, Request { version, idempotency_key: None, command: Command::TaskDelete { id } });
            let i = first_index(v.tasks, tid);
            &&& !has_id(v.tasks, tid) ==> delete.0 == v
            &&& delete.1 == Decision::Commit(Reply::Snapshot) ==> {
                &&& 0 <= i < v.tasks.len() && v.tasks[i].0 == tid
                &&& delete.0.tasks.len() == v.tasks.len() - 1
                &&& forall|j: int| 0 <= j < i ==> #[trigger] delete.0.tasks[j] == v.tasks[j]
                &&& forall|j: int| i <= j < delete.0.tasks.len() ==> #[trigger] delete.0.tasks[j] == v.tasks[j + 1]
            }
        }),
{
    let tid = TaskId::with_value(id);
    if has_id(v.tasks, tid) {
        lemma_present_has_first(v.tasks, tid);
    }
    if normalized_title_spec(title@) is Ok && v.next_task_id < u64::MAX {
        let t = normalized_title_spec(title@)->Ok_0;
        let pushed = v.tasks.push((TaskId::with_value(v.next_task_id), t, TaskStatus::Open));
        assert(pushed.drop_last() =~= v.tasks);
    }
}

/// Completing a Task marks it Completed and reopening marks it Open; the
/// Task keeps its identity and title, every other Task stays as it was, and
/// reopening a Task that was just completed gives back the Tasks as they
/// were before.
pub proof fn law_complete_and_reopen_set_the_status(v: ServiceState, id: u64, version: u16)
    requires
        has_id(v.tasks, TaskId::with_value(id)),
    ensures
        ({
            let tid = TaskId::with_value(id);
            let i = first_index(v.tasks, tid);
            let complete = Request { version, idempotency_key: None, command: Command::TaskComplete { id } };
            let reopen = Request { version, idempotency_key: None, command: Command::TaskReopen { id } };
            let done = handle_spec(v, complete);
            let undone = handle_spec(v, reopen);
            &&& 0 <= i < v.tasks.len() && v.tasks[i].0 == tid
            &&& done.1 == Decision::Commit(Reply::Snapshot)
            &&& undone.1 == Decision::Commit(Reply::Snapshot)
            &&& done.0.tasks.len() == v.tasks.len() && undone.0.tasks.len() == v.tasks.len()
            &&& done.0.tasks[i] == (tid, v.tasks[i].1, TaskStatus::Completed)
            &&& undone.0.tasks[i] == (tid, v.tasks[i].1, TaskStatus::Open)
            &&& forall|j: int|
                0 <= j < v.tasks.len() && j != i ==> #[trigger] done.0.tasks[j] == v.tasks[j]
                    && undone.0.tasks[j] == v.tasks[j]
            &&& v.tasks[i].2 == TaskStatus::Open ==> handle_spec(done.0, reopen).0.tasks == v.tasks
        }),
{
    let tid = TaskId::with_value(id);
    lemma_present_has_first(v.tasks, tid);
    let i = first_index(v.tasks, tid);
    let complete = Request { version, idempotency_key: None, command: Command::TaskComplete { id } };
    let reopen = Request { version, idempotency_key: None, command: Command::TaskReopen { id } };
    let done = handle_spec(v, complete).0;
    assert(done.tasks == with_status(v.tasks, i, TaskStatus::Completed));
    assert(has_id(done.tasks, tid)) by {
        assert(done.tasks[i].0 == tid);
    }
    lemma_present_has_first(done.tasks, tid);
    assert(is_first_index(done.tasks, tid, i)) by {
        assert forall|j: int| 0 <= j < i implies (#[trigger] done.tasks[j]).0 != tid by {
            assert(done.tasks[j] == v.tasks[j]);
        }
    }
    crate::tasks::lemma_first_index_unique(done.tasks, tid, i, first_index(done.tasks, tid));
    if v.tasks[i].2 == TaskStatus::Open {
        assert(handle_spec(done, reopen).0.tasks =~= v.tasks);
    }
}

/// While a completed Focus Session awaits review no Focus Session starts,
/// neither by kind nor by Task title; a break still starts.
pub proof fn law_pending_review_blocks_only_focus(
    v: ServiceState,
    kind: SessionKind,
    task_id: Option<u64>,
    title: Seq<char>,
)
    requires
        v.review is Some,
    ensures
        kind == SessionKind::Focus ==> start_decision(v, kind, task_id) == (v, Decision::Rejected(review_blocks_text())),
        start_title_decision(v, title) == (v, Decision::Rejected(review_blocks_text())),
        kind != SessionKind::Focus ==> start_decision(v, kind, task_id).1 == start_decision(
            ServiceState { review: None, ..v },
            kind,
            task_id,
        ).1,
{
}

/// Recording ended Sessions changes neither the Timer nor the Tasks.
proof fn lemma_record_events_frame(v: ServiceState, events: Seq<DomainEvent>, planned: u64)
    ensures
        record_events(v, events, planned).timer == v.timer,
        record_events(v, events, planned).tasks == v.tasks,
    decreases events.len(),
{
    if events.len() > 0 {
        lemma_record_events_frame(v, events.drop_last(), planned);
    }
}

proof fn lemma_filter_keeps_all(h: Seq<RecordModel>, ids: Seq<u64>)
    requires
        kept_models(h, ids).len() == h.len(),
    ensures
        kept_models(h, ids) == h,
    decreases h.len(),
{
    reveal_with_fuel(Seq::filter, 1);
    if h.len() > 0 {
        h.drop_last().lemma_filter_len(|r: RecordModel| !ids.contains(r.id));
        if ids.contains(h.last().id) {
            assert(kept_models(h, ids) == kept_models(h.drop_last(), ids));
        } else {
            lemma_filter_keeps_all(h.drop_last(), ids);
            assert(h =~= h.drop_last().push(h.last()));
        }
    }
}

/// A refused request changes nothing, whatever the reason; the one
/// exception is starting by a title that names no Task, which creates the
/// Task before the start is refused.
pub proof fn law_refused_requests_change_nothing(v: ServiceState, request: Request)
    requires
        !(request.command is StartTitle),
        handle_spec(v, request).1 is Rejected || handle_spec(v, request).1 is InvalidTitle,
    ensures
        handle_spec(v, request).0 == v,
{
    if !key_applied(v, request.idempotency_key) {
        match request.command {
            Command::HistoryDelete { ids } => {
                if ids@.len() > 0 && kept_models(v.history, ids@).len() == v.history.len() {
                    lemma_filter_keeps_all(v.history, ids@);
                    assert(ServiceState { history: kept_models(v.history, ids@), ..v } == v);
                }
            },
            Command::TaskSelect { id, stop_current } => {
                let tid = TaskId::with_value(id);
                if has_id(v.tasks, tid) && !(v.timer.session is Pending) && stop_current {
                    if stop_spec(v.timer, v.now) is Ok {
                        let (t, events) = stop_spec(v.timer, v.now)->Ok_0;
                        lemma_record_events_frame(
                            ServiceState { timer: t, ..v },
                            events,
                            planned_spec(v.timer),
                        );
                    }
                }
            },
            _ => {},
        }
    }
}

/// A Focus Session that the clock completes is recorded once, as Completed,
/// with the full planned time, and awaits review.
pub proof fn law_completed_focus_is_recorded_and_awaits_review(v: ServiceState, now: u64, wall: i64)
    requires
        crate::domain::timer_state_valid(v.timer),
        v.timer.session matches SessionState::Running { kind, .. } && kind == DomainKind::Focus,
        advance_spec(v.timer, now) matches Ok((_, events)) && events.len() > 0,
    ensures
        observation_spec(v, now, wall).history.len() == v.history.len() + 1,
        observation_spec(v, now, wall).history.last().outcome == SessionOutcome::Completed,
        observation_spec(v, now, wall).history.last().kind == DomainKind::Focus,
        observation_spec(v, now, wall).review is Some,
{
    let (t, events) = advance_spec(v.timer, now)->Ok_0;
    let w0 = ServiceState { timer: t, ..ServiceState { now, wall, ..v } };
    let p = planned_spec(v.timer);
    assert(events.len() == 1);
    assert(events.drop_last() =~= Seq::<DomainEvent>::empty());
    assert(events.last() == events[0]);
    assert(record_events(w0, events.drop_last(), p) == w0);
    assert(record_events(w0, events, p) == record_event(w0, events[0], p));
    assert(observation_spec(v, now, wall) == record_events(w0, events, p));
}

/// The Current Session as a restart at observation `now` brings it back: a
/// Running Session's time so far is folded into what it accumulated, and it
/// runs on from `now`.
pub open spec fn session_resumed_at(s: SessionState, now: u64) -> SessionState {
    match s {
        SessionState::Running { kind, planned_seconds, accumulated_seconds, started_at, task_id } => {
            SessionState::Running {
                kind,
                planned_seconds,
                accumulated_seconds: saturating_add_u64(
                    accumulated_seconds,
                    crate::domain::saturating_sub_u64(now, started_at),
                ),
                started_at: now,
                task_id,
            }
        },
        _ => s,
    }
}

/// Whether the Service's state is one it can store and restore: a valid
/// Timer, every Task title within the title rules, nonzero Task and record
/// identities, as the Service hands them out, and committed idempotency keys
/// that are all different.
pub open spec fn storable(v: ServiceState) -> bool {
    &&& crate::domain::timer_state_valid(v.timer)
    &&& forall|i: int| 0 <= i < v.tasks.len() ==> title_violation((#[trigger] v.tasks[i]).1) is None
    &&& v.next_task_id > 0
    &&& forall|i: int| 0 <= i < v.history.len() ==> (#[trigger] v.history[i]).id > 0
    &&& v.next_event_id > 0
    &&& v.applied_keys.no_duplicates()
}

/// The snapshot announces as next the Session that ending the current one
/// at its deadline reveals: after a Focus Session the Long Break once the
/// Focus Cycle's rounds are done and a Short Break otherwise, after a break
/// a Focus Session; a Pending Session is announced as itself.
pub proof fn law_snapshot_announces_what_completion_reveals(t: TimerState)
    requires
        crate::domain::timer_state_valid(t),
    ensures
        t.session matches SessionState::Pending { kind } ==> next_kind_spec(t) == map_kind_spec(kind),
        !(t.session is Pending) ==> next_kind_spec(t) == map_kind_spec(
            session_kind(crate::domain::completion(t, session_kind(t.session), 0, None).0.session),
        ),
        !(t.session is Pending) && session_kind(t.session) == DomainKind::Focus ==> (next_kind_spec(t)
            == SessionKind::LongBreak <==> t.completed_rounds + 1 >= t.rounds_per_cycle),
        !(t.session is Pending) && session_kind(t.session) != DomainKind::Focus ==> next_kind_spec(t)
            == SessionKind::Focus,
{
}

/// A restart later in the same boot brings the Service back: the stored
/// state restores without error, and everything but the committed
/// idempotency keys (which the store lists apart), durable health and the
/// reminder settings (which configuration sets again) is what was stored,
/// observed at the restart, with a Running Session counting the time that
/// passed while the Service was down and running on from the restart, so
/// that it has as much time left as if the Service had never stopped.
pub proof fn law_restart_restores_the_stored_service(
    v: ServiceState,
    p: PersistedState,
    current: RecoveryObservation,
    w: ServiceState,
)
    requires
        storable(v),
        state_stored(p, v, current.boot_id@),
        v.now <= current.monotonic_seconds,
        v.timer.session matches SessionState::Running { started_at, .. } ==> started_at <= v.now,
    ensures
        restore_error(p) is None,
        state_restored(w, p, current) ==> (ServiceState {
            applied_keys: v.applied_keys,
            health: v.health,
            last_commit: v.last_commit,
            durable_error: v.durable_error,
            reminders_enabled: v.reminders_enabled,
            sound_enabled: v.sound_enabled,
            ..w
        }) == (ServiceState {
            timer: TimerState {
                session: session_resumed_at(v.timer.session, current.monotonic_seconds),
                ..v.timer
            },
            now: current.monotonic_seconds,
            wall: current.wall_seconds,
            ..v
        }),
        state_restored(w, p, current) ==> remaining_spec(w.timer, current.monotonic_seconds)
            == remaining_spec(v.timer, current.monotonic_seconds),
{
    lemma_stored_restores(v, p, current.boot_id@);
    if state_restored(w, p, current) {
        crate::domain::SessionDurations::lemma_equal_lengths(w.timer.durations, v.timer.durations);
        assert(w.timer.session == session_resumed_at(v.timer.session, current.monotonic_seconds)) by {
            lemma_kind_round_trip(session_kind(v.timer.session));
            assert(recovery_spec(
                p.boot_id@,
                p.observed_monotonic,
                p.observed_wall,
                current.boot_id@,
                current.monotonic_seconds,
                current.wall_seconds,
            ).seconds == current.monotonic_seconds - v.now);
            match v.timer.session {
                SessionState::Running { task_id, .. } => match task_id {
                    Some(t) => {
                        TaskId::lemma_with_value(t.value());
                        TaskId::lemma_value_injective(TaskId::with_value(t.value()), t);
                    },
                    None => {},
                },
                SessionState::Paused { task_id, .. } => match task_id {
                    Some(t) => {
                        TaskId::lemma_with_value(t.value());
                        TaskId::lemma_value_injective(TaskId::with_value(t.value()), t);
                    },
                    None => {},
                },
                _ => {},
            }
        }
        assert(w.timer.current_task == v.timer.current_task) by {
            match v.timer.current_task {
                Some(t) => {
                    TaskId::lemma_with_value(t.value());
                    TaskId::lemma_value_injective(TaskId::with_value(t.value()), t);
                },
                None => {},
            }
        }
        assert(w.tasks =~= v.tasks) by {
            assert forall|i: int| 0 <= i < v.tasks.len() implies #[trigger] w.tasks[i] == v.tasks[i] by {
                let t = v.tasks[i];
                TaskId::lemma_with_value(t.0.value());
                TaskId::lemma_value_injective(TaskId::with_value(t.0.value()), t.0);
                lemma_status_round_trip(t.2);
                assert(p.tasks@[i].id == t.0.value());
            }
        }
        assert(w.history =~= v.history) by {
            assert forall|i: int| 0 <= i < v.history.len() implies #[trigger] w.history[i] == v.history[i] by {
                let r = v.history[i];
                let stored = p.history@[i];
                assert(record_stored(stored, r));
                lemma_kind_round_trip(r.kind);
                lemma_outcome_round_trip(r.outcome);
                match r.task_id {
                    Some(t) => {
                        TaskId::lemma_with_value(t.value());
                        TaskId::lemma_value_injective(TaskId::with_value(t.value()), t);
                    },
                    None => {},
                }
            }
        }
    }
}

proof fn lemma_kind_round_trip(kind: DomainKind)
    ensures
        parse_kind_spec(domain_kind_name_spec(kind)) == Some(kind),
{
    reveal_strlit("focus");
    reveal_strlit("short_break");
    reveal_strlit("long_break");
    assert("focus"@.len() == 5 && "short_break"@.len() == 11 && "long_break"@.len() == 10);
    assert("short_break"@ != "focus"@);
    assert("long_break"@ != "focus"@ && "long_break"@ != "short_break"@);
}

proof fn lemma_outcome_round_trip(outcome: SessionOutcome)
    ensures
        parse_outcome_spec(outcome_name_spec(outcome)) == Some(outcome),
{
    reveal_strlit("completed");
    reveal_strlit("stopped");
    reveal_strlit("skipped");
    assert("completed"@.len() == 9 && "stopped"@.len() == 7 && "skipped"@.len() == 7);
    assert("stopped"@ != "completed"@);
    assert("skipped"@[1] != "stopped"@[1]);
    assert("skipped"@ != "completed"@ && "skipped"@ != "stopped"@);
}

proof fn lemma_status_round_trip(status: TaskStatus)
    ensures
        parse_status_spec(status_text(status)) == Some(status),
{
    reveal_strlit("open");
    reveal_strlit("completed");
    assert("open"@.len() == 4 && "completed"@.len() == 9);
    assert("completed"@ != "open"@);
}

proof fn lemma_no_bad_status(tasks: Seq<PersistedTask>, i: int)
    requires
        0 <= i,
        forall|j: int| 0 <= j < tasks.len() ==> parse_status_spec((#[trigger] tasks[j]).status@) is Some,
    ensures
        first_bad_status(tasks, i) is None,
    decreases tasks.len() - i,
{
    if i < tasks.len() {
        lemma_no_bad_status(tasks, i + 1);
    }
}

proof fn lemma_no_bad_record(history: Seq<PersistedRecord>, i: int)
    requires
        0 <= i,
        forall|j: int|
            0 <= j < history.len() ==> parse_kind_spec((#[trigger] history[j]).kind@) is Some
                && parse_outcome_spec(history[j].outcome@) is Some,
    ensures
        first_bad_record(history, i) is None,
    decreases history.len() - i,
{
    if i < history.len() {
        lemma_no_bad_record(history, i + 1);
    }
}

/// What storing a storable state gives is restorable.
proof fn lemma_stored_restores(v: ServiceState, p: PersistedState, boot: Seq<char>)
    requires
        storable(v),
        state_stored(p, v, boot),
    ensures
        restore_error(p) is None,
{
    lemma_kind_round_trip(session_kind(v.timer.session));
    assert(stored_kind(p.timer.session) == domain_kind_name_spec(session_kind(v.timer.session)));
    assert forall|j: int| 0 <= j < p.tasks@.len() implies parse_status_spec((#[trigger] p.tasks@[j]).status@) is Some by {
        lemma_status_round_trip(v.tasks[j].2);
    }
    lemma_no_bad_status(p.tasks@, 0);
    assert forall|j: int| 0 <= j < p.tasks@.len() implies title_violation((#[trigger] p.tasks@[j]).title@) is None by {
        assert(p.tasks@[j].title@ == v.tasks[j].1);
    }
    lemma_no_bad_title(p.tasks@, 0);
    assert forall|j: int|
        0 <= j < p.history@.len() implies parse_kind_spec((#[trigger] p.history@[j]).kind@) is Some
            && parse_outcome_spec(p.history@[j].outcome@) is Some by {
        assert(record_stored(p.history@[j], v.history[j]));
        lemma_kind_round_trip(v.history[j].kind);
        lemma_outcome_round_trip(v.history[j].outcome);
    }
    lemma_no_bad_record(p.history@, 0);
}

/// A restart followed by a retried request: once the stored state is
/// restored and the committed idempotency keys that the store lists are given
/// back, a mutation under one of those keys is answered with the current
/// snapshot and changes nothing, so the Tasks and Session History stay those
/// that were stored.
pub proof fn law_replay_after_restart_changes_nothing(
    v: ServiceState,
    p: PersistedState,
    current: RecoveryObservation,
    w: ServiceState,
    keys: Seq<Seq<char>>,
    request: Request,
)
    requires
        storable(v),
        state_stored(p, v, current.boot_id@),
        v.now <= current.monotonic_seconds,
        v.timer.session matches SessionState::Running { started_at, .. } ==> started_at <= v.now,
        state_restored(w, p, current),
        request.idempotency_key matches Some(k) && keys.contains(k@),
    ensures
        handle_spec(ServiceState { applied_keys: keys, ..w }, request) == (
            ServiceState { applied_keys: keys, ..w },
            Decision::Current,
        ),
        w.tasks == v.tasks,
        w.history == v.history,
        w.next_task_id == v.next_task_id,
{
    law_restart_restores_the_stored_service(v, p, current, w);
    let restored = ServiceState {
        applied_keys: v.applied_keys,
        health: v.health,
        last_commit: v.last_commit,
        durable_error: v.durable_error,
        reminders_enabled: v.reminders_enabled,
        sound_enabled: v.sound_enabled,
        ..w
    };
    assert(restored.tasks == w.tasks && restored.history == w.history);
}

/// A Session Reminder is delivered at most once: a completion whose reminder
/// an earlier write already claimed, or whose write failed, delivers
/// nothing; only the write that claims it delivers, while reminders are on.
pub proof fn law_reminder_is_delivered_at_most_once(v: ServiceState, error: String)
    ensures
        completion_spec(v, CompletionOutcome::Saved { claimed: false }).1 == Dispatch::Nothing,
        completion_spec(v, CompletionOutcome::Failed(error)).1 == Dispatch::Nothing,
        completion_spec(v, CompletionOutcome::Saved { claimed: true }).1 == if v.reminders_enabled {
            Dispatch::Pending
        } else {
            Dispatch::Nothing
        },
{
}

proof fn lemma_record_events_storable(v: ServiceState, events: Seq<DomainEvent>, planned: u64)
    requires
        storable(v),
    ensures
        storable(record_events(v, events, planned)),
        record_events(v, events, planned).timer == v.timer,
        record_events(v, events, planned).tasks == v.tasks,
        record_events(v, events, planned).next_task_id == v.next_task_id,
    decreases events.len(),
{
    if events.len() > 0 {
        lemma_record_events_storable(v, events.drop_last(), planned);
        let w = record_events(v, events.drop_last(), planned);
        let x = record_event(w, events.last(), planned);
        assert forall|i: int| 0 <= i < x.history.len() implies (#[trigger] x.history[i]).id > 0 by {
            if i < w.history.len() {
                assert(x.history[i] == w.history[i]);
            }
        }
    }
}

proof fn lemma_transition_storable(v: ServiceState, r: Result<(TimerState, Seq<DomainEvent>), DomainError>)
    requires
        storable(v),
        r matches Ok((t, _)) ==> crate::domain::timer_state_valid(t),
    ensures
        storable(transition_decision(v, r).0),
{
    match r {
        Ok((t, events)) => {
            lemma_record_events_storable(ServiceState { timer: t, ..v }, events, planned_spec(v.timer));
        },
        Err(_) => {},
    }
}

proof fn lemma_tasks_storable(v: ServiceState, tasks: Seq<TaskModel>)
    requires
        storable(v),
        forall|i: int| 0 <= i < tasks.len() ==> title_violation((#[trigger] tasks[i]).1) is None,
    ensures
        storable(ServiceState { tasks, ..v }),
{
}

/// Every request leaves a storable Service storable: Timer operations keep
/// the Timer valid, new and renamed Tasks carry normalized titles, and every
/// recorded Session gets a nonzero identity.
pub proof fn law_requests_keep_the_service_storable(v: ServiceState, request: Request)
    requires
        storable(v),
    ensures
        storable(handle_spec(v, request).0),
{
    let s = v.timer;
    if key_applied(v, request.idempotency_key) {
        return;
    }
    match request.command {
        Command::Start { kind, task_id } => {
            crate::domain::law_transitions_keep_the_timer_valid(s, v.now, task_id_option(task_id), 1, TaskId::with_value(0));
            lemma_transition_storable(v, start_spec(s, v.now, task_id_option(task_id)));
        },
        Command::StartTitle { title } => {
            crate::tasks::law_normalized_titles_obey_the_rules(title@);
            if v.review is None && normalized_title_spec(title@) is Ok {
                let key = normalized_title_spec(title@)->Ok_0;
                let ids = ids_titled(v.tasks, key);
                if ids.len() == 1 {
                    crate::domain::law_transitions_keep_the_timer_valid(s, v.now, Some(ids[0]), 1, ids[0]);
                    lemma_transition_storable(v, start_spec(s, v.now, Some(ids[0])));
                } else if ids.len() == 0 && v.next_task_id != u64::MAX {
                    let id = TaskId::with_value(v.next_task_id);
                    let tasks = v.tasks.push((id, key, TaskStatus::Open));
                    assert forall|i: int| 0 <= i < tasks.len() implies title_violation((#[trigger] tasks[i]).1) is None by {
                        if i < v.tasks.len() {
                            assert(tasks[i] == v.tasks[i]);
                        }
                    }
                    let w = ServiceState { tasks, next_task_id: (v.next_task_id + 1) as u64, ..v };
                    crate::domain::law_transitions_keep_the_timer_valid(s, v.now, Some(id), 1, id);
                    lemma_transition_storable(w, start_spec(w.timer, w.now, Some(id)));
                }
            }
        },
        Command::Pause => {
            crate::domain::law_transitions_keep_the_timer_valid(s, v.now, None, 1, TaskId::with_value(0));
            lemma_transition_storable(v, pause_spec(s, v.now));
        },
        Command::Resume => {
            crate::domain::law_transitions_keep_the_timer_valid(s, v.now, None, 1, TaskId::with_value(0));
            lemma_transition_storable(v, resume_spec(s, v.now));
        },
        Command::Stop => {
            crate::domain::law_transitions_keep_the_timer_valid(s, v.now, None, 1, TaskId::with_value(0));
            lemma_transition_storable(v, stop_spec(s, v.now));
        },
        Command::Skip => {
            crate::domain::law_transitions_keep_the_timer_valid(s, v.now, None, 1, TaskId::with_value(0));
            lemma_transition_storable(v, skip_spec(s));
        },
        Command::TaskCreate { title } => {
            lemma_create_storable(v, title@);
        },
        Command::TaskRename { id, title } => {
            crate::tasks::law_normalized_titles_obey_the_rules(title@);
            let tid = TaskId::with_value(id);
            if normalized_title_spec(title@) is Ok && has_id(v.tasks, tid) {
                lemma_present_has_first(v.tasks, tid);
                let t = normalized_title_spec(title@)->Ok_0;
                let tasks = with_title(v.tasks, first_index(v.tasks, tid), t);
                assert forall|i: int| 0 <= i < tasks.len() implies title_violation((#[trigger] tasks[i]).1) is None by {
                    if i != first_index(v.tasks, tid) {
                        assert(tasks[i] == v.tasks[i]);
                    }
                }
            }
        },
        Command::TaskComplete { id } => {
            let tid = TaskId::with_value(id);
            if has_id(v.tasks, tid) {
                lemma_present_has_first(v.tasks, tid);
                let tasks = with_status(v.tasks, first_index(v.tasks, tid), TaskStatus::Completed);
                assert forall|i: int| 0 <= i < tasks.len() implies title_violation((#[trigger] tasks[i]).1) is None by {
                    assert(tasks[i].1 == v.tasks[i].1);
                }
            }
        },
        Command::TaskReopen { id } => {
            let tid = TaskId::with_value(id);
            if has_id(v.tasks, tid) {
                lemma_present_has_first(v.tasks, tid);
                let tasks = with_status(v.tasks, first_index(v.tasks, tid), TaskStatus::Open);
                assert forall|i: int| 0 <= i < tasks.len() implies title_violation((#[trigger] tasks[i]).1) is None by {
                    assert(tasks[i].1 == v.tasks[i].1);
                }
            }
        },
        Command::TaskDelete { id } => {
            let tid = TaskId::with_value(id);
            crate::domain::law_transitions_keep_the_timer_valid(s, v.now, None, 1, tid);
            if has_id(v.tasks, tid) {
                lemma_present_has_first(v.tasks, tid);
                let k = first_index(v.tasks, tid);
                let tasks = v.tasks.remove(k);
                assert forall|i: int| 0 <= i < tasks.len() implies title_violation((#[trigger] tasks[i]).1) is None by {
                    if i < k {
                        assert(tasks[i] == v.tasks[i]);
                    } else {
                        assert(tasks[i] == v.tasks[i + 1]);
                    }
                }
            }
        },
        Command::TaskSelect { id, stop_current } => {
            let tid = TaskId::with_value(id);
            crate::domain::law_transitions_keep_the_timer_valid(s, v.now, None, 1, tid);
            if has_id(v.tasks, tid) && !(s.session is Pending) && stop_current && stop_spec(s, v.now) is Ok {
                let (t, events) = stop_spec(s, v.now)->Ok_0;
                lemma_record_events_storable(ServiceState { timer: t, ..v }, events, planned_spec(s));
                crate::domain::law_transitions_keep_the_timer_valid(t, v.now, None, 1, tid);
            }
        },
        Command::HistoryDelete { ids } => {
            let kept = kept_models(v.history, ids@);
            assert forall|i: int| 0 <= i < kept.len() implies (#[trigger] kept[i]).id > 0 by {
                assert(kept.contains(kept[i]));
                v.history.lemma_filter_contains_rev(|r: RecordModel| !ids@.contains(r.id), kept[i]);
            }
        },
        _ => {},
    }
}

proof fn lemma_create_storable(v: ServiceState, title: Seq<char>)
    requires
        storable(v),
    ensures
        storable(create_decision(v, title).0),
{
    crate::tasks::law_normalized_titles_obey_the_rules(title);
    if normalized_title_spec(title) is Ok && v.next_task_id != u64::MAX {
        let t = normalized_title_spec(title)->Ok_0;
        let tasks = v.tasks.push((TaskId::with_value(v.next_task_id), t, TaskStatus::Open));
        assert forall|i: int| 0 <= i < tasks.len() implies title_violation((#[trigger] tasks[i]).1) is None by {
            if i < v.tasks.len() {
                assert(tasks[i] == v.tasks[i]);
            }
        }
    }
}

/// Observing the clock leaves a storable Service storable.
pub proof fn law_observation_keeps_the_service_storable(v: ServiceState, now: u64, wall: i64)
    requires
        storable(v),
    ensures
        storable(observation_spec(v, now, wall)),
{
    crate::domain::law_transitions_keep_the_timer_valid(v.timer, now, None, 1, TaskId::with_value(0));
    let v1 = ServiceState { now, wall, ..v };
    match advance_spec(v.timer, now) {
        Ok((t, events)) => {
            lemma_record_events_storable(ServiceState { timer: t, ..v1 }, events, planned_spec(v.timer));
        },
        Err(_) => {},
    }
}

proof fn lemma_no_bad_title_means_valid(tasks: Seq<PersistedTask>, i: int)
    requires
        0 <= i,
        first_bad_title(tasks, i) is None,
    ensures
        forall|j: int| i <= j < tasks.len() ==> title_violation((#[trigger] tasks[j]).title@) is None,
    decreases tasks.len() - i,
{
    if i < tasks.len() {
        lemma_no_bad_title_means_valid(tasks, i + 1);
    }
}

/// Restoring gives a storable Service: the checks that restoring makes are
/// exactly what storing again needs.
pub proof fn law_restored_service_is_storable(w: ServiceState, p: PersistedState, current: RecoveryObservation)
    requires
        restore_error(p) is None,
        state_restored(w, p, current),
    ensures
        storable(w),
{
    lemma_no_bad_title_means_valid(p.tasks@, 0);
    assert forall|i: int| 0 <= i < w.tasks.len() implies title_violation((#[trigger] w.tasks[i]).1) is None by {
        assert(w.tasks[i].1 == p.tasks@[i].title@);
    }
    assert forall|i: int| 0 <= i < w.history.len() implies (#[trigger] w.history[i]).id > 0 by {
        assert(w.history[i].id == restored_record_id(p.history@[i].id, i));
    }
}

/// Changing the Focus Cycle length keeps a storable Service storable.
pub proof fn law_cycle_change_keeps_the_service_storable(v: ServiceState, rounds: u8)
    requires
        storable(v),
    ensures
        crate::domain::set_rounds_spec(v.timer, rounds) matches Ok(t) ==> storable(ServiceState { timer: t, ..v }),
{
    crate::domain::law_transitions_keep_the_timer_valid(v.timer, v.now, None, rounds, TaskId::with_value(0));
}

} // verus!
