//! The values of the versioned request/response protocol that Timer
//! Frontends exchange with the Timer Service, and its rules.

use vstd::prelude::*;

verus! {

pub const PROTOCOL_VERSION: u16 = 3;

/// The largest request frame, newline included, in bytes.
pub const MAX_REQUEST_FRAME_BYTES: usize = 65536;

#[derive(Clone, Copy, Debug, PartialEq, Eq, Structural)]
pub enum SessionKind {
    Focus,
    ShortBreak,
    LongBreak,
}

#[derive(Clone, Debug, PartialEq, Eq)]
pub enum Command {
    Status,
    Start { kind: SessionKind, task_id: Option<u64> },
    StartTitle { title: String },
    Pause,
    Resume,
    Stop,
    StopReview,
    Skip,
    TaskList,
    TaskCreate { title: String },
    TaskRename { id: u64, title: String },
    TaskComplete { id: u64 },
    TaskReopen { id: u64 },
    TaskDelete { id: u64 },
    TaskSelect { id: u64, stop_current: bool },
    HistoryDelete { ids: Vec<u64> },
    History,
    Summary,
    ReviewSuccess { reflection: Option<String> },
    ReviewSuccessAssign {
        task_id: Option<u64>,
        use_void: bool,
        chain_entry_title: Option<String>,
        reflection: Option<String>,
    },
    ReviewFailure {
        reflection: String,
        task_id: Option<u64>,
        use_void: bool,
        chain_entry_title: Option<String>,
    },
    ActionChainCurrent,
    ActionChainArchive,
    ChainEntryEdit { id: u64, reflection: Option<String>, chain_entry_title: Option<String> },
    Rewards,
    RewardCreate { name: String, threshold: u64, budget: Option<u64> },
    RewardUpdate { id: u64, name: String, threshold: u64, budget: Option<u64> },
    RewardDelete { id: u64 },
    RewardClaim { unlock_id: u64 },
}

/// Whether a command changes durable state; only reads are exempt.
pub open spec fn command_mutates(command: Command) -> bool {
    !(command is Status || command is TaskList || command is History || command is Summary
        || command is ActionChainCurrent || command is ActionChainArchive || command is Rewards)
}

impl Command {
    pub fn mutates(&self) -> (mutates: bool)
        ensures
            mutates == command_mutates(*self),
    {
        match self {
            Command::Status
            | Command::TaskList
            | Command::History
            | Command::Summary
            | Command::ActionChainCurrent
            | Command::ActionChainArchive
            | Command::Rewards => false,
            _ => true,
        }
    }
}

#[derive(Clone, Debug, PartialEq, Eq)]
pub struct Request {
    pub version: u16,
    pub idempotency_key: Option<String>,
    pub command: Command,
}

/// The error, if any, with which a request is refused before it is handled.
pub open spec fn request_refusal(request: Request) -> Option<ProtocolError> {
    if request.version != PROTOCOL_VERSION {
        Some(
            ProtocolError::IncompatibleVersion {
                received: request.version,
                supported: PROTOCOL_VERSION,
            },
        )
    } else if command_mutates(request.command) && match request.idempotency_key {
        None => true,
        Some(key) => key@.len() == 0,
    } {
        Some(ProtocolError::MissingIdempotencyKey)
    } else {
        None
    }
}

impl Request {
    /// Validates version and mutation identity.
    pub fn validate(&self) -> (result: Result<(), ProtocolError>)
        ensures
            match result {
                Ok(_) => request_refusal(*self) is None,
                Err(e) => request_refusal(*self) == Some(e),
            },
    {
        if self.version != PROTOCOL_VERSION {
            return Err(
                ProtocolError::IncompatibleVersion {
                    received: self.version,
                    supported: PROTOCOL_VERSION,
                },
            );
        }
        let missing_key = match &self.idempotency_key {
            None => true,
            Some(key) => key.as_str().is_empty(),
        };
        if self.command.mutates() && missing_key {
            return Err(ProtocolError::MissingIdempotencyKey);
        }
        Ok(())
    }
}

#[derive(Clone, Debug, PartialEq, Eq)]
pub struct Snapshot {
    pub state: String,
    pub kind: SessionKind,
    pub remaining_seconds: u64,
    pub planned_seconds: u64,
    pub current_task: Option<String>,
    pub current_task_id: Option<u64>,
    pub completed_rounds: u8,
    pub rounds_per_cycle: u8,
    pub next_kind: Option<SessionKind>,
    pub durable_health: DurableHealth,
    pub reminder_delivery: ReminderDelivery,
    pub tasks: Vec<TaskSummary>,
    pub today: Box<TodaySummary>,
    pub recent_history: Vec<RecentSessionSummary>,
    pub action_chain: ActionChainSummary,
    pub pending_review: Option<PendingReviewSummary>,
    pub recent_chain_links: Vec<ChainLinkSummary>,
}

#[derive(Clone, Copy, Debug, PartialEq, Eq, Structural)]
pub struct ActionChainSummary {
    pub id: u64,
    pub length: u64,
}

impl Default for ActionChainSummary {
    fn default() -> (summary: Self)
        ensures
            summary.id == 0 && summary.length == 0,
    {
        ActionChainSummary { id: 0, length: 0 }
    }
}

#[derive(Clone, Debug, PartialEq, Eq)]
pub struct PendingReviewSummary {
    pub session_id: u64,
    pub actual_seconds: u64,
    pub task_id: Option<u64>,
    pub task_title: Option<String>,
}

#[derive(Clone, Debug, PartialEq, Eq)]
pub struct ChainLinkSummary {
    pub id: u64,
    pub task_title: String,
    pub actual_seconds: u64,
    pub reflection: Option<String>,
    pub chain_entry_title: Option<String>,
}

#[derive(Clone, Copy, Debug, PartialEq, Eq, Structural)]
pub struct ReminderDelivery {
    pub pending: u32,
    pub retrying: u32,
    pub delivered: u32,
    pub exhausted: u32,
}

impl Default for ReminderDelivery {
    fn default() -> (delivery: Self)
        ensures
            delivery.pending == 0 && delivery.retrying == 0 && delivery.delivered == 0
                && delivery.exhausted == 0,
    {
        ReminderDelivery { pending: 0, retrying: 0, delivered: 0, exhausted: 0 }
    }
}

#[derive(Clone, Debug, PartialEq, Eq)]
pub struct DurableHealth {
    pub state: DurableHealthState,
    pub last_successful_commit: Option<i64>,
    pub error: Option<String>,
}

#[derive(Clone, Copy, Debug, PartialEq, Eq, Structural)]
pub enum DurableHealthState {
    Healthy,
    Degraded,
}

#[derive(Clone, Debug, PartialEq, Eq)]
pub struct RecentSessionSummary {
    pub id: u64,
    pub kind: SessionKind,
    pub outcome: String,
    pub actual_seconds: u64,
    pub task_title: Option<String>,
}

#[derive(Clone, Debug, PartialEq, Eq)]
pub struct TaskSummary {
    pub id: u64,
    pub title: String,
    pub completed: bool,
    pub focus_seconds: u64,
}

#[derive(Clone, Debug, PartialEq, Eq)]
pub struct TodaySummary {
    pub focus_seconds: u64,
    pub completed_rounds: u32,
    pub seven_day_focus_seconds: [u64; 7],
    pub seven_day_dates: [String; 7],
    pub average_focus_seconds: u64,
    pub task_focus: Vec<TaskFocusSummary>,
}

impl Default for TodaySummary {
    fn default() -> (summary: Self)
        ensures
            summary.focus_seconds == 0,
            summary.completed_rounds == 0,
            summary.average_focus_seconds == 0,
            forall|i: int| 0 <= i < 7 ==> summary.seven_day_focus_seconds@[i] == 0,
            forall|i: int| 0 <= i < 7 ==> (#[trigger] summary.seven_day_dates@[i])@.len() == 0,
            summary.task_focus@.len() == 0,
    {
        TodaySummary {
            focus_seconds: 0,
            completed_rounds: 0,
            seven_day_focus_seconds: [0u64; 7],
            seven_day_dates: [
                String::new(),
                String::new(),
                String::new(),
                String::new(),
                String::new(),
                String::new(),
                String::new(),
            ],
            average_focus_seconds: 0,
            task_focus: Vec::new(),
        }
    }
}

#[derive(Clone, Debug, PartialEq, Eq)]
pub struct TaskFocusSummary {
    pub task_title: Option<String>,
    pub focus_seconds: u64,
}

/// One Task as the Task list reports it.
#[derive(Clone, Debug, PartialEq, Eq)]
pub struct TaskListEntry {
    pub id: u64,
    pub title: String,
    pub status: String,
}

/// One Session History entry as the history listing reports it.
#[derive(Clone, Debug, PartialEq, Eq)]
pub struct HistoryEntry {
    pub ended_at: i64,
    pub kind: String,
    pub outcome: String,
    pub planned_seconds: u64,
    pub actual_seconds: u64,
    pub task_id: Option<u64>,
    pub task_title: Option<String>,
}

/// The structured data that a response may carry.
#[derive(Clone, Debug, PartialEq, Eq)]
pub enum DataValue {
    CreatedTask { id: u64 },
    TaskList(Vec<TaskListEntry>),
    History(Vec<HistoryEntry>),
    Summary { focus_seconds: [u64; 7], completed_rounds: [u32; 7], average_focus_seconds: u64 },
}

#[derive(Clone, Debug, PartialEq, Eq)]
pub enum Response {
    Snapshot { snapshot: Snapshot },
    Data { value: DataValue },
    Accepted,
    Error { error: ProtocolError },
}

#[derive(Clone, Debug, PartialEq, Eq)]
pub enum ProtocolError {
    IncompatibleVersion { received: u16, supported: u16 },
    MissingIdempotencyKey,
    RequestTooLarge { max_bytes: usize },
    RequestTimeout,
    ServerBusy,
    InvalidTaskTitle { rule: TaskTitleRule },
    DurableWriteUnavailable { message: String },
    Malformed { message: String },
    Rejected { message: String },
    Disconnected { message: String },
}

#[derive(Clone, Copy, Debug, PartialEq, Eq, Structural)]
pub enum TaskTitleRule {
    Empty,
    UnsafeCharacter,
    TooLong,
    TooWide,
}

/// How reading one request frame ended.
#[derive(Clone, Debug, PartialEq, Eq)]
pub enum FrameRead {
    /// The reader returned this many bytes.
    Read(usize),
    /// The read deadline passed.
    TimedOut,
    /// Reading failed with this message.
    Failed(String),
}

/// Judges a request frame read up to a newline, with at most one byte more
/// than the limit: too large, empty, unterminated, timed out, or accepted.
pub fn frame_verdict(frame: &[u8], read: FrameRead) -> (result: Result<(), ProtocolError>)
    ensures
        match read {
            FrameRead::Read(n) => {
                &&& frame@.len() > MAX_REQUEST_FRAME_BYTES ==> result == Err::<(), ProtocolError>(
                    ProtocolError::RequestTooLarge { max_bytes: MAX_REQUEST_FRAME_BYTES },
                )
                &&& frame@.len() <= MAX_REQUEST_FRAME_BYTES && n == 0 ==> (result matches Err(
                    ProtocolError::Malformed { message },
                ) && message@ == "empty request"@)
                &&& frame@.len() <= MAX_REQUEST_FRAME_BYTES && n != 0 && (frame@.len() == 0
                    || frame@.last() != 10) ==> (result matches Err(
                    ProtocolError::Malformed { message },
                ) && message@ == "request must end with a newline"@)
                &&& frame@.len() <= MAX_REQUEST_FRAME_BYTES && n != 0 && frame@.len() > 0
                    && frame@.last() == 10 ==> result is Ok
            },
            FrameRead::TimedOut => result == Err::<(), ProtocolError>(
                ProtocolError::RequestTimeout,
            ),
            FrameRead::Failed(m) => result matches Err(ProtocolError::Malformed { message })
                && message@ == m@,
        },
{
    match read {
        FrameRead::Read(n) => {
            if frame.len() > MAX_REQUEST_FRAME_BYTES {
                Err(ProtocolError::RequestTooLarge { max_bytes: MAX_REQUEST_FRAME_BYTES })
            } else if n == 0 {
                Err(ProtocolError::Malformed { message: String::from_str("empty request") })
            } else if frame.len() == 0 || frame[frame.len() - 1] != 10u8 {
                Err(
                    ProtocolError::Malformed {
                        message: String::from_str("request must end with a newline"),
                    },
                )
            } else {
                Ok(())
            }
        },
        FrameRead::TimedOut => Err(ProtocolError::RequestTimeout),
        FrameRead::Failed(message) => Err(ProtocolError::Malformed { message }),
    }
}

/// A request of the current version is refused for a missing identity
/// exactly when it would change state without one; reads never need one.
pub proof fn law_only_mutations_need_an_identity(request: Request)
    requires
        request.version == PROTOCOL_VERSION,
    ensures
        !command_mutates(request.command) ==> request_refusal(request) is None,
        command_mutates(request.command) ==> (request_refusal(request) is None <==> (
        request.idempotency_key matches Some(k) && k@.len() > 0)),
{
}

} // verus!
