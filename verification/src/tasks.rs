//! Tasks, their titles, and Session History.

use crate::domain::{saturating_add_u64, DomainEvent, SessionKind, SessionOutcome, TaskId};
use crate::text::{
    chars_of, concat3, control, debug_string, debug_text, decimal, decimal_string, display_width, is_control, nfc, nfc_string, str_width, trim, trim_chars,
    trim_str,
};
use vstd::prelude::*;

verus! {

broadcast use vstd::seq_lib::group_seq_properties;

/// The longest Task title, in characters.
pub const MAX_TITLE_CHARS: usize = 256;

/// The widest Task title, in terminal columns.
pub const MAX_TITLE_COLUMNS: usize = 120;

#[derive(Clone, Copy, Debug, PartialEq, Eq, Structural)]
pub enum TaskStatus {
    Open,
    Completed,
}

#[derive(Clone, Debug, PartialEq, Eq)]
pub enum TaskError {
    EmptyTitle,
    UnsafeTitleCharacter,
    TitleTooLong { max_chars: usize },
    TitleTooWide { max_columns: usize },
    IdExhausted,
    NotFound(TaskId),
    TitleNotFound(String),
    AmbiguousTitle(Vec<TaskId>),
    ReferencedByCurrentSession(TaskId),
}

/// `TaskId(n)`, as an identity is written in an error.
pub open spec fn task_id_text(id: TaskId) -> Seq<char> {
    "TaskId("@ + decimal(id.value() as nat) + ")"@
}

/// The identities, each written as `TaskId(n)`, separated by `, `.
pub open spec fn task_ids_text(ids: Seq<TaskId>) -> Seq<char>
    decreases ids.len(),
{
    if ids.len() == 0 {
        Seq::empty()
    } else if ids.len() == 1 {
        task_id_text(ids[0])
    } else {
        task_ids_text(ids.drop_last()) + ", "@ + task_id_text(ids.last())
    }
}

/// The text of a Task error: its variant and fields, as Rust's `Debug`
/// writes them.
pub open spec fn task_error_text(e: TaskError) -> Seq<char> {
    match e {
        TaskError::EmptyTitle => "EmptyTitle"@,
        TaskError::UnsafeTitleCharacter => "UnsafeTitleCharacter"@,
        TaskError::TitleTooLong { max_chars } => "TitleTooLong { max_chars: "@ + decimal(
            max_chars as nat,
        ) + " }"@,
        TaskError::TitleTooWide { max_columns } => "TitleTooWide { max_columns: "@ + decimal(
            max_columns as nat,
        ) + " }"@,
        TaskError::IdExhausted => "IdExhausted"@,
        TaskError::NotFound(id) => "NotFound("@ + task_id_text(id) + ")"@,
        TaskError::TitleNotFound(t) => "TitleNotFound("@ + debug_text(t@) + ")"@,
        TaskError::AmbiguousTitle(ids) => "AmbiguousTitle(["@ + task_ids_text(ids@) + "])"@,
        TaskError::ReferencedByCurrentSession(id) => "ReferencedByCurrentSession("@
            + task_id_text(id) + ")"@,
    }
}

fn task_id_string(id: TaskId) -> (text: String)
    ensures
        text@ == task_id_text(id),
{
    let digits = decimal_string(id.get());
    concat3("TaskId(", digits.as_str(), ")")
}

impl TaskError {
    /// The text of this error, as it is shown to users.
    pub fn message(&self) -> (text: String)
        ensures
            text@ == task_error_text(*self),
    {
        match self {
            TaskError::EmptyTitle => String::from_str("EmptyTitle"),
            TaskError::UnsafeTitleCharacter => String::from_str("UnsafeTitleCharacter"),
            TaskError::TitleTooLong { max_chars } => {
                let digits = decimal_string(*max_chars as u64);
                concat3("TitleTooLong { max_chars: ", digits.as_str(), " }")
            },
            TaskError::TitleTooWide { max_columns } => {
                let digits = decimal_string(*max_columns as u64);
                concat3("TitleTooWide { max_columns: ", digits.as_str(), " }")
            },
            TaskError::IdExhausted => String::from_str("IdExhausted"),
            TaskError::NotFound(id) => {
                let inner = task_id_string(*id);
                concat3("NotFound(", inner.as_str(), ")")
            },
            TaskError::TitleNotFound(t) => {
                let inner = debug_string(t.as_str());
                concat3("TitleNotFound(", inner.as_str(), ")")
            },
            TaskError::AmbiguousTitle(ids) => {
                let mut listed = String::new();
                let mut i: usize = 0;
                while i < ids.len()
                    invariant
                        i <= ids@.len(),
                        listed@ == task_ids_text(ids@.subrange(0, i as int)),
                    decreases ids@.len() - i,
                {
                    let one = task_id_string(ids[i]);
                    let ghost before = listed@;
                    listed = if i == 0 {
                        one
                    } else {
                        concat3(listed.as_str(), ", ", one.as_str())
                    };
                    i = i + 1;
                    assert(ids@.subrange(0, i as int).drop_last() =~= ids@.subrange(0, i as int - 1));
                    proof {
                        if i == 1 {
                            assert(ids@.subrange(0, 1).len() == 1);
                        }
                    }
                }
                assert(ids@.subrange(0, ids@.len() as int) =~= ids@);
                concat3("AmbiguousTitle([", listed.as_str(), "])")
            },
            TaskError::ReferencedByCurrentSession(id) => {
                let inner = task_id_string(*id);
                concat3("ReferencedByCurrentSession(", inner.as_str(), ")")
            },
        }
    }
}

/// Characters that would let a title disturb a terminal: control
/// characters, bidirectional overrides, invisible separators and line breaks.
pub open spec fn is_unsafe_title_char(c: char) -> bool {
    is_control(c) || c == '\u{61c}' || c == '\u{180e}' || ('\u{200b}' <= c <= '\u{200c}') || (
    '\u{200e}' <= c <= '\u{200f}') || ('\u{2028}' <= c <= '\u{202e}') || ('\u{2060}' <= c
        <= '\u{2064}') || ('\u{2066}' <= c <= '\u{2069}') || c == '\u{feff}' || ('\u{fff9}' <= c
        <= '\u{fffb}')
}

pub fn unsafe_title_char(c: char) -> (b: bool)
    ensures
        b == is_unsafe_title_char(c),
{
    control(c) || c == '\u{61c}' || c == '\u{180e}' || ('\u{200b}' <= c && c <= '\u{200c}') || (
    '\u{200e}' <= c && c <= '\u{200f}') || ('\u{2028}' <= c && c <= '\u{202e}') || ('\u{2060}'
        <= c && c <= '\u{2064}') || ('\u{2066}' <= c && c <= '\u{2069}') || c == '\u{feff}' || (
    '\u{fff9}' <= c && c <= '\u{fffb}')
}

/// The first rule that a stored title breaks, if any.
pub open spec fn title_violation(t: Seq<char>) -> Option<TaskError> {
    if trim(t).len() == 0 {
        Some(TaskError::EmptyTitle)
    } else if exists|i: int| 0 <= i < t.len() && is_unsafe_title_char(#[trigger] t[i]) {
        Some(TaskError::UnsafeTitleCharacter)
    } else if t.len() > MAX_TITLE_CHARS {
        Some(TaskError::TitleTooLong { max_chars: MAX_TITLE_CHARS })
    } else if display_width(t) > MAX_TITLE_COLUMNS {
        Some(TaskError::TitleTooWide { max_columns: MAX_TITLE_COLUMNS })
    } else {
        None
    }
}

/// The title that a user-supplied `raw` title is stored as: trimmed and
/// canonically composed, provided that it breaks no title rule.
pub open spec fn normalized_title_spec(raw: Seq<char>) -> Result<Seq<char>, TaskError> {
    if trim(raw).len() == 0 {
        Err(TaskError::EmptyTitle)
    } else {
        match title_violation(nfc(trim(raw))) {
            Some(e) => Err(e),
            None => Ok(nfc(trim(raw))),
        }
    }
}

/// Checks a title against the title rules without changing it.
pub fn check_title(t: &str) -> (result: Result<(), TaskError>)
    ensures
        match result {
            Ok(_) => title_violation(t@) is None,
            Err(e) => title_violation(t@) == Some(e),
        },
{
    let chars = chars_of(t);
    let trimmed = trim_chars(chars.as_slice());
    if trimmed.len() == 0 {
        return Err(TaskError::EmptyTitle);
    }
    let mut i: usize = 0;
    while i < chars.len()
        invariant
            i <= chars@.len(),
            chars@ == t@,
            trim(t@).len() != 0,
            forall|j: int| 0 <= j < i ==> !is_unsafe_title_char(#[trigger] t@[j]),
        decreases chars@.len() - i,
    {
        if unsafe_title_char(chars[i]) {
            assert(is_unsafe_title_char(t@[i as int]));
            return Err(TaskError::UnsafeTitleCharacter);
        }
        i = i + 1;
    }
    if chars.len() > MAX_TITLE_CHARS {
        return Err(TaskError::TitleTooLong { max_chars: MAX_TITLE_CHARS });
    }
    if str_width(t) > MAX_TITLE_COLUMNS {
        return Err(TaskError::TitleTooWide { max_columns: MAX_TITLE_COLUMNS });
    }
    Ok(())
}

/// Trims and canonically composes a user-supplied title and checks it.
pub fn normalized_title(raw: &str) -> (result: Result<String, TaskError>)
    ensures
        match result {
            Ok(t) => normalized_title_spec(raw@) == Ok::<Seq<char>, TaskError>(t@),
            Err(e) => normalized_title_spec(raw@) == Err::<Seq<char>, TaskError>(e),
        },
{
    let trimmed = trim_str(raw);
    if trimmed.as_str().is_empty() {
        return Err(TaskError::EmptyTitle);
    }
    let composed = nfc_string(trimmed.as_str());
    match check_title(composed.as_str()) {
        Ok(()) => Ok(composed),
        Err(e) => Err(e),
    }
}

/// What the library knows of a Task: its identity, title and status.
pub type TaskModel = (TaskId, Seq<char>, TaskStatus);

#[derive(Clone, Debug, PartialEq, Eq)]
pub struct Task {
    id: TaskId,
    title: String,
    status: TaskStatus,
}

impl View for Task {
    type V = TaskModel;

    closed spec fn view(&self) -> TaskModel {
        (self.id, self.title@, self.status)
    }
}

impl Task {
    pub fn id(&self) -> (id: TaskId)
        ensures
            id == self@.0,
    {
        self.id
    }

    pub fn title(&self) -> (title: &str)
        ensures
            title@ == self@.1,
    {
        self.title.as_str()
    }

    pub fn status(&self) -> (status: TaskStatus)
        ensures
            status == self@.2,
    {
        self.status
    }

    fn duplicate(&self) -> (copy: Task)
        ensures
            copy@ == self@,
    {
        Task { id: self.id, title: self.title.clone(), status: self.status }
    }
}

/// Whether `i` is the first position in `s` whose Task has identity `id`.
pub open spec fn is_first_index(s: Seq<TaskModel>, id: TaskId, i: int) -> bool {
    &&& 0 <= i < s.len()
    &&& s[i].0 == id
    &&& forall|j: int| 0 <= j < i ==> (#[trigger] s[j]).0 != id
}

/// Whether some Task in `s` has identity `id`.
pub open spec fn has_id(s: Seq<TaskModel>, id: TaskId) -> bool {
    exists|i: int| 0 <= i < s.len() && (#[trigger] s[i]).0 == id
}

/// The identities of the Tasks in `s` whose title is `title`, in order.
pub open spec fn ids_titled(s: Seq<TaskModel>, title: Seq<char>) -> Seq<TaskId> {
    s.filter(|e: TaskModel| e.1 == title).map_values(|e: TaskModel| e.0)
}

pub proof fn lemma_first_index_unique(s: Seq<TaskModel>, id: TaskId, i: int, k: int)
    requires
        is_first_index(s, id, i),
        is_first_index(s, id, k),
    ensures
        i == k,
{
    if i < k {
        assert(s[i].0 != id);
    } else if k < i {
        assert(s[k].0 != id);
    }
}

/// The first position whose Task has identity `id`, in a sequence of Tasks.
fn position(tasks: &Vec<Task>, id: TaskId) -> (index: Option<usize>)
    ensures
        match index {
            Some(i) => is_first_index(tasks@.map_values(|t: Task| t@), id, i as int),
            None => !has_id(tasks@.map_values(|t: Task| t@), id),
        },
{
    let ghost s = tasks@.map_values(|t: Task| t@);
    let mut i: usize = 0;
    while i < tasks.len()
        invariant
            i <= tasks@.len(),
            s == tasks@.map_values(|t: Task| t@),
            forall|j: int| 0 <= j < i ==> (#[trigger] s[j]).0 != id,
        decreases tasks@.len() - i,
    {
        if tasks[i].id.get() == id.get() {
            proof {
                TaskId::lemma_value_injective(tasks@[i as int].id, id);
            }
            return Some(i);
        }
        proof {
            TaskId::lemma_value_injective(tasks@[i as int].id, id);
        }
        i = i + 1;
    }
    None
}

#[derive(Debug, PartialEq, Eq)]
pub struct TaskStore {
    tasks: Vec<Task>,
    next_id: u64,
}

impl View for TaskStore {
    type V = Seq<TaskModel>;

    closed spec fn view(&self) -> Seq<TaskModel> {
        self.tasks@.map_values(|t: Task| t@)
    }
}

/// The Tasks after the title of the one at `i` became `title`.
pub open spec fn with_title(s: Seq<TaskModel>, i: int, title: Seq<char>) -> Seq<TaskModel> {
    s.update(i, (s[i].0, title, s[i].2))
}

/// The Tasks after the status of the one at `i` became `status`.
pub open spec fn with_status(s: Seq<TaskModel>, i: int, status: TaskStatus) -> Seq<TaskModel> {
    s.update(i, (s[i].0, s[i].1, status))
}

impl TaskStore {
    pub closed spec fn spec_next_id(&self) -> u64 {
        self.next_id
    }

    pub fn new() -> (store: Self)
        ensures
            store@ == Seq::<TaskModel>::empty(),
            store.spec_next_id() == 1,
            store_well_formed(store@, store.spec_next_id()),
    {
        TaskStore { tasks: Vec::new(), next_id: 1 }
    }

    /// Restores stored Tasks, checking each title without changing it.
    pub fn restore(tasks: Vec<(TaskId, String, TaskStatus)>, next_id: u64) -> (result: Result<
        Self,
        TaskError,
    >)
        ensures
            next_id == 0 ==> result == Err::<Self, TaskError>(TaskError::IdExhausted),
            next_id != 0 ==> match result {
                Ok(store) => store@ == tasks@.map_values(
                    |e: (TaskId, String, TaskStatus)| (e.0, e.1@, e.2),
                ) && store.spec_next_id() == next_id && forall|i: int|
                    0 <= i < tasks@.len() ==> title_violation((#[trigger] tasks@[i]).1@) is None,
                Err(e) => exists|i: int|
                    0 <= i < tasks@.len() && title_violation((#[trigger] tasks@[i]).1@) == Some(e)
                        && forall|j: int|
                        0 <= j < i ==> title_violation((#[trigger] tasks@[j]).1@) is None,
            },
    {
        if next_id == 0 {
            return Err(TaskError::IdExhausted);
        }
        let mut restored: Vec<Task> = Vec::new();
        let mut i: usize = 0;
        while i < tasks.len()
            invariant
                next_id != 0,
                i <= tasks@.len(),
                restored@.len() == i,
                forall|j: int|
                    0 <= j < i ==> (#[trigger] restored@[j])@ == ((tasks@[j]).0, (tasks@[j]).1@, (
                    tasks@[j]).2),
                forall|j: int| 0 <= j < i ==> title_violation((#[trigger] tasks@[j]).1@) is None,
            decreases tasks@.len() - i,
        {
            let entry = &tasks[i];
            match check_title(entry.1.as_str()) {
                Ok(()) => {},
                Err(e) => {
                    assert(title_violation(tasks@[i as int].1@) == Some(e));
                    return Err(e);
                },
            }
            restored.push(Task { id: entry.0, title: entry.1.clone(), status: entry.2 });
            i = i + 1;
        }
        let store = TaskStore { tasks: restored, next_id };
        assert(store@ =~= tasks@.map_values(|e: (TaskId, String, TaskStatus)| (e.0, e.1@, e.2)));
        Ok(store)
    }

    pub fn next_id(&self) -> (id: u64)
        ensures
            id == self.spec_next_id(),
    {
        self.next_id
    }

    /// Creates an open Task with a fresh identity.
    pub fn create(&mut self, title: &str) -> (result: Result<TaskId, TaskError>)
        ensures
            store_well_formed(old(self)@, old(self).spec_next_id()) ==> store_well_formed(
                final(self)@,
                final(self).spec_next_id(),
            ),
            match normalized_title_spec(title@) {
                Err(e) => result == Err::<TaskId, TaskError>(e) && final(self)@ == old(self)@
                    && final(self).spec_next_id() == old(self).spec_next_id(),
                Ok(t) => if old(self).spec_next_id() == u64::MAX {
                    result == Err::<TaskId, TaskError>(TaskError::IdExhausted) && final(self)@
                        == old(self)@ && final(self).spec_next_id() == old(self).spec_next_id()
                } else {
                    &&& result matches Ok(id) && id.value() == old(self).spec_next_id()
                    &&& final(self)@ == old(self)@.push((result->Ok_0, t, TaskStatus::Open))
                    &&& final(self).spec_next_id() == old(self).spec_next_id() + 1
                },
            },
    {
        let title = match normalized_title(title) {
            Ok(t) => t,
            Err(e) => {
                return Err(e);
            },
        };
        if self.next_id == u64::MAX {
            return Err(TaskError::IdExhausted);
        }
        let id = TaskId::new(self.next_id);
        self.next_id = self.next_id + 1;
        self.tasks.push(Task { id, title, status: TaskStatus::Open });
        assert(self@ =~= old(self)@.push((id, title@, TaskStatus::Open)));
        proof {
            if store_well_formed(old(self)@, old(self).next_id) {
                law_store_changes_keep_it_well_formed(
                    old(self)@,
                    old(self).next_id,
                    0,
                    id,
                    title@,
                    TaskStatus::Open,
                );
            }
        }
        Ok(id)
    }

    pub fn all(&self) -> (tasks: &[Task])
        ensures
            tasks@.map_values(|t: Task| t@) == self@,
    {
        self.tasks.as_slice()
    }

    /// The first Task with identity `id`.
    pub fn get(&self, id: TaskId) -> (result: Result<&Task, TaskError>)
        ensures
            match result {
                Ok(task) => exists|i: int| is_first_index(self@, id, i) && task@ == self@[i],
                Err(e) => !has_id(self@, id) && e == TaskError::NotFound(id),
            },
    {
        match position(&self.tasks, id) {
            Some(i) => {
                assert(is_first_index(self@, id, i as int) && self.tasks@[i as int]@ == self@[i as int]);
                Ok(&self.tasks[i])
            },
            None => Err(TaskError::NotFound(id)),
        }
    }

    /// The identity of the only Task titled `title` once it is normalized; a
    /// title that normalizes to no valid title names no Task.
    pub fn resolve_title(&self, title: &str) -> (result: Result<TaskId, TaskError>)
        ensures
            match normalized_title_spec(title@) {
                Err(_) => result matches Err(TaskError::TitleNotFound(t)) && t@ == title@,
                Ok(key) => {
                    let ids = ids_titled(self@, key);
                    &&& ids.len() == 0 ==> (result matches Err(TaskError::TitleNotFound(t))
                        && t@ == title@)
                    &&& ids.len() == 1 ==> result == Ok::<TaskId, TaskError>(ids[0])
                    &&& ids.len() > 1 ==> (result matches Err(TaskError::AmbiguousTitle(v)) && v@
                        == ids)
                },
            },
    {
        let key = match normalized_title(title) {
            Ok(k) => k,
            Err(_) => {
                return Err(TaskError::TitleNotFound(String::from_str(title)));
            },
        };
        let ghost s = self@;
        let mut matches: Vec<TaskId> = Vec::new();
        let mut i: usize = 0;
        while i < self.tasks.len()
            invariant
                i <= self.tasks@.len(),
                s == self@,
                s == self.tasks@.map_values(|t: Task| t@),
                matches@ == ids_titled(s.subrange(0, i as int), key@),
            decreases self.tasks@.len() - i,
        {
            proof {
                assert(s.subrange(0, i as int + 1).drop_last() =~= s.subrange(0, i as int));
                reveal_with_fuel(Seq::filter, 1);
            }
            if self.tasks[i].title == key {
                matches.push(self.tasks[i].id);
            }
            i = i + 1;
            proof {
                let pred = |e: TaskModel| e.1 == key@;
                let sub = s.subrange(0, i as int);
                assert(sub.drop_last() =~= s.subrange(0, i as int - 1));
                assert(matches@ =~= ids_titled(sub, key@));
            }
        }
        assert(s.subrange(0, s.len() as int) =~= s);
        if matches.len() == 0 {
            Err(TaskError::TitleNotFound(String::from_str(title)))
        } else if matches.len() == 1 {
            Ok(matches[0])
        } else {
            Err(TaskError::AmbiguousTitle(matches))
        }
    }

    /// Renames the first Task with identity `id`.
    pub fn rename(&mut self, id: TaskId, title: &str) -> (result: Result<(), TaskError>)
        ensures
            store_well_formed(old(self)@, old(self).spec_next_id()) ==> store_well_formed(
                final(self)@,
                final(self).spec_next_id(),
            ),
            final(self).spec_next_id() == old(self).spec_next_id(),
            match normalized_title_spec(title@) {
                Err(e) => result == Err::<(), TaskError>(e) && final(self)@ == old(self)@,
                Ok(t) => if has_id(old(self)@, id) {
                    result is Ok && exists|i: int|
                        is_first_index(old(self)@, id, i) && final(self)@ == with_title(
                            old(self)@,
                            i,
                            t,
                        )
                } else {
                    result == Err::<(), TaskError>(TaskError::NotFound(id)) && final(self)@ == old(
                        self,
                    )@
                },
            },
    {
        let title = match normalized_title(title) {
            Ok(t) => t,
            Err(e) => {
                return Err(e);
            },
        };
        match position(&self.tasks, id) {
            None => Err(TaskError::NotFound(id)),
            Some(i) => {
                let status = self.tasks[i].status;
                let ghost t = title@;
                self.tasks.set(i, Task { id: self.tasks[i].id, title, status });
                assert(self@ =~= with_title(old(self)@, i as int, t));
                proof {
                    if store_well_formed(old(self)@, old(self).next_id) {
                        law_store_changes_keep_it_well_formed(
                            old(self)@,
                            old(self).next_id,
                            i as int,
                            id,
                            t,
                            status,
                        );
                    }
                }
                Ok(())
            },
        }
    }

    fn set_status(&mut self, id: TaskId, status: TaskStatus) -> (result: Result<(), TaskError>)
        ensures
            store_well_formed(old(self)@, old(self).spec_next_id()) ==> store_well_formed(
                final(self)@,
                final(self).spec_next_id(),
            ),
            final(self).spec_next_id() == old(self).spec_next_id(),
            if has_id(old(self)@, id) {
                result is Ok && exists|i: int|
                    is_first_index(old(self)@, id, i) && final(self)@ == with_status(
                        old(self)@,
                        i,
                        status,
                    )
            } else {
                result == Err::<(), TaskError>(TaskError::NotFound(id)) && final(self)@ == old(
                    self,
                )@
            },
    {
        match position(&self.tasks, id) {
            None => Err(TaskError::NotFound(id)),
            Some(i) => {
                let task = self.tasks[i].duplicate();
                self.tasks.set(i, Task { id: task.id, title: task.title, status });
                assert(self@ =~= with_status(old(self)@, i as int, status));
                proof {
                    if store_well_formed(old(self)@, old(self).next_id) {
                        law_store_changes_keep_it_well_formed(
                            old(self)@,
                            old(self).next_id,
                            i as int,
                            id,
                            Seq::empty(),
                            status,
                        );
                    }
                }
                Ok(())
            },
        }
    }

    /// Marks the first Task with identity `id` as completed.
    pub fn complete(&mut self, id: TaskId) -> (result: Result<(), TaskError>)
        ensures
            store_well_formed(old(self)@, old(self).spec_next_id()) ==> store_well_formed(
                final(self)@,
                final(self).spec_next_id(),
            ),
            final(self).spec_next_id() == old(self).spec_next_id(),
            if has_id(old(self)@, id) {
                result is Ok && exists|i: int|
                    is_first_index(old(self)@, id, i) && final(self)@ == with_status(
                        old(self)@,
                        i,
                        TaskStatus::Completed,
                    )
            } else {
                result == Err::<(), TaskError>(TaskError::NotFound(id)) && final(self)@ == old(
                    self,
                )@
            },
    {
        self.set_status(id, TaskStatus::Completed)
    }

    /// Marks the first Task with identity `id` as open again.
    pub fn reopen(&mut self, id: TaskId) -> (result: Result<(), TaskError>)
        ensures
            store_well_formed(old(self)@, old(self).spec_next_id()) ==> store_well_formed(
                final(self)@,
                final(self).spec_next_id(),
            ),
            final(self).spec_next_id() == old(self).spec_next_id(),
            if has_id(old(self)@, id) {
                result is Ok && exists|i: int|
                    is_first_index(old(self)@, id, i) && final(self)@ == with_status(
                        old(self)@,
                        i,
                        TaskStatus::Open,
                    )
            } else {
                result == Err::<(), TaskError>(TaskError::NotFound(id)) && final(self)@ == old(
                    self,
                )@
            },
    {
        self.set_status(id, TaskStatus::Open)
    }

    /// Deletes the first Task with identity `id`, unless the Current Session
    /// refers to it.
    pub fn delete(&mut self, id: TaskId, current_task: Option<TaskId>) -> (result: Result<
        Task,
        TaskError,
    >)
        ensures
            store_well_formed(old(self)@, old(self).spec_next_id()) ==> store_well_formed(
                final(self)@,
                final(self).spec_next_id(),
            ),
            final(self).spec_next_id() == old(self).spec_next_id(),
            current_task == Some(id) ==> result == Err::<Task, TaskError>(
                TaskError::ReferencedByCurrentSession(id),
            ) && final(self)@ == old(self)@,
            current_task != Some(id) && !has_id(old(self)@, id) ==> result == Err::<
                Task,
                TaskError,
            >(TaskError::NotFound(id)) && final(self)@ == old(self)@,
            current_task != Some(id) && has_id(old(self)@, id) ==> (result matches Ok(task)
                && exists|i: int|
                is_first_index(old(self)@, id, i) && task@ == old(self)@[i] && final(self)@ == old(
                    self,
                )@.remove(i)),
    {
        let referenced = match current_task {
            Some(current) => current.get() == id.get(),
            None => false,
        };
        proof {
            if current_task is Some {
                TaskId::lemma_value_injective(current_task->Some_0, id);
            }
        }
        if referenced {
            return Err(TaskError::ReferencedByCurrentSession(id));
        }
        match position(&self.tasks, id) {
            None => Err(TaskError::NotFound(id)),
            Some(i) => {
                let task = self.tasks.remove(i);
                assert(self@ =~= old(self)@.remove(i as int));
                proof {
                    if store_well_formed(old(self)@, old(self).next_id) {
                        law_store_changes_keep_it_well_formed(
                            old(self)@,
                            old(self).next_id,
                            i as int,
                            id,
                            Seq::empty(),
                            TaskStatus::Open,
                        );
                    }
                }
                Ok(task)
            },
        }
    }
}

impl Default for TaskStore {
    /// An empty store whose identities start at zero.
    fn default() -> (store: Self)
        ensures
            store@ == Seq::<TaskModel>::empty(),
            store.spec_next_id() == 0,
    {
        TaskStore { tasks: Vec::new(), next_id: 0 }
    }
}

// ---------------------------------------------------------------------------
// Session History.
// ---------------------------------------------------------------------------

#[derive(Clone, Debug, PartialEq, Eq)]
pub struct SessionRecord {
    pub id: u64,
    pub ended_at: i64,
    pub kind: SessionKind,
    pub outcome: SessionOutcome,
    pub planned_seconds: u64,
    pub actual_seconds: u64,
    pub task_id: Option<TaskId>,
    pub task_title: Option<String>,
}

impl SessionRecord {
    /// Records an ended Session with a snapshot of its Task's current title.
    pub fn from_event(
        event: DomainEvent,
        id: u64,
        ended_at: i64,
        planned_seconds: u64,
        tasks: &TaskStore,
    ) -> (record: Self)
        ensures
            event matches DomainEvent::SessionEnded { kind, outcome, actual_seconds, task_id } && {
                &&& record.id == id
                &&& record.ended_at == ended_at
                &&& record.kind == kind
                &&& record.outcome == outcome
                &&& record.planned_seconds == planned_seconds
                &&& record.actual_seconds == actual_seconds
                &&& record.task_id == task_id
                &&& (record.task_title is None <==> (task_id is None || !has_id(
                    tasks@,
                    task_id->Some_0,
                )))
                &&& (record.task_title matches Some(t) ==> exists|i: int|
                    is_first_index(tasks@, task_id->Some_0, i) && t@ == tasks@[i].1)
            },
    {
        let DomainEvent::SessionEnded { kind, outcome, actual_seconds, task_id } = event;
        let task_title = match task_id {
            Some(tid) => match tasks.get(tid) {
                Ok(task) => Some(String::from_str(task.title())),
                Err(_) => None,
            },
            None => None,
        };
        SessionRecord {
            id,
            ended_at,
            kind,
            outcome,
            planned_seconds,
            actual_seconds,
            task_id,
            task_title,
        }
    }

    /// An equal copy of this record.
    pub fn duplicate(&self) -> (copy: Self)
        ensures
            copy == *self,
    {
        let task_title = match &self.task_title {
            Some(t) => Some(t.clone()),
            None => None,
        };
        SessionRecord {
            id: self.id,
            ended_at: self.ended_at,
            kind: self.kind,
            outcome: self.outcome,
            planned_seconds: self.planned_seconds,
            actual_seconds: self.actual_seconds,
            task_id: self.task_id,
            task_title,
        }
    }
}

#[derive(Debug, PartialEq, Eq)]
pub struct History {
    records: Vec<SessionRecord>,
}

impl View for History {
    type V = Seq<SessionRecord>;

    closed spec fn view(&self) -> Seq<SessionRecord> {
        self.records@
    }
}

/// The records that deleting the identities `ids` keeps, in order.
pub open spec fn kept_records(records: Seq<SessionRecord>, ids: Seq<u64>) -> Seq<SessionRecord> {
    records.filter(|r: SessionRecord| !ids.contains(r.id))
}

/// The first local day `d` in `k..7` with `starts[d] <= ended < starts[d + 1]`, or -1.
pub open spec fn day_from(ended: i64, starts: Seq<i64>, k: int) -> int
    decreases 7 - k,
{
    if k >= 7 || k < 0 {
        -1
    } else if starts[k] <= ended && ended < starts[k + 1] {
        k
    } else {
        day_from(ended, starts, k + 1)
    }
}

/// The local day, of the seven whose starts are given, on which a Session ended.
pub open spec fn day_of(ended: i64, starts: Seq<i64>) -> int {
    day_from(ended, starts, 0)
}

/// The focus seconds recorded on day `d`, added up with saturation.
pub open spec fn focus_on_day(records: Seq<SessionRecord>, starts: Seq<i64>, d: int) -> u64
    decreases records.len(),
{
    if records.len() == 0 {
        0
    } else {
        let before = focus_on_day(records.drop_last(), starts, d);
        let r = records.last();
        if r.kind == SessionKind::Focus && day_of(r.ended_at, starts) == d {
            saturating_add_u64(before, r.actual_seconds)
        } else {
            before
        }
    }
}

/// The Completed Rounds recorded on day `d`, counted with saturation.
pub open spec fn rounds_on_day(records: Seq<SessionRecord>, starts: Seq<i64>, d: int) -> u32
    decreases records.len(),
{
    if records.len() == 0 {
        0
    } else {
        let before = rounds_on_day(records.drop_last(), starts, d);
        let r = records.last();
        if r.kind == SessionKind::Focus && r.outcome == SessionOutcome::Completed && day_of(
            r.ended_at,
            starts,
        ) == d {
            if before == u32::MAX {
                before
            } else {
                (before + 1) as u32
            }
        } else {
            before
        }
    }
}

/// The focus seconds attributed to Task `id`, added up with saturation.
pub open spec fn task_focus(records: Seq<SessionRecord>, id: TaskId) -> u64
    decreases records.len(),
{
    if records.len() == 0 {
        0
    } else {
        let before = task_focus(records.drop_last(), id);
        let r = records.last();
        if r.kind == SessionKind::Focus && r.task_id == Some(id) {
            saturating_add_u64(before, r.actual_seconds)
        } else {
            before
        }
    }
}

proof fn lemma_day_from_skip(ended: i64, starts: Seq<i64>, k: int)
    requires
        0 <= k < 7,
        !(starts[k] <= ended && ended < starts[k + 1]),
    ensures
        day_from(ended, starts, k) == day_from(ended, starts, k + 1),
{
}

impl History {
    pub fn new() -> (history: Self)
        ensures
            history@ == Seq::<SessionRecord>::empty(),
    {
        History { records: Vec::new() }
    }

    pub fn restore(records: Vec<SessionRecord>) -> (history: Self)
        ensures
            history@ == records@,
    {
        History { records }
    }

    pub fn push(&mut self, record: SessionRecord)
        ensures
            final(self)@ == old(self)@.push(record),
    {
        self.records.push(record);
    }

    /// Deletes every record whose identity is in `ids`; returns how many went.
    pub fn delete(&mut self, ids: &[u64]) -> (removed: usize)
        ensures
            final(self)@ == kept_records(old(self)@, ids@),
            removed == old(self)@.len() - final(self)@.len(),
    {
        let ghost all = self@;
        let mut kept: Vec<SessionRecord> = Vec::new();
        let mut i: usize = 0;
        while i < self.records.len()
            invariant
                i <= self.records@.len(),
                all == self.records@,
                kept@ == kept_records(all.subrange(0, i as int), ids@),
            decreases self.records@.len() - i,
        {
            let id = self.records[i].id;
            let mut found = false;
            let mut k: usize = 0;
            while k < ids.len()
                invariant
                    k <= ids@.len(),
                    found <==> exists|j: int| 0 <= j < k && ids@[j] == id,
                decreases ids@.len() - k,
            {
                if ids[k] == id {
                    found = true;
                }
                k = k + 1;
            }
            proof {
                assert(found <==> ids@.contains(id));
                let sub = all.subrange(0, i as int + 1);
                assert(sub.drop_last() =~= all.subrange(0, i as int));
                reveal_with_fuel(Seq::filter, 1);
            }
            if !found {
                kept.push(self.records[i].duplicate());
            }
            i = i + 1;
            proof {
                let sub = all.subrange(0, i as int);
                assert(sub.drop_last() =~= all.subrange(0, i as int - 1));
                assert(kept@ =~= kept_records(sub, ids@));
            }
        }
        assert(all.subrange(0, all.len() as int) =~= all);
        proof {
            all.lemma_filter_len(|r: SessionRecord| !ids@.contains(r.id));
        }
        let before = self.records.len();
        self.records = kept;
        before - self.records.len()
    }

    pub fn records(&self) -> (records: &[SessionRecord])
        ensures
            records@ == self@,
    {
        self.records.as_slice()
    }

    /// Focus time and Completed Rounds on each of seven local days, where day
    /// `d` spans `day_starts[d]` up to `day_starts[d + 1]`.
    pub fn summarize(&self, day_starts: [i64; 8]) -> (summary: DailySummary)
        ensures
            forall|d: int|
                0 <= d < 7 ==> summary.focus_seconds@[d] == focus_on_day(
                    self@,
                    day_starts@,
                    d,
                ),
            forall|d: int|
                0 <= d < 7 ==> summary.completed_rounds@[d] == rounds_on_day(
                    self@,
                    day_starts@,
                    d,
                ),
    {
        let mut focus_seconds: [u64; 7] = [0u64; 7];
        let mut completed_rounds: [u32; 7] = [0u32; 7];
        let ghost all = self@;
        let mut i: usize = 0;
        while i < self.records.len()
            invariant
                i <= self.records@.len(),
                all == self.records@,
                forall|d: int|
                    0 <= d < 7 ==> focus_seconds@[d] == focus_on_day(
                        all.subrange(0, i as int),
                        day_starts@,
                        d,
                    ),
                forall|d: int|
                    0 <= d < 7 ==> completed_rounds@[d] == rounds_on_day(
                        all.subrange(0, i as int),
                        day_starts@,
                        d,
                    ),
            decreases self.records@.len() - i,
        {
            let record = &self.records[i];
            let ghost prev_focus = focus_seconds@;
            let ghost prev_rounds = completed_rounds@;
            let mut index: usize = 0;
            let mut found = false;
            while index < 7 && !found
                invariant
                    index <= 7,
                    day_starts@.len() == 8,
                    !found ==> day_of(record.ended_at, day_starts@) == day_from(
                        record.ended_at,
                        day_starts@,
                        index as int,
                    ),
                    found ==> index < 7 && day_of(record.ended_at, day_starts@) == index,
                decreases 7 - index + (if found {
                    0int
                } else {
                    1int
                }),
            {
                if day_starts[index] <= record.ended_at && record.ended_at < day_starts[index + 1] {
                    found = true;
                } else {
                    proof {
                        lemma_day_from_skip(record.ended_at, day_starts@, index as int);
                    }
                    index = index + 1;
                }
            }
            let is_focus = match record.kind {
                SessionKind::Focus => true,
                _ => false,
            };
            let is_completed = match record.outcome {
                SessionOutcome::Completed => true,
                _ => false,
            };
            if found && is_focus {
                let current = focus_seconds[index];
                focus_seconds[index] = if current > u64::MAX - record.actual_seconds {
                    u64::MAX
                } else {
                    current + record.actual_seconds
                };
                if is_completed {
                    let rounds = completed_rounds[index];
                    completed_rounds[index] = if rounds == u32::MAX {
                        rounds
                    } else {
                        rounds + 1
                    };
                }
            }
            i = i + 1;
            proof {
                let sub = all.subrange(0, i as int);
                assert(sub.drop_last() =~= all.subrange(0, i as int - 1));
                assert(sub.last() == *record);
                assert forall|d: int| 0 <= d < 7 implies focus_seconds@[d] == focus_on_day(
                    sub,
                    day_starts@,
                    d,
                ) && completed_rounds@[d] == rounds_on_day(sub, day_starts@, d) by {
                    if !found {
                        assert(day_of(record.ended_at, day_starts@) == -1);
                    }
                }
            }
        }
        assert(all.subrange(0, all.len() as int) =~= all);
        DailySummary { focus_seconds, completed_rounds }
    }

    /// Focus time attributed to Task `id`, added up with saturation.
    pub fn focus_seconds_for_task(&self, id: TaskId) -> (seconds: u64)
        ensures
            seconds == task_focus(self@, id),
    {
        let ghost all = self@;
        let mut total: u64 = 0;
        let mut i: usize = 0;
        while i < self.records.len()
            invariant
                i <= self.records@.len(),
                all == self.records@,
                total == task_focus(all.subrange(0, i as int), id),
            decreases self.records@.len() - i,
        {
            let record = &self.records[i];
            let is_focus = match record.kind {
                SessionKind::Focus => true,
                _ => false,
            };
            let same_task = match record.task_id {
                Some(t) => t.get() == id.get(),
                None => false,
            };
            proof {
                if record.task_id is Some {
                    TaskId::lemma_value_injective(record.task_id->Some_0, id);
                }
            }
            if is_focus && same_task {
                total = if total > u64::MAX - record.actual_seconds {
                    u64::MAX
                } else {
                    total + record.actual_seconds
                };
            }
            i = i + 1;
            proof {
                let sub = all.subrange(0, i as int);
                assert(sub.drop_last() =~= all.subrange(0, i as int - 1));
            }
        }
        assert(all.subrange(0, all.len() as int) =~= all);
        total
    }
}

impl Default for History {
    fn default() -> (history: Self)
        ensures
            history@ == Seq::<SessionRecord>::empty(),
    {
        History::new()
    }
}

#[derive(Clone, Copy, Debug, PartialEq, Eq)]
pub struct DailySummary {
    pub focus_seconds: [u64; 7],
    pub completed_rounds: [u32; 7],
}

/// The sum of the seven daily focus totals.
pub open spec fn seven_day_total(f: Seq<u64>) -> int {
    f[0] + f[1] + f[2] + f[3] + f[4] + f[5] + f[6]
}

impl DailySummary {
    /// The mean of the seven daily focus totals, rounded down.
    pub fn average_focus_seconds(self) -> (average: u64)
        ensures
            average == seven_day_total(self.focus_seconds@) / 7,
    {
        let f = self.focus_seconds;
        let total: u128 = f[0] as u128 + f[1] as u128 + f[2] as u128 + f[3] as u128
            + f[4] as u128 + f[5] as u128 + f[6] as u128;
        (total / 7) as u64
    }
}

// ---------------------------------------------------------------------------
// Laws of Tasks and Session History.
// ---------------------------------------------------------------------------

/// Whether every identity in `s` is a number below `n`.
pub open spec fn ids_below(s: Seq<TaskModel>, n: u64) -> bool {
    forall|i: int| 0 <= i < s.len() ==> (#[trigger] s[i]).0.value() < n
}

/// Whether `s` is what a store holds that hands out identities from 1
/// upward while `next` is the next one to give: identities strictly ascend
/// along the list, so none occurs twice and the Tasks stand in the order in
/// which they were created, and each lies in `1..next`.
pub open spec fn store_well_formed(s: Seq<TaskModel>, next: u64) -> bool {
    &&& 1 <= next
    &&& forall|i: int, j: int|
        0 <= i < j < s.len() ==> (#[trigger] s[i]).0.value() < (#[trigger] s[j]).0.value()
    &&& forall|i: int| 0 <= i < s.len() ==> 1 <= (#[trigger] s[i]).0.value() < next
}

/// Every change a store makes keeps it well formed: creating appends the
/// next identity and moves the next one on, renaming and changing a status
/// keep every identity in its place, and deleting keeps the others in order.
/// So in a well-formed store no identity occurs twice.
pub proof fn law_store_changes_keep_it_well_formed(
    s: Seq<TaskModel>,
    next: u64,
    i: int,
    id: TaskId,
    title: Seq<char>,
    status: TaskStatus,
)
    requires
        store_well_formed(s, next),
    ensures
        forall|a: int, b: int| 0 <= a < b < s.len() ==> (#[trigger] s[a]).0 != (#[trigger] s[b]).0,
        id.value() == next && next < u64::MAX ==> store_well_formed(
            s.push((id, title, TaskStatus::Open)),
            (next + 1) as u64,
        ),
        0 <= i < s.len() ==> store_well_formed(with_title(s, i, title), next),
        0 <= i < s.len() ==> store_well_formed(with_status(s, i, status), next),
        0 <= i < s.len() ==> store_well_formed(s.remove(i), next),
{
    let p = s.push((id, title, TaskStatus::Open));
    if id.value() == next && next < u64::MAX {
        assert forall|a: int, b: int| 0 <= a < b < p.len() implies (#[trigger] p[a]).0.value()
            < (#[trigger] p[b]).0.value() by {
            if b == s.len() {
                assert(p[a] == s[a]);
            } else {
                assert(p[a] == s[a] && p[b] == s[b]);
            }
        }
        assert forall|a: int| 0 <= a < p.len() implies 1 <= (#[trigger] p[a]).0.value() < next
            + 1 by {
            if a < s.len() {
                assert(p[a] == s[a]);
            }
        }
    }
    if 0 <= i < s.len() {
        let r = s.remove(i);
        assert forall|a: int, b: int| 0 <= a < b < r.len() implies (#[trigger] r[a]).0.value()
            < (#[trigger] r[b]).0.value() by {
            let a2 = if a < i { a } else { a + 1 };
            let b2 = if b < i { b } else { b + 1 };
            assert(r[a] == s[a2] && r[b] == s[b2]);
        }
        assert forall|a: int| 0 <= a < r.len() implies 1 <= (#[trigger] r[a]).0.value() < next by {
            let a2 = if a < i { a } else { a + 1 };
            assert(r[a] == s[a2]);
        }
        let t = with_title(s, i, title);
        assert forall|a: int, b: int| 0 <= a < b < t.len() implies (#[trigger] t[a]).0.value()
            < (#[trigger] t[b]).0.value() by {
            assert(t[a].0 == s[a].0 && t[b].0 == s[b].0);
        }
        assert forall|a: int| 0 <= a < t.len() implies 1 <= (#[trigger] t[a]).0.value() < next by {
            assert(t[a].0 == s[a].0);
        }
        let u = with_status(s, i, status);
        assert forall|a: int, b: int| 0 <= a < b < u.len() implies (#[trigger] u[a]).0.value()
            < (#[trigger] u[b]).0.value() by {
            assert(u[a].0 == s[a].0 && u[b].0 == s[b].0);
        }
        assert forall|a: int| 0 <= a < u.len() implies 1 <= (#[trigger] u[a]).0.value() < next by {
            assert(u[a].0 == s[a].0);
        }
    }
}

/// Creating a Task gives it the next identity, which no earlier Task holds,
/// so the new Task is the one found by that identity; identities stay below
/// the next one to be given.
pub proof fn law_created_task_is_fresh_and_found(s: Seq<TaskModel>, next: u64, id: TaskId, title: Seq<char>)
    requires
        ids_below(s, next),
        id.value() == next,
        next < u64::MAX,
    ensures
        !has_id(s, id),
        is_first_index(s.push((id, title, TaskStatus::Open)), id, s.len() as int),
        ids_below(s.push((id, title, TaskStatus::Open)), (next + 1) as u64),
{
    assert forall|j: int| 0 <= j < s.len() implies (#[trigger] s[j]).0 != id by {
        TaskId::lemma_value_injective(s[j].0, id);
    }
}

/// A stored title breaks none of the title rules.
pub proof fn law_normalized_titles_obey_the_rules(raw: Seq<char>)
    ensures
        normalized_title_spec(raw) matches Ok(t) ==> title_violation(t) is None,
        trim(raw).len() == 0 ==> normalized_title_spec(raw) == Err::<Seq<char>, TaskError>(
            TaskError::EmptyTitle,
        ),
{
}

/// Renaming changes only the title of one Task: its identity and status and
/// every other Task stay as they were.
pub proof fn law_rename_changes_only_the_title(s: Seq<TaskModel>, i: int, title: Seq<char>)
    requires
        0 <= i < s.len(),
    ensures
        with_title(s, i, title).len() == s.len(),
        with_title(s, i, title)[i] == (s[i].0, title, s[i].2),
        forall|j: int| 0 <= j < s.len() && j != i ==> #[trigger] with_title(s, i, title)[j] == s[j],
{
}

/// Completing and then reopening an open Task gives back the same Tasks.
pub proof fn law_complete_then_reopen_restores(s: Seq<TaskModel>, i: int)
    requires
        0 <= i < s.len(),
        s[i].2 == TaskStatus::Open,
    ensures
        with_status(with_status(s, i, TaskStatus::Completed), i, TaskStatus::Open) == s,
        with_status(s, i, TaskStatus::Completed)[i].0 == s[i].0,
        with_status(s, i, TaskStatus::Completed)[i].1 == s[i].1,
{
    assert(with_status(with_status(s, i, TaskStatus::Completed), i, TaskStatus::Open) =~= s);
}

/// Deleting a Task keeps every other Task in order; when identities are
/// unique the deleted identity is gone.
pub proof fn law_delete_removes_exactly_one_task(s: Seq<TaskModel>, id: TaskId, i: int)
    requires
        is_first_index(s, id, i),
    ensures
        s.remove(i).len() == s.len() - 1,
        forall|j: int| 0 <= j < i ==> #[trigger] s.remove(i)[j] == s[j],
        forall|j: int| i <= j < s.len() - 1 ==> #[trigger] s.remove(i)[j] == s[j + 1],
        (forall|a: int, b: int| 0 <= a < b < s.len() ==> (#[trigger] s[a]).0 != (#[trigger] s[b]).0)
            ==> !has_id(s.remove(i), id),
{
    if forall|a: int, b: int| 0 <= a < b < s.len() ==> (#[trigger] s[a]).0 != (#[trigger] s[b]).0 {
        assert forall|j: int| 0 <= j < s.remove(i).len() implies (#[trigger] s.remove(i)[j]).0
            != id by {
            if j < i {
                assert(s[j].0 != id);
            } else {
                assert(s[i].0 != s[j + 1].0);
            }
        }
    }
}

/// After a deletion of history entries, none of the deleted identities is
/// left and every entry with another identity is kept.
pub proof fn law_history_delete_keeps_exactly_the_others(records: Seq<SessionRecord>, ids: Seq<u64>)
    ensures
        forall|k: int|
            0 <= k < kept_records(records, ids).len() ==> !ids.contains(
                (#[trigger] kept_records(records, ids)[k]).id,
            ),
        forall|k: int|
            0 <= k < records.len() && !ids.contains((#[trigger] records[k]).id)
                ==> kept_records(records, ids).contains(records[k]),
        kept_records(records, ids).len() <= records.len(),
{
    broadcast use vstd::seq_lib::group_filter_ensures;

    records.lemma_filter_len(|r: SessionRecord| !ids.contains(r.id));
}

/// Break Sessions never add focus time, and only Completed Focus Sessions
/// add Completed Rounds.
pub proof fn law_summary_counts_only_focus(
    records: Seq<SessionRecord>,
    r: SessionRecord,
    starts: Seq<i64>,
    d: int,
    id: TaskId,
)
    ensures
        r.kind != SessionKind::Focus ==> focus_on_day(records.push(r), starts, d) == focus_on_day(
            records,
            starts,
            d,
        ),
        r.kind != SessionKind::Focus ==> task_focus(records.push(r), id) == task_focus(records, id),
        r.outcome != SessionOutcome::Completed ==> rounds_on_day(records.push(r), starts, d)
            == rounds_on_day(records, starts, d),
{
    assert(records.push(r).drop_last() =~= records);
}

} // verus!
