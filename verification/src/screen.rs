//! What the terminal screens show that is computed rather than drawn: how
//! many Session History records fit, the history viewport kept around the
//! cursor, the review of Session History and the Session's progress.

use crate::protocol::{RecentSessionSummary, SessionKind, Snapshot, TaskFocusSummary, TaskSummary};
use crate::service::{focus_entry_before, order_entries, text_option};
use crate::text::{concat, decimal, decimal_string, str_equal, string_push};
use crate::animation::Animation;
use crate::tui::{ids_ordered, lemma_ids_ordered, text, text_spec, App, CompletionPlayback};
use std::collections::BTreeSet;
use vstd::prelude::*;

verus! {

broadcast use vstd::seq_lib::group_seq_properties;

// ---------------------------------------------------------------------------
// The Session History viewport.
// ---------------------------------------------------------------------------

/// How many Session History records fit in a panel `height` rows high: what
/// is left after the borders and the fixed lines, one row per record (two
/// when compact), at least one.
pub open spec fn visible_records_spec(height: u16, compact: bool) -> usize {
    let content: int = if height >= 4 {
        height - 4
    } else {
        0
    };
    let fixed: int = if compact {
        6
    } else {
        7
    };
    let rows: int = if content >= fixed {
        content - fixed
    } else {
        0
    };
    let per: int = if compact {
        2
    } else {
        1
    };
    if rows / per == 0 {
        1
    } else {
        (rows / per) as usize
    }
}

pub fn history_visible_records(height: u16, compact: bool) -> (visible: usize)
    ensures
        visible == visible_records_spec(height, compact),
        visible >= 1,
{
    let content: u16 = if height >= 4 {
        height - 4
    } else {
        0
    };
    let fixed: u16 = if compact {
        6
    } else {
        7
    };
    let rows: u16 = if content >= fixed {
        content - fixed
    } else {
        0
    };
    let per: u16 = if compact {
        2
    } else {
        1
    };
    let fitting = rows / per;
    if fitting == 0 {
        1
    } else {
        fitting as usize
    }
}

/// The identities of the snapshot's Session History records.
pub open spec fn history_ids(a: App) -> Seq<u64> {
    match a.snapshot {
        Some(s) => s.recent_history@.map_values(|r: RecentSessionSummary| r.id),
        None => Seq::empty(),
    }
}

/// The marks that name a record still in Session History.
pub open spec fn kept_marks(marked: Set<u64>, ids: Seq<u64>) -> Set<u64> {
    marked.filter(|x: u64| ids.contains(x))
}

/// `a + b` held at `usize::MAX`.
pub open spec fn saturating_add_usize(a: int, b: int) -> int {
    if a + b > usize::MAX {
        usize::MAX as int
    } else {
        a + b
    }
}

/// `a - b` held at zero.
pub open spec fn saturating_sub_int(a: int, b: int) -> int {
    if a < b {
        0
    } else {
        a - b
    }
}

/// The first record shown, so that the cursor is in view and the window
/// does not run past the last record.
pub open spec fn fitted_offset(offset: usize, cursor: usize, visible: usize, total: int) -> usize {
    let moved: int = if cursor < offset {
        cursor as int
    } else if cursor >= saturating_add_usize(offset as int, visible as int) {
        saturating_sub_int(saturating_add_usize(cursor as int, 1), visible as int)
    } else {
        offset as int
    };
    let limit = saturating_sub_int(total, visible as int);
    (if moved < limit {
        moved
    } else {
        limit
    }) as usize
}

impl App {
    /// Keeps the Session History viewport, `visible` records high, around
    /// the cursor: the cursor stays on a record, marks of records that are
    /// gone are dropped, and the first record shown moves only as far as
    /// needed to show the cursor.
    pub fn fit_history(&mut self, visible: usize)
        ensures
            ({
                let a = *old(self);
                let total = history_ids(a).len() as int;
                let cursor = if a.history_cursor < saturating_sub_int(total, 1) {
                    a.history_cursor
                } else {
                    saturating_sub_int(total, 1) as usize
                };
                &&& final(self).marked_history@ == kept_marks(a.marked_history@, history_ids(a))
                &&& *final(self) == App {
                    history_cursor: cursor,
                    history_offset: fitted_offset(a.history_offset, cursor, visible, total),
                    marked_history: final(self).marked_history,
                    ..a
                }
            }),
    {
        let ghost ids = history_ids(*self);
        let total: usize = match &self.snapshot {
            Some(s) => s.recent_history.len(),
            None => 0,
        };
        let last = if total == 0 {
            0
        } else {
            total - 1
        };
        let cursor = if self.history_cursor < last {
            self.history_cursor
        } else {
            last
        };
        let mut kept: BTreeSet<u64> = BTreeSet::new();
        proof {
            lemma_ids_ordered();
        }
        match &self.snapshot {
            Some(s) => {
                let mut j: usize = 0;
                while j < s.recent_history.len()
                    invariant
                        j <= s.recent_history@.len(),
                        ids == s.recent_history@.map_values(|r: RecentSessionSummary| r.id),
                        ids_ordered(),
                        kept@ == kept_marks(self.marked_history@, ids.subrange(0, j as int)),
                    decreases s.recent_history@.len() - j,
                {
                    let id = s.recent_history[j].id;
                    if self.marked_history.contains(&id) {
                        kept.insert(id);
                    }
                    j = j + 1;
                    assert(kept@ =~= kept_marks(self.marked_history@, ids.subrange(0, j as int))) by {
                        assert(ids.subrange(0, j as int) =~= ids.subrange(0, j - 1).push(id));
                    }
                }
                assert(ids.subrange(0, j as int) =~= ids);
            },
            None => {
                assert(kept@ =~= kept_marks(self.marked_history@, ids));
            },
        }
        let offset = self.history_offset;
        let end = if offset > usize::MAX - visible {
            usize::MAX
        } else {
            offset + visible
        };
        let moved = if cursor < offset {
            cursor
        } else if cursor >= end {
            let next = if cursor == usize::MAX {
                usize::MAX
            } else {
                cursor + 1
            };
            if next < visible {
                0
            } else {
                next - visible
            }
        } else {
            offset
        };
        let limit = if total < visible {
            0
        } else {
            total - visible
        };
        self.history_cursor = cursor;
        self.history_offset = if moved < limit {
            moved
        } else {
            limit
        };
        self.marked_history = kept;
    }
}

// ---------------------------------------------------------------------------
// The review of Session History.
// ---------------------------------------------------------------------------

/// What the review groups a record under: its Task title, or `no_task`.
pub open spec fn review_label(r: RecentSessionSummary, no_task: Seq<char>) -> Seq<char> {
    match r.task_title {
        Some(t) => t@,
        None => no_task,
    }
}

/// The Focus seconds of the records labelled `label`, added up with
/// saturation.
pub open spec fn label_total(h: Seq<RecentSessionSummary>, label: Seq<char>, no_task: Seq<char>) -> u64
    decreases h.len(),
{
    if h.len() == 0 {
        0
    } else {
        let before = label_total(h.drop_last(), label, no_task);
        let r = h.last();
        if r.kind == SessionKind::Focus && review_label(r, no_task) == label {
            crate::domain::saturating_add_u64(before, r.actual_seconds)
        } else {
            before
        }
    }
}

/// The seconds of the Focus records (or, with `focus` false, of the breaks),
/// added up with saturation.
pub open spec fn kind_total(h: Seq<RecentSessionSummary>, focus: bool) -> u64
    decreases h.len(),
{
    if h.len() == 0 {
        0
    } else {
        let before = kind_total(h.drop_last(), focus);
        if (h.last().kind == SessionKind::Focus) == focus {
            crate::domain::saturating_add_u64(before, h.last().actual_seconds)
        } else {
            before
        }
    }
}

/// How many records have the outcome `name`.
pub open spec fn outcome_count(h: Seq<RecentSessionSummary>, name: Seq<char>) -> nat
    decreases h.len(),
{
    if h.len() == 0 {
        0
    } else {
        outcome_count(h.drop_last(), name) + if h.last().outcome@ == name {
            1nat
        } else {
            0nat
        }
    }
}

/// The mark of a record's kind in the rhythm line.
pub open spec fn rhythm_mark(kind: SessionKind) -> char {
    match kind {
        SessionKind::Focus => '■',
        SessionKind::ShortBreak => '·',
        SessionKind::LongBreak => '◆',
    }
}

/// The longest rhythm line, in records.
pub const RHYTHM_RECORDS: usize = 40;

/// The rhythm line: the marks of the last forty records, last first.
pub open spec fn rhythm_spec(h: Seq<RecentSessionSummary>) -> Seq<char> {
    let n = if h.len() < RHYTHM_RECORDS {
        h.len() as int
    } else {
        RHYTHM_RECORDS as int
    };
    Seq::new(n as nat, |i: int| rhythm_mark(h[h.len() - 1 - i].kind))
}

/// One entry per label of the Focus records, with its total, ordered by
/// most focus first, then by label.
pub open spec fn ranked_reports(out: Seq<TaskFocusSummary>, h: Seq<RecentSessionSummary>, no_task: Seq<char>) -> bool {
    &&& forall|i: int| 0 <= i < out.len() ==> (#[trigger] out[i]).task_title is Some
    &&& forall|i: int|
        0 <= i < out.len() ==> exists|k: int|
            0 <= k < h.len() && (#[trigger] h[k]).kind == SessionKind::Focus && text_option(
                (#[trigger] out[i]).task_title,
            ) == Some(review_label(h[k], no_task))
    &&& forall|k: int|
        0 <= k < h.len() && (#[trigger] h[k]).kind == SessionKind::Focus ==> exists|i: int|
            0 <= i < out.len() && text_option((#[trigger] out[i]).task_title) == Some(review_label(h[k], no_task))
    &&& forall|i: int|
        0 <= i < out.len() ==> (#[trigger] out[i]).focus_seconds == label_total(
            h,
            text_option(out[i].task_title)->Some_0,
            no_task,
        )
    &&& forall|i: int, j: int| 0 <= i < j < out.len() ==> focus_entry_before(#[trigger] out[i], #[trigger] out[j])
}

/// What the History review shows of Session History.
#[derive(Clone, Debug, PartialEq, Eq)]
pub struct ReviewSummary {
    /// Focus time per Task, most first.
    pub ranked: Vec<TaskFocusSummary>,
    pub completed: usize,
    pub stopped: usize,
    pub skipped: usize,
    pub focus_seconds: u64,
    pub break_seconds: u64,
    /// The kinds of the last forty records, last first.
    pub rhythm: String,
}

proof fn lemma_label_total_zero(h: Seq<RecentSessionSummary>, label: Seq<char>, no_task: Seq<char>)
    requires
        forall|k: int|
            0 <= k < h.len() ==> !((#[trigger] h[k]).kind == SessionKind::Focus && review_label(h[k], no_task) == label),
    ensures
        label_total(h, label, no_task) == 0,
    decreases h.len(),
{
    if h.len() > 0 {
        assert forall|k: int| 0 <= k < h.drop_last().len() implies !((#[trigger] h.drop_last()[k]).kind
            == SessionKind::Focus && review_label(h.drop_last()[k], no_task) == label) by {
            assert(h.drop_last()[k] == h[k]);
        }
        lemma_label_total_zero(h.drop_last(), label, no_task);
        assert(h.last() == h[h.len() - 1]);
    }
}

/// Whether `groups` holds one entry per label of the Focus records, with its
/// total, each label once.
pub open spec fn label_groups(groups: Seq<TaskFocusSummary>, h: Seq<RecentSessionSummary>, no_task: Seq<char>) -> bool {
    &&& forall|g: int| 0 <= g < groups.len() ==> (#[trigger] groups[g]).task_title is Some
    &&& forall|g: int|
        0 <= g < groups.len() ==> exists|k: int|
            0 <= k < h.len() && (#[trigger] h[k]).kind == SessionKind::Focus && text_option(
                (#[trigger] groups[g]).task_title,
            ) == Some(review_label(h[k], no_task))
    &&& forall|k: int|
        0 <= k < h.len() && (#[trigger] h[k]).kind == SessionKind::Focus ==> exists|g: int|
            0 <= g < groups.len() && text_option((#[trigger] groups[g]).task_title) == Some(
                review_label(h[k], no_task),
            )
    &&& forall|g: int|
        0 <= g < groups.len() ==> (#[trigger] groups[g]).focus_seconds == label_total(
            h,
            text_option(groups[g].task_title)->Some_0,
            no_task,
        )
    &&& forall|a: int, b: int|
        0 <= a < b < groups.len() ==> text_option((#[trigger] groups[a]).task_title) != text_option(
            (#[trigger] groups[b]).task_title,
        )
}

fn review_label_of(r: &RecentSessionSummary, no_task: &str) -> (label: String)
    ensures
        label@ == review_label(*r, no_task@),
{
    match &r.task_title {
        Some(t) => t.clone(),
        None => String::from_str(no_task),
    }
}

proof fn lemma_label_total_push(hp: Seq<RecentSessionSummary>, r: RecentSessionSummary, label: Seq<char>, nt: Seq<char>)
    ensures
        label_total(hp.push(r), label, nt) == if r.kind == SessionKind::Focus && review_label(r, nt) == label {
            crate::domain::saturating_add_u64(label_total(hp, label, nt), r.actual_seconds)
        } else {
            label_total(hp, label, nt)
        },
{
    assert(hp.push(r).drop_last() =~= hp);
}

/// A record that is no Focus Session leaves the groups as they are.
proof fn lemma_group_skip(groups: Seq<TaskFocusSummary>, hp: Seq<RecentSessionSummary>, r: RecentSessionSummary, nt: Seq<char>)
    requires
        label_groups(groups, hp, nt),
        r.kind != SessionKind::Focus,
    ensures
        label_groups(groups, hp.push(r), nt),
{
    let hn = hp.push(r);
    assert forall|g: int| 0 <= g < groups.len() implies exists|k: int|
        0 <= k < hn.len() && (#[trigger] hn[k]).kind == SessionKind::Focus && text_option((#[trigger] groups[g]).task_title)
            == Some(review_label(hn[k], nt)) by {
        let k = choose|k: int|
            0 <= k < hp.len() && (#[trigger] hp[k]).kind == SessionKind::Focus && text_option(groups[g].task_title)
                == Some(review_label(hp[k], nt));
        assert(hn[k] == hp[k]);
    }
    assert forall|k: int| 0 <= k < hn.len() && (#[trigger] hn[k]).kind == SessionKind::Focus implies exists|g: int|
        0 <= g < groups.len() && text_option((#[trigger] groups[g]).task_title) == Some(review_label(hn[k], nt)) by {
        assert(hn[k] == hp[k]);
    }
    assert forall|g: int| 0 <= g < groups.len() implies (#[trigger] groups[g]).focus_seconds == label_total(
        hn,
        text_option(groups[g].task_title)->Some_0,
        nt,
    ) by {
        lemma_label_total_push(hp, r, text_option(groups[g].task_title)->Some_0, nt);
    }
}

/// A Focus record whose label has a group adds its seconds to that group.
proof fn lemma_group_add(
    before: Seq<TaskFocusSummary>,
    after: Seq<TaskFocusSummary>,
    hp: Seq<RecentSessionSummary>,
    r: RecentSessionSummary,
    j: int,
    nt: Seq<char>,
)
    requires
        label_groups(before, hp, nt),
        r.kind == SessionKind::Focus,
        0 <= j < before.len(),
        text_option(before[j].task_title) == Some(review_label(r, nt)),
        after.len() == before.len(),
        text_option(after[j].task_title) == Some(review_label(r, nt)),
        after[j].focus_seconds == crate::domain::saturating_add_u64(before[j].focus_seconds, r.actual_seconds),
        forall|g: int| 0 <= g < after.len() && g != j ==> #[trigger] after[g] == before[g],
    ensures
        label_groups(after, hp.push(r), nt),
{
    let hn = hp.push(r);
    assert forall|g: int| 0 <= g < after.len() implies text_option((#[trigger] after[g]).task_title) == text_option(
        before[g].task_title,
    ) by {}
    assert forall|g: int| 0 <= g < after.len() implies exists|k: int|
        0 <= k < hn.len() && (#[trigger] hn[k]).kind == SessionKind::Focus && text_option((#[trigger] after[g]).task_title)
            == Some(review_label(hn[k], nt)) by {
        let k = choose|k: int|
            0 <= k < hp.len() && (#[trigger] hp[k]).kind == SessionKind::Focus && text_option(before[g].task_title)
                == Some(review_label(hp[k], nt));
        assert(hn[k] == hp[k]);
    }
    assert forall|k: int| 0 <= k < hn.len() && (#[trigger] hn[k]).kind == SessionKind::Focus implies exists|g: int|
        0 <= g < after.len() && text_option((#[trigger] after[g]).task_title) == Some(review_label(hn[k], nt)) by {
        if k == hp.len() {
            assert(text_option(after[j].task_title) == Some(review_label(hn[k], nt)));
        } else {
            assert(hn[k] == hp[k]);
            let g0 = choose|g: int|
                0 <= g < before.len() && text_option((#[trigger] before[g]).task_title) == Some(review_label(hp[k], nt));
            assert(text_option(after[g0].task_title) == Some(review_label(hn[k], nt)));
        }
    }
    assert forall|g: int| 0 <= g < after.len() implies (#[trigger] after[g]).focus_seconds == label_total(
        hn,
        text_option(after[g].task_title)->Some_0,
        nt,
    ) by {
        lemma_label_total_push(hp, r, text_option(after[g].task_title)->Some_0, nt);
        if g != j {
            assert(text_option(before[g].task_title) != text_option(before[j].task_title));
        }
    }
    assert forall|a: int, b: int| 0 <= a < b < after.len() implies text_option((#[trigger] after[a]).task_title)
        != text_option((#[trigger] after[b]).task_title) by {
        assert(text_option(before[a].task_title) != text_option(before[b].task_title));
    }
}

/// A Focus record whose label has no group yet opens one.
proof fn lemma_group_new(
    before: Seq<TaskFocusSummary>,
    e: TaskFocusSummary,
    hp: Seq<RecentSessionSummary>,
    r: RecentSessionSummary,
    nt: Seq<char>,
)
    requires
        label_groups(before, hp, nt),
        r.kind == SessionKind::Focus,
        forall|g: int| 0 <= g < before.len() ==> text_option((#[trigger] before[g]).task_title) != Some(review_label(r, nt)),
        text_option(e.task_title) == Some(review_label(r, nt)),
        e.focus_seconds == r.actual_seconds,
    ensures
        label_groups(before.push(e), hp.push(r), nt),
{
    let hn = hp.push(r);
    let after = before.push(e);
    let label = review_label(r, nt);
    assert forall|k: int| 0 <= k < hp.len() implies !((#[trigger] hp[k]).kind == SessionKind::Focus && review_label(
        hp[k],
        nt,
    ) == label) by {
        if hp[k].kind == SessionKind::Focus && review_label(hp[k], nt) == label {
            let g0 = choose|g: int|
                0 <= g < before.len() && text_option((#[trigger] before[g]).task_title) == Some(review_label(hp[k], nt));
        }
    }
    lemma_label_total_zero(hp, label, nt);
    assert forall|g: int| 0 <= g < after.len() implies exists|k: int|
        0 <= k < hn.len() && (#[trigger] hn[k]).kind == SessionKind::Focus && text_option((#[trigger] after[g]).task_title)
            == Some(review_label(hn[k], nt)) by {
        if g == before.len() {
            assert(hn[hp.len() as int] == r);
        } else {
            let k = choose|k: int|
                0 <= k < hp.len() && (#[trigger] hp[k]).kind == SessionKind::Focus && text_option(before[g].task_title)
                    == Some(review_label(hp[k], nt));
            assert(hn[k] == hp[k]);
        }
    }
    assert forall|k: int| 0 <= k < hn.len() && (#[trigger] hn[k]).kind == SessionKind::Focus implies exists|g: int|
        0 <= g < after.len() && text_option((#[trigger] after[g]).task_title) == Some(review_label(hn[k], nt)) by {
        if k == hp.len() {
            assert(after[before.len() as int] == e);
        } else {
            assert(hn[k] == hp[k]);
            let g0 = choose|g: int|
                0 <= g < before.len() && text_option((#[trigger] before[g]).task_title) == Some(review_label(hp[k], nt));
            assert(after[g0] == before[g0]);
        }
    }
    assert forall|g: int| 0 <= g < after.len() implies (#[trigger] after[g]).focus_seconds == label_total(
        hn,
        text_option(after[g].task_title)->Some_0,
        nt,
    ) by {
        lemma_label_total_push(hp, r, text_option(after[g].task_title)->Some_0, nt);
    }
}

#[verifier::spinoff_prover]
fn group_labels(history: &Vec<RecentSessionSummary>, no_task: &str) -> (groups: Vec<TaskFocusSummary>)
    ensures
        label_groups(groups@, history@, no_task@),
{
    let ghost h = history@;
    let ghost nt = no_task@;
    let mut groups: Vec<TaskFocusSummary> = Vec::new();
    let mut i: usize = 0;
    while i < history.len()
        invariant
            i <= h.len(),
            h == history@,
            nt == no_task@,
            label_groups(groups@, h.subrange(0, i as int), nt),
        decreases h.len() - i,
    {
        let ghost hp = h.subrange(0, i as int);
        proof {
            assert(h.subrange(0, i as int + 1) =~= hp.push(h[i as int]));
        }
        let record = &history[i];
        let is_focus = match record.kind {
            SessionKind::Focus => true,
            _ => false,
        };
        if is_focus {
            let label = review_label_of(record, no_task);
            let mut j: usize = 0;
            let mut found = false;
            while j < groups.len() && !found
                invariant
                    j <= groups@.len(),
                    found ==> j < groups@.len() && text_option(groups@[j as int].task_title) == Some(label@),
                    !found ==> forall|g: int|
                        0 <= g < j ==> text_option((#[trigger] groups@[g]).task_title) != Some(label@),
                decreases groups@.len() - j + (if found {
                    0int
                } else {
                    1int
                }),
            {
                let same = match &groups[j].task_title {
                    Some(t) => str_equal(t.as_str(), label.as_str()),
                    None => false,
                };
                if same {
                    found = true;
                } else {
                    j = j + 1;
                }
            }
            let ghost before = groups@;
            if found {
                let old_total = groups[j].focus_seconds;
                let total = if old_total > u64::MAX - record.actual_seconds {
                    u64::MAX
                } else {
                    old_total + record.actual_seconds
                };
                groups.set(j, TaskFocusSummary { task_title: Some(label), focus_seconds: total });
                proof {
                    lemma_group_add(before, groups@, hp, h[i as int], j as int, nt);
                }
            } else {
                let entry = TaskFocusSummary { task_title: Some(label), focus_seconds: record.actual_seconds };
                proof {
                    lemma_group_new(before, entry, hp, h[i as int], nt);
                }
                groups.push(entry);
            }
        } else {
            proof {
                lemma_group_skip(groups@, hp, h[i as int], nt);
            }
        }
        i = i + 1;
    }
    proof {
        assert(h.subrange(0, i as int) =~= h);
    }
    groups
}

/// Counts and totals of Session History, added up in order.
fn review_totals(history: &Vec<RecentSessionSummary>) -> (totals: (usize, usize, usize, u64, u64))
    ensures
        totals.0 == outcome_count(history@, "Completed"@),
        totals.1 == outcome_count(history@, "Stopped"@),
        totals.2 == outcome_count(history@, "Skipped"@),
        totals.3 == kind_total(history@, true),
        totals.4 == kind_total(history@, false),
{
    let ghost h = history@;
    let mut completed: usize = 0;
    let mut stopped: usize = 0;
    let mut skipped: usize = 0;
    let mut focus: u64 = 0;
    let mut breaks: u64 = 0;
    let mut i: usize = 0;
    while i < history.len()
        invariant
            i <= h.len(),
            h == history@,
            completed == outcome_count(h.subrange(0, i as int), "Completed"@),
            stopped == outcome_count(h.subrange(0, i as int), "Stopped"@),
            skipped == outcome_count(h.subrange(0, i as int), "Skipped"@),
            completed <= i && stopped <= i && skipped <= i,
            focus == kind_total(h.subrange(0, i as int), true),
            breaks == kind_total(h.subrange(0, i as int), false),
        decreases h.len() - i,
    {
        let record = &history[i];
        proof {
            let hn = h.subrange(0, i as int + 1);
            assert(hn.drop_last() =~= h.subrange(0, i as int));
            assert(hn.last() == h[i as int]);
        }
        let outcome = record.outcome.as_str();
        if str_equal(outcome, "Completed") {
            completed = completed + 1;
        }
        if str_equal(outcome, "Stopped") {
            stopped = stopped + 1;
        }
        if str_equal(outcome, "Skipped") {
            skipped = skipped + 1;
        }
        let is_focus = match record.kind {
            SessionKind::Focus => true,
            _ => false,
        };
        if is_focus {
            focus = if focus > u64::MAX - record.actual_seconds {
                u64::MAX
            } else {
                focus + record.actual_seconds
            };
        } else {
            breaks = if breaks > u64::MAX - record.actual_seconds {
                u64::MAX
            } else {
                breaks + record.actual_seconds
            };
        }
        i = i + 1;
    }
    proof {
        assert(h.subrange(0, i as int) =~= h);
    }
    (completed, stopped, skipped, focus, breaks)
}

fn rhythm_of(history: &Vec<RecentSessionSummary>) -> (rhythm: String)
    ensures
        rhythm@ == rhythm_spec(history@),
{
    let n = history.len();
    let count = if n < RHYTHM_RECORDS {
        n
    } else {
        RHYTHM_RECORDS
    };
    let mut rhythm = String::new();
    let mut i: usize = 0;
    while i < count
        invariant
            i <= count,
            n == history@.len(),
            count == if n < RHYTHM_RECORDS {
                n
            } else {
                RHYTHM_RECORDS
            },
            rhythm@ =~= Seq::new(i as nat, |k: int| rhythm_mark(history@[n - 1 - k].kind)),
        decreases count - i,
    {
        let mark = match history[n - 1 - i].kind {
            SessionKind::Focus => '■',
            SessionKind::ShortBreak => '·',
            SessionKind::LongBreak => '◆',
        };
        string_push(&mut rhythm, mark);
        i = i + 1;
    }
    rhythm
}

/// Each ranked entry is a group, so it names a label of a Focus record.
#[verifier::rlimit(40)]
proof fn lemma_ranked_from_groups(all: Seq<TaskFocusSummary>, ranked: Seq<TaskFocusSummary>, h: Seq<RecentSessionSummary>, nt: Seq<char>)
    requires
        label_groups(all, h, nt),
        forall|a: int| 0 <= a < ranked.len() ==> all.contains(#[trigger] ranked[a]),
    ensures
        forall|i: int| 0 <= i < ranked.len() ==> (#[trigger] ranked[i]).task_title is Some,
        forall|i: int|
            0 <= i < ranked.len() ==> exists|k: int|
                0 <= k < h.len() && (#[trigger] h[k]).kind == SessionKind::Focus && text_option(
                    (#[trigger] ranked[i]).task_title,
                ) == Some(review_label(h[k], nt)),
        forall|i: int|
            0 <= i < ranked.len() ==> (#[trigger] ranked[i]).focus_seconds == label_total(
                h,
                text_option(ranked[i].task_title)->Some_0,
                nt,
            ),
{
    assert forall|i: int| 0 <= i < ranked.len() implies (#[trigger] ranked[i]).task_title is Some && (exists|k: int|
        0 <= k < h.len() && (#[trigger] h[k]).kind == SessionKind::Focus && text_option(ranked[i].task_title)
            == Some(review_label(h[k], nt))) && ranked[i].focus_seconds == label_total(
        h,
        text_option(ranked[i].task_title)->Some_0,
        nt,
    ) by {
        assert(all.contains(ranked[i]));
        let g = choose|g: int| 0 <= g < all.len() && all[g] == ranked[i];
        assert(all[g] == ranked[i]);
        assert(all[g].task_title is Some);
        assert(all[g].focus_seconds == label_total(h, text_option(all[g].task_title)->Some_0, nt));
    }
}

/// Every label of a Focus record has its group among the ranked entries.
#[verifier::rlimit(40)]
proof fn lemma_ranked_covers(all: Seq<TaskFocusSummary>, ranked: Seq<TaskFocusSummary>, h: Seq<RecentSessionSummary>, nt: Seq<char>)
    requires
        label_groups(all, h, nt),
        forall|g: int| 0 <= g < all.len() ==> #[trigger] ranked.contains(all[g]),
    ensures
        forall|k: int|
            0 <= k < h.len() && (#[trigger] h[k]).kind == SessionKind::Focus ==> exists|i: int|
                0 <= i < ranked.len() && text_option((#[trigger] ranked[i]).task_title) == Some(review_label(h[k], nt)),
{
    assert forall|k: int| 0 <= k < h.len() && (#[trigger] h[k]).kind == SessionKind::Focus implies exists|i: int|
        0 <= i < ranked.len() && text_option((#[trigger] ranked[i]).task_title) == Some(review_label(h[k], nt)) by {
        let g = choose|g: int|
            0 <= g < all.len() && text_option((#[trigger] all[g]).task_title) == Some(review_label(h[k], nt));
        assert(ranked.contains(all[g]));
        let a = choose|a: int| 0 <= a < ranked.len() && ranked[a] == all[g];
        assert(text_option(ranked[a].task_title) == Some(review_label(h[k], nt)));
    }
}

/// Ordering the groups of the Focus records gives the ranking.
proof fn lemma_ranked(all: Seq<TaskFocusSummary>, ranked: Seq<TaskFocusSummary>, h: Seq<RecentSessionSummary>, nt: Seq<char>)
    requires
        label_groups(all, h, nt),
        forall|g: int| 0 <= g < all.len() ==> #[trigger] ranked.contains(all[g]),
        forall|a: int| 0 <= a < ranked.len() ==> all.contains(#[trigger] ranked[a]),
        forall|a: int, b: int| 0 <= a < b < ranked.len() ==> focus_entry_before(#[trigger] ranked[a], #[trigger] ranked[b]),
    ensures
        ranked_reports(ranked, h, nt),
{
    lemma_ranked_from_groups(all, ranked, h, nt);
    lemma_ranked_covers(all, ranked, h, nt);
}

/// The History review of a snapshot's Session History: Focus time per
/// Task (records without a Task under `no_task`), most first; the number of
/// Completed, Stopped and Skipped Sessions; the Focus and break time; and
/// the rhythm of the last forty records.
pub fn review_summary(history: &Vec<RecentSessionSummary>, no_task: &str) -> (summary: ReviewSummary)
    ensures
        ranked_reports(summary.ranked@, history@, no_task@),
        summary.completed == outcome_count(history@, "Completed"@),
        summary.stopped == outcome_count(history@, "Stopped"@),
        summary.skipped == outcome_count(history@, "Skipped"@),
        summary.focus_seconds == kind_total(history@, true),
        summary.break_seconds == kind_total(history@, false),
        summary.rhythm@ == rhythm_spec(history@),
{
    let groups = group_labels(history, no_task);
    let ghost all = groups@;
    let ranked = order_entries(groups);
    proof {
        lemma_ranked(all, ranked@, history@, no_task@);
    }
    let (completed, stopped, skipped, focus_seconds, break_seconds) = review_totals(history);
    let rhythm = rhythm_of(history);
    ReviewSummary { ranked, completed, stopped, skipped, focus_seconds, break_seconds, rhythm }
}

// ---------------------------------------------------------------------------
// The Current Session.
// ---------------------------------------------------------------------------

/// The share of the planned time that has passed, in percent, at most 100.
pub open spec fn progress_spec(planned: u64, remaining: u64) -> u64 {
    let elapsed: int = if planned < remaining {
        0
    } else {
        planned - remaining
    };
    let scaled: int = if elapsed * 100 > u64::MAX {
        u64::MAX as int
    } else {
        elapsed * 100
    };
    if planned == 0 {
        0
    } else if scaled / (planned as int) > 100 {
        100
    } else {
        (scaled / (planned as int)) as u64
    }
}

pub fn progress_percentage(planned: u64, remaining: u64) -> (share: u64)
    ensures
        share == progress_spec(planned, remaining),
        share <= 100,
{
    let elapsed = if planned < remaining {
        0
    } else {
        planned - remaining
    };
    let scaled = if elapsed > u64::MAX / 100 {
        u64::MAX
    } else {
        elapsed * 100
    };
    proof {
        if elapsed > u64::MAX / 100 {
            assert(elapsed * 100 > u64::MAX) by (nonlinear_arith)
                requires
                    elapsed > u64::MAX / 100,
            ;
        } else {
            assert(elapsed * 100 <= u64::MAX) by (nonlinear_arith)
                requires
                    elapsed <= u64::MAX / 100,
            ;
        }
    }
    if planned == 0 {
        0
    } else if scaled / planned > 100 {
        100
    } else {
        scaled / planned
    }
}

/// The focus time of the first Task, from position `i` on, with the
/// identity `id`; zero when there is none.
pub open spec fn task_focus_from(tasks: Seq<TaskSummary>, id: u64, i: int) -> u64
    decreases tasks.len() - i,
{
    if i < 0 || i >= tasks.len() {
        0
    } else if tasks[i].id == id {
        tasks[i].focus_seconds
    } else {
        task_focus_from(tasks, id, i + 1)
    }
}

/// The focus time of the Current Session's Task: that of the first Task with
/// its identity, zero when it has none or no Task has it.
pub fn current_task_focus(s: &Snapshot) -> (seconds: u64)
    ensures
        seconds == match s.current_task_id {
            Some(id) => task_focus_from(s.tasks@, id, 0),
            None => 0,
        },
{
    match s.current_task_id {
        None => 0,
        Some(id) => {
            let mut i: usize = 0;
            while i < s.tasks.len()
                invariant
                    i <= s.tasks@.len(),
                    s.current_task_id == Some(id),
                    task_focus_from(s.tasks@, id, 0) == task_focus_from(s.tasks@, id, i as int),
                decreases s.tasks@.len() - i,
            {
                if s.tasks[i].id == id {
                    assert(task_focus_from(s.tasks@, id, i as int) == s.tasks@[i as int].focus_seconds);
                    return s.tasks[i].focus_seconds;
                }
                i = i + 1;
            }
            0
        },
    }
}

// ---------------------------------------------------------------------------
// Snapshots as they arrive.
// ---------------------------------------------------------------------------

/// Whether a new snapshot shows that the Running Session just completed: the
/// last one was running and the new one is pending.
pub open spec fn just_completed(previous: Option<Snapshot>, next: Option<Snapshot>) -> bool {
    &&& previous matches Some(p) && p.state@ == "running"@
    &&& next matches Some(n) && n.state@ == "pending"@
}

impl App {
    /// Takes a new snapshot (none while the Timer Service is unavailable);
    /// when it shows that the Running Session just completed, the completion
    /// animation starts.
    pub fn receive_snapshot(&mut self, snapshot: Option<Snapshot>, animation: Animation)
        ensures
            just_completed(old(self).snapshot, snapshot) ==> *final(self) == (App {
                snapshot,
                completion: Some(CompletionPlayback { animation, elapsed_ms: 0 }),
                ..*old(self)
            }),
            !just_completed(old(self).snapshot, snapshot) ==> *final(self) == (App { snapshot, ..*old(self) }),
    {
        let was_running = match &self.snapshot {
            Some(p) => str_equal(p.state.as_str(), "running"),
            None => false,
        };
        let now_pending = match &snapshot {
            Some(n) => str_equal(n.state.as_str(), "pending"),
            None => false,
        };
        self.snapshot = snapshot;
        if was_running && now_pending {
            self.begin_completion(animation);
        }
    }
}


// ---------------------------------------------------------------------------
// Heading of the Session History view.
// ---------------------------------------------------------------------------

/// `a` and `b` apart.
pub open spec fn distance(a: usize, b: usize) -> int {
    if a < b {
        b - a
    } else {
        a - b
    }
}

/// How many entries a deletion would take: the marked ones, else the range
/// from the visual anchor to the cursor, else the one under the cursor.
pub open spec fn selected_count_spec(marked: Set<u64>, anchor: Option<usize>, cursor: usize) -> int {
    if !marked.is_empty() {
        marked.len() as int
    } else {
        match anchor {
            Some(a) => saturating_add_usize(distance(a, cursor), 1),
            None => 1,
        }
    }
}

/// The number of history entries a deletion would take.
pub fn selected_count(app: &App) -> (count: usize)
    ensures
        count == selected_count_spec(app.marked_history@, app.visual_anchor, app.history_cursor),
{
    proof {
        lemma_ids_ordered();
    }
    if !app.marked_history.is_empty() {
        app.marked_history.len()
    } else {
        match app.visual_anchor {
            Some(a) => {
                let d = if a < app.history_cursor {
                    app.history_cursor - a
                } else {
                    a - app.history_cursor
                };
                if d == usize::MAX {
                    usize::MAX
                } else {
                    d + 1
                }
            },
            None => 1,
        }
    }
}

/// The heading above the Session History of `total` entries, `visible` of
/// which fit: a selection shows its size and how to delete it, a list that
/// does not fit shows which entries are in view.
pub open spec fn history_heading_spec(app: App, total: usize, visible: usize) -> Seq<char> {
    let past = text_spec(app.language, "PAST"@, "过去"@);
    let count = decimal(selected_count_spec(
        app.marked_history@,
        app.visual_anchor,
        app.history_cursor,
    ) as nat);
    let delete = text_spec(app.language, "D delete"@, "D 删除"@);
    if !app.marked_history@.is_empty() {
        past + " · "@ + text_spec(app.language, "MARKED"@, "已选"@) + " "@ + count + " · "@ + delete
    } else if app.visual_anchor is Some {
        past + " · "@ + text_spec(app.language, "VISUAL"@, "多选"@) + " "@ + count + " · "@ + delete
    } else if total > visible {
        let first = if saturating_add_usize(app.history_offset as int, 1) < total {
            saturating_add_usize(app.history_offset as int, 1)
        } else {
            total as int
        };
        let last = if saturating_add_usize(app.history_offset as int, visible as int) < total {
            saturating_add_usize(app.history_offset as int, visible as int)
        } else {
            total as int
        };
        past + " · "@ + decimal(first as nat) + "–"@ + decimal(last as nat) + " / "@ + decimal(
            total as nat,
        ) + " · "@ + text_spec(app.language, "↑↓ scroll"@, "↑↓ 滚动"@)
    } else {
        past
    }
}

fn saturating_add(a: usize, b: usize) -> (sum: usize)
    ensures
        sum == saturating_add_usize(a as int, b as int),
{
    if a > usize::MAX - b {
        usize::MAX
    } else {
        a + b
    }
}

/// The heading above the Session History.
pub fn history_heading(app: &App, total: usize, visible: usize) -> (heading: String)
    ensures
        heading@ == history_heading_spec(*app, total, visible),
{
    let past = text(app.language, "PAST", "过去");
    let dot = " · ";
    if !app.marked_history.is_empty() || app.visual_anchor.is_some() {
        let label = if !app.marked_history.is_empty() {
            text(app.language, "MARKED", "已选")
        } else {
            text(app.language, "VISUAL", "多选")
        };
        let count = decimal_string(selected_count(app) as u64);
        let delete = text(app.language, "D delete", "D 删除");
        let s = concat(past, dot);
        let s = concat(s.as_str(), label);
        let s = concat(s.as_str(), " ");
        let s = concat(s.as_str(), count.as_str());
        let s = concat(s.as_str(), dot);
        let h = concat(s.as_str(), delete);
        assert(h@ =~= history_heading_spec(*app, total, visible));
        h
    } else if total > visible {
        let start = saturating_add(app.history_offset, 1);
        let first = if start < total {
            start
        } else {
            total
        };
        let end = saturating_add(app.history_offset, visible);
        let last = if end < total {
            end
        } else {
            total
        };
        let s = concat(past, dot);
        let s = concat(s.as_str(), decimal_string(first as u64).as_str());
        let s = concat(s.as_str(), "–");
        let s = concat(s.as_str(), decimal_string(last as u64).as_str());
        let s = concat(s.as_str(), " / ");
        let s = concat(s.as_str(), decimal_string(total as u64).as_str());
        let s = concat(s.as_str(), dot);
        let h = concat(s.as_str(), text(app.language, "↑↓ scroll", "↑↓ 滚动"));
        assert(h@ =~= history_heading_spec(*app, total, visible));
        h
    } else {
        let h = concat(past, "");
        proof {
            reveal_strlit("");
        }
        assert(h@ =~= history_heading_spec(*app, total, visible));
        h
    }
}

/// Whether the history row at `index`, the record `id`, is selected: it lies
/// between the visual anchor and the cursor, or it is marked.
pub open spec fn row_selected_spec(app: App, index: usize, id: u64) -> bool {
    (app.visual_anchor matches Some(a) && ((a <= index <= app.history_cursor) || (app.history_cursor
        <= index <= a))) || app.marked_history@.contains(id)
}

/// Whether the history row at `index`, the record `id`, is drawn as selected.
pub fn history_row_selected(app: &App, index: usize, id: u64) -> (selected: bool)
    ensures
        selected == row_selected_spec(*app, index, id),
{
    proof {
        lemma_ids_ordered();
    }
    let in_range = match app.visual_anchor {
        Some(a) => {
            let (low, high) = if a < app.history_cursor {
                (a, app.history_cursor)
            } else {
                (app.history_cursor, a)
            };
            low <= index && index <= high
        },
        None => false,
    };
    in_range || app.marked_history.contains(&id)
}
} // verus!
