//! The text of the desktop tray indicator.

use crate::protocol::{SessionKind, Snapshot};
use crate::text::{concat, concat3, decimal, decimal_padded, decimal_padded_string, decimal_string, str_equal};
use vstd::prelude::*;

verus! {

/// The icon for a Session state.
pub open spec fn tray_icon(state: Seq<char>) -> Seq<char> {
    if state == "running"@ {
        "▶"@
    } else if state == "paused"@ {
        "⏸"@
    } else {
        "⏹"@
    }
}

/// `MM:SS` for a number of seconds, minutes padded to two digits at least.
pub open spec fn minutes_seconds(seconds: u64) -> Seq<char> {
    decimal_padded((seconds / 60) as nat, 2) + ":"@ + decimal_padded((seconds % 60) as nat, 2)
}

pub fn minutes_seconds_string(seconds: u64) -> (s: String)
    ensures
        s@ == minutes_seconds(seconds),
{
    let minutes = decimal_padded_string(seconds / 60, 2);
    let secs = decimal_padded_string(seconds % 60, 2);
    concat3(minutes.as_str(), ":", secs.as_str())
}

/// Formats the tray text: a state icon and the remaining time.
pub fn format_tray_text(snapshot: &Snapshot) -> (text: String)
    ensures
        text@ == tray_icon(snapshot.state@) + " "@ + minutes_seconds(snapshot.remaining_seconds),
{
    let icon = if str_equal(snapshot.state.as_str(), "running") {
        "▶"
    } else if str_equal(snapshot.state.as_str(), "paused") {
        "⏸"
    } else {
        "⏹"
    };
    let time = minutes_seconds_string(snapshot.remaining_seconds);
    concat3(icon, " ", time.as_str())
}

pub open spec fn tray_state_label(state: Seq<char>) -> Seq<char> {
    if state == "running"@ {
        "Running"@
    } else if state == "paused"@ {
        "Paused"@
    } else if state == "pending"@ {
        "Pending"@
    } else {
        state
    }
}

pub open spec fn tray_kind_label(kind: SessionKind) -> Seq<char> {
    match kind {
        SessionKind::Focus => "Focus"@,
        SessionKind::ShortBreak => "Short Break"@,
        SessionKind::LongBreak => "Long Break"@,
    }
}

/// The status line at the top of the tray menu.
pub open spec fn status_line(snapshot: Snapshot) -> Seq<char> {
    tray_state_label(snapshot.state@) + " "@ + tray_kind_label(snapshot.kind) + " · round "@
        + decimal(snapshot.completed_rounds as nat) + "/"@ + decimal(
        snapshot.rounds_per_cycle as nat,
    ) + " · "@ + match snapshot.current_task {
        Some(t) => t@,
        None => "No task"@,
    }
}

/// Returns the status line shown at the top of the context menu.
pub fn format_status_line(snapshot: &Snapshot) -> (line: String)
    ensures
        line@ == status_line(*snapshot),
{
    let state_label = if str_equal(snapshot.state.as_str(), "running") {
        "Running"
    } else if str_equal(snapshot.state.as_str(), "paused") {
        "Paused"
    } else if str_equal(snapshot.state.as_str(), "pending") {
        "Pending"
    } else {
        snapshot.state.as_str()
    };
    let kind_label = match snapshot.kind {
        SessionKind::Focus => "Focus",
        SessionKind::ShortBreak => "Short Break",
        SessionKind::LongBreak => "Long Break",
    };
    let completed = decimal_string(snapshot.completed_rounds as u64);
    let per_cycle = decimal_string(snapshot.rounds_per_cycle as u64);
    let task = match &snapshot.current_task {
        Some(t) => t.as_str(),
        None => "No task",
    };
    let a = concat3(state_label, " ", kind_label);
    let b = concat3(a.as_str(), " · round ", completed.as_str());
    let c = concat3(b.as_str(), "/", per_cycle.as_str());
    let d = concat3(c.as_str(), " · ", task);
    d
}

} // verus!
