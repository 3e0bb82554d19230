use pomotui::protocol::{
    ActionChainSummary, DurableHealth, DurableHealthState, ReminderDelivery, SessionKind, Snapshot,
};
use pomotui::tray::{format_status_line, format_tray_text};

fn make_snapshot(state: &str, kind: SessionKind, remaining: u64) -> Snapshot {
    Snapshot {
        state: state.to_owned(),
        kind,
        remaining_seconds: remaining,
        planned_seconds: 1500,
        current_task: Some("Write code".to_owned()),
        current_task_id: Some(1),
        completed_rounds: 2,
        rounds_per_cycle: 4,
        next_kind: None,
        durable_health: DurableHealth {
            state: DurableHealthState::Healthy,
            last_successful_commit: None,
            error: None,
        },
        reminder_delivery: ReminderDelivery {
            pending: 0,
            retrying: 0,
            delivered: 0,
            exhausted: 0,
        },
        tasks: vec![],
        today: Box::default(),
        recent_history: vec![],
        action_chain: ActionChainSummary::default(),
        pending_review: None,
        recent_chain_links: vec![],
    }
}

#[test]
fn running_focus_shows_play_icon_with_time() {
    let snap = make_snapshot("running", SessionKind::Focus, 1500);
    assert_eq!(format_tray_text(&snap), "▶ 25:00");
}

#[test]
fn paused_shows_pause_icon() {
    let snap = make_snapshot("paused", SessionKind::Focus, 900);
    assert_eq!(format_tray_text(&snap), "⏸ 15:00");
}

#[test]
fn pending_shows_stop_icon_with_zero() {
    let snap = make_snapshot("pending", SessionKind::Focus, 0);
    assert_eq!(format_tray_text(&snap), "⏹ 00:00");
}

#[test]
fn remaining_seconds_padded() {
    let snap = make_snapshot("running", SessionKind::Focus, 65);
    assert_eq!(format_tray_text(&snap), "▶ 01:05");
}

#[test]
fn status_line_includes_kind_and_round() {
    let snap = make_snapshot("running", SessionKind::Focus, 1500);
    assert_eq!(
        format_status_line(&snap),
        "Running Focus · round 2/4 · Write code"
    );
}

#[test]
fn status_line_shows_no_task_when_absent() {
    let mut snap = make_snapshot("pending", SessionKind::ShortBreak, 0);
    snap.current_task = None;
    assert_eq!(
        format_status_line(&snap),
        "Pending Short Break · round 2/4 · No task"
    );
}
