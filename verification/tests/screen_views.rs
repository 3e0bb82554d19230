use std::collections::BTreeSet;

use pomotui::animation::built_in;
use pomotui::config::Keybindings;
use pomotui::protocol::{
    ActionChainSummary, DurableHealth, DurableHealthState, RecentSessionSummary, ReminderDelivery,
    SessionKind, Snapshot, TaskFocusSummary, TaskSummary, TodaySummary,
};
use pomotui::screen::{current_task_focus, history_heading, history_row_selected, history_visible_records, progress_percentage, review_summary, selected_count};
use pomotui::settings::{sound_path, ServiceSettings};
use pomotui::tui::{App, Language, Page, Theme};

fn record(id: u64, kind: SessionKind, outcome: &str, seconds: u64, title: Option<&str>) -> RecentSessionSummary {
    RecentSessionSummary {
        id,
        kind,
        outcome: outcome.into(),
        actual_seconds: seconds,
        task_title: title.map(str::to_owned),
    }
}

fn snapshot(state: &str, history: Vec<RecentSessionSummary>) -> Snapshot {
    Snapshot {
        state: state.into(),
        kind: SessionKind::Focus,
        remaining_seconds: 600,
        planned_seconds: 1_500,
        current_task: Some("Write".into()),
        current_task_id: Some(2),
        completed_rounds: 0,
        rounds_per_cycle: 4,
        next_kind: Some(SessionKind::ShortBreak),
        durable_health: DurableHealth {
            state: DurableHealthState::Healthy,
            last_successful_commit: None,
            error: None,
        },
        reminder_delivery: ReminderDelivery::default(),
        tasks: vec![
            TaskSummary { id: 1, title: "Read".into(), completed: false, focus_seconds: 300 },
            TaskSummary { id: 2, title: "Write".into(), completed: false, focus_seconds: 1_200 },
        ],
        today: Box::new(TodaySummary {
            focus_seconds: 0,
            completed_rounds: 0,
            seven_day_focus_seconds: [0; 7],
            seven_day_dates: Default::default(),
            average_focus_seconds: 0,
            task_focus: vec![TaskFocusSummary { task_title: None, focus_seconds: 0 }],
        }),
        recent_history: history,
        action_chain: ActionChainSummary::default(),
        pending_review: None,
        recent_chain_links: Vec::new(),
    }
}

#[test]
fn history_panel_fits_at_least_one_record() {
    assert_eq!(history_visible_records(30, false), 19);
    assert_eq!(history_visible_records(30, true), 10);
    assert_eq!(history_visible_records(5, false), 1);
    assert_eq!(history_visible_records(0, true), 1);
}

#[test]
fn history_viewport_follows_the_cursor_and_drops_stale_marks() {
    let history = (1..=10).map(|id| record(id, SessionKind::Focus, "Completed", 60, None)).collect();
    let mut app = App::new(Some(snapshot("pending", history)), Theme::VermilionPaperDark);
    app.view = Page::History;
    app.history_cursor = 25;
    app.marked_history = BTreeSet::from([3, 42]);
    app.fit_history(4);
    assert_eq!(app.history_cursor, 9);
    assert_eq!(app.history_offset, 6);
    assert_eq!(app.marked_history.iter().copied().collect::<Vec<_>>(), vec![3]);
    app.history_cursor = 1;
    app.fit_history(4);
    assert_eq!(app.history_offset, 1);
    let mut offline = App::new(None, Theme::VermilionPaperDark);
    offline.marked_history = BTreeSet::from([1]);
    offline.history_cursor = 3;
    offline.fit_history(4);
    assert_eq!((offline.history_cursor, offline.history_offset), (0, 0));
    assert!(offline.marked_history.is_empty());
}

#[test]
fn review_ranks_tasks_and_counts_outcomes() {
    let history = vec![
        record(1, SessionKind::Focus, "Completed", 600, Some("Write")),
        record(2, SessionKind::ShortBreak, "Completed", 300, None),
        record(3, SessionKind::Focus, "Stopped", 120, None),
        record(4, SessionKind::Focus, "Completed", 600, Some("Read")),
        record(5, SessionKind::LongBreak, "Skipped", 0, None),
        record(6, SessionKind::Focus, "Completed", 300, Some("Write")),
    ];
    let review = review_summary(&history, "No Task");
    let ranked: Vec<(Option<String>, u64)> =
        review.ranked.iter().map(|e| (e.task_title.clone(), e.focus_seconds)).collect();
    assert_eq!(
        ranked,
        vec![
            (Some("Write".to_string()), 900),
            (Some("Read".to_string()), 600),
            (Some("No Task".to_string()), 120),
        ]
    );
    assert_eq!((review.completed, review.stopped, review.skipped), (4, 1, 1));
    assert_eq!((review.focus_seconds, review.break_seconds), (1_620, 300));
    assert_eq!(review.rhythm, "■◆■■·■");
}

#[test]
fn review_breaks_ties_by_title() {
    let history = vec![
        record(1, SessionKind::Focus, "Completed", 60, Some("b")),
        record(2, SessionKind::Focus, "Completed", 60, Some("a")),
    ];
    let review = review_summary(&history, "none");
    assert_eq!(review.ranked[0].task_title.as_deref(), Some("a"));
    assert_eq!(review.ranked[1].task_title.as_deref(), Some("b"));
    let many: Vec<_> = (0..50).map(|id| record(id, SessionKind::ShortBreak, "Completed", 1, None)).collect();
    assert_eq!(review_summary(&many, "none").rhythm.chars().count(), 40);
}

#[test]
fn progress_and_task_time_of_the_current_session() {
    assert_eq!(progress_percentage(1_500, 600), 60);
    assert_eq!(progress_percentage(0, 0), 0);
    assert_eq!(progress_percentage(100, 200), 0);
    let s = snapshot("running", Vec::new());
    assert_eq!(current_task_focus(&s), 1_200);
    let mut without = s.clone();
    without.current_task_id = Some(9);
    assert_eq!(current_task_focus(&without), 0);
}

#[test]
fn a_completed_running_session_starts_the_animation() {
    let mut app = App::new(Some(snapshot("running", Vec::new())), Theme::VermilionPaperDark);
    app.receive_snapshot(Some(snapshot("pending", Vec::new())), built_in());
    assert!(app.completion.is_some());
    let mut quiet = App::new(Some(snapshot("paused", Vec::new())), Theme::VermilionPaperDark);
    quiet.receive_snapshot(Some(snapshot("pending", Vec::new())), built_in());
    assert!(quiet.completion.is_none());
    quiet.receive_snapshot(None, built_in());
    assert!(quiet.snapshot.is_none());
}

#[test]
fn configured_keys_stand_for_built_in_keys() {
    let mut keys = Keybindings::default();
    assert_eq!(keys.canonical('j'), 'j');
    keys.down = "n".into();
    keys.quit = "x".into();
    assert_eq!(keys.canonical('n'), 'j');
    assert_eq!(keys.canonical('x'), 'q');
    assert_eq!(keys.canonical('z'), 'z');
}

#[test]
fn service_settings_give_lengths_in_seconds() {
    let settings = ServiceSettings::default();
    let durations = settings.durations().expect("defaults");
    assert_eq!((durations.focus(), durations.short_break(), durations.long_break()), (1_500, 300, 900));
    let loud = ServiceSettings { volume: 101, ..ServiceSettings::default() };
    assert_eq!(loud.durations().unwrap_err(), "volume must be between 0 and 100");
    let zero = ServiceSettings { focus_minutes: 0, ..ServiceSettings::default() };
    assert_eq!(zero.durations().unwrap_err(), "Session durations must be nonzero");
    assert_eq!(sound_path("builtin:complete"), "/usr/share/sounds/freedesktop/stereo/complete.oga");
    assert_eq!(sound_path("/tmp/bell.oga"), "/tmp/bell.oga");
}

#[test]
fn history_heading_shows_selection_or_scroll_window() {
    let mut app = App::new(None, Theme::VermilionPaperDark);
    assert_eq!(history_heading(&app, 3, 5), "PAST");
    app.history_offset = 2;
    assert_eq!(history_heading(&app, 10, 4), "PAST · 3–6 / 10 · ↑↓ scroll");
    app.history_offset = 8;
    assert_eq!(history_heading(&app, 10, 4), "PAST · 9–10 / 10 · ↑↓ scroll");
    app.history_cursor = 4;
    app.visual_anchor = Some(1);
    assert_eq!(selected_count(&app), 4);
    assert_eq!(history_heading(&app, 10, 4), "PAST · VISUAL 4 · D delete");
    app.marked_history = BTreeSet::from([3, 7]);
    assert_eq!(selected_count(&app), 2);
    assert_eq!(history_heading(&app, 10, 4), "PAST · MARKED 2 · D delete");
    app.language = Language::SimplifiedChinese;
    assert_eq!(history_heading(&app, 10, 4), "过去 · 已选 2 · D 删除");
}

#[test]
fn history_rows_are_selected_by_range_or_mark() {
    let mut app = App::new(None, Theme::VermilionPaperDark);
    assert!(!history_row_selected(&app, 0, 10));
    app.history_cursor = 2;
    app.visual_anchor = Some(4);
    assert!(history_row_selected(&app, 3, 10));
    assert!(history_row_selected(&app, 4, 10));
    assert!(!history_row_selected(&app, 5, 10));
    app.visual_anchor = None;
    app.marked_history = BTreeSet::from([10]);
    assert!(history_row_selected(&app, 9, 10));
    assert!(!history_row_selected(&app, 9, 11));
}
