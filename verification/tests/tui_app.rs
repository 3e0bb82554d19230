use pomotui::animation::built_in;
use pomotui::protocol::{
    ActionChainSummary, Command, DurableHealth, DurableHealthState, RecentSessionSummary,
    ReminderDelivery, SessionKind, Snapshot, TaskFocusSummary, TaskSummary, TodaySummary,
};
use pomotui::tui::{
    big_clock, contrasting_text, human_duration, report_bar, trend, truncate, Action, App, Color,
    InputKey, Overlay, Page, Theme,
};

fn snapshot(state: &str, kind: SessionKind) -> Snapshot {
    Snapshot {
        state: state.into(),
        kind,
        remaining_seconds: 90,
        planned_seconds: 1_500,
        current_task: Some("Ship Pomotui".into()),
        current_task_id: Some(1),
        completed_rounds: 2,
        rounds_per_cycle: 4,
        next_kind: Some(SessionKind::ShortBreak),
        durable_health: DurableHealth {
            state: DurableHealthState::Healthy,
            last_successful_commit: None,
            error: None,
        },
        reminder_delivery: ReminderDelivery::default(),
        tasks: vec![TaskSummary {
            id: 1,
            title: "Ship Pomotui".into(),
            completed: false,
            focus_seconds: 1_500,
        }],
        today: Box::new(TodaySummary {
            focus_seconds: 3_000,
            completed_rounds: 2,
            seven_day_focus_seconds: [0, 600, 1_200, 900, 1_500, 2_400, 3_000],
            seven_day_dates: [
                "2026-07-21".into(),
                "2026-07-22".into(),
                "2026-07-23".into(),
                "2026-07-24".into(),
                "2026-07-25".into(),
                "2026-07-26".into(),
                "2026-07-27".into(),
            ],
            average_focus_seconds: 1_371,
            task_focus: vec![
                TaskFocusSummary { task_title: Some("Ship Pomotui".into()), focus_seconds: 2_400 },
                TaskFocusSummary { task_title: None, focus_seconds: 600 },
            ],
        }),
        recent_history: vec![
            RecentSessionSummary {
                id: 1,
                kind: SessionKind::Focus,
                outcome: "Completed".into(),
                actual_seconds: 1_500,
                task_title: Some("Ship Pomotui".into()),
            },
            RecentSessionSummary {
                id: 1,
                kind: SessionKind::ShortBreak,
                outcome: "Completed".into(),
                actual_seconds: 300,
                task_title: None,
            },
        ],
        action_chain: ActionChainSummary::default(),
        pending_review: None,
        recent_chain_links: vec![],
    }
}

#[test]
fn large_countdown_digits_use_a_balanced_five_column_canvas() {
    let one = big_clock("1");
    assert_eq!(
        one,
        ["  ██ ", " ███ ", "  ██ ", "  ██ ", "█████"],
        "the large 1 must have a base and shoulder instead of a thin stroke"
    );
    assert!(
        big_clock("25:00").iter().all(|row| row.chars().count() == 29),
        "five glyphs and their separators must have stable geometry"
    );
}

#[test]
fn completion_animation_is_frontend_only_and_pending_remains_pending() {
    let mut app = App::new(Some(snapshot("pending", SessionKind::ShortBreak)), Theme::VermilionPaperDark);
    app.begin_completion(built_in());
    app.animation_tick(90);
    assert_eq!(app.snapshot.as_ref().expect("snapshot").state, "pending");
    assert_eq!(app.key('x'), None);
}

#[test]
fn escape_closes_command_palette() {
    let mut app = App::new(Some(snapshot("pending", SessionKind::Focus)), Theme::VermilionPaperDark);
    app.key(':');
    assert_eq!(app.overlay, Overlay::Palette);

    app.key('\u{1b}');

    assert_eq!(app.overlay, Overlay::Closed);
}

#[test]
fn selecting_a_pending_task_rebinds_without_starting() {
    let mut value = snapshot("pending", SessionKind::Focus);
    value.tasks.push(TaskSummary {
        id: 2,
        title: "Write journal".into(),
        completed: false,
        focus_seconds: 0,
    });
    let mut app = App::new(Some(value), Theme::VermilionPaperDark);

    assert_eq!(app.handle_key(InputKey::Down), None);
    assert_eq!(app.selected_task, 1);
    assert_eq!(
        app.handle_key(InputKey::Enter),
        Some(Action::Command(Command::TaskSelect { id: 2, stop_current: false }))
    );
    assert_eq!(
        app.handle_key(InputKey::Char(' ')),
        Some(Action::Command(Command::Start { kind: SessionKind::Focus, task_id: Some(2) }))
    );
}

#[test]
fn active_task_switch_and_visual_history_delete_require_confirmation() {
    let mut value = snapshot("running", SessionKind::Focus);
    value.tasks.push(TaskSummary {
        id: 2,
        title: "Next".into(),
        completed: false,
        focus_seconds: 0,
    });
    value.recent_history = (1..=8)
        .map(|id| RecentSessionSummary {
            id,
            kind: SessionKind::Focus,
            outcome: "Stopped".into(),
            actual_seconds: id,
            task_title: Some(format!("Task {id}")),
        })
        .collect();
    let mut app = App::new(Some(value), Theme::VermilionPaperDark);
    app.handle_key(InputKey::Down);
    assert_eq!(app.handle_key(InputKey::Enter), None);
    assert_eq!(app.overlay, Overlay::ConfirmTaskSwitch);
    assert_eq!(
        app.handle_key(InputKey::Enter),
        Some(Action::Command(Command::TaskSelect { id: 2, stop_current: true }))
    );

    app.view = Page::History;
    app.handle_key(InputKey::Char('G'));
    assert_eq!(app.history_cursor, 7);
    app.handle_key(InputKey::Char('g'));
    app.handle_key(InputKey::Char('g'));
    assert_eq!(app.history_cursor, 0);
    app.handle_key(InputKey::Char('v'));
    app.handle_key(InputKey::Char('d'));
    assert_eq!(app.history_cursor, 5);
    app.handle_key(InputKey::Char('D'));
    assert_eq!(app.overlay, Overlay::ConfirmHistoryDelete);
    assert_eq!(
        app.handle_key(InputKey::Enter),
        Some(Action::Command(Command::HistoryDelete { ids: vec![1, 2, 3, 4, 5, 6] }))
    );
}

#[test]
fn task_workflows_emit_the_same_protocol_commands_as_the_cli() {
    let mut app = App::new(Some(snapshot("pending", SessionKind::Focus)), Theme::VermilionPaperDark);

    app.key('n');
    for character in "New task".chars() {
        app.handle_key(InputKey::Char(character));
    }
    assert_eq!(
        app.handle_key(InputKey::Enter),
        Some(Action::Command(Command::TaskCreate { title: "New task".into() }))
    );

    app.key('r');
    app.input.clear();
    for character in "Renamed".chars() {
        app.handle_key(InputKey::Char(character));
    }
    assert_eq!(
        app.handle_key(InputKey::Enter),
        Some(Action::Command(Command::TaskRename { id: 1, title: "Renamed".into() }))
    );
    assert_eq!(app.key('c'), Some(Action::Command(Command::TaskComplete { id: 1 })));

    app.key('D');
    assert_eq!(app.overlay, Overlay::ConfirmDelete);
    assert_eq!(app.key('y'), Some(Action::Command(Command::TaskDelete { id: 1 })));
}

#[test]
fn marked_history_records_are_deleted_together() {
    let mut value = snapshot("pending", SessionKind::Focus);
    value.recent_history = (1..=4)
        .map(|id| RecentSessionSummary {
            id: 10 * id,
            kind: SessionKind::Focus,
            outcome: "Stopped".into(),
            actual_seconds: id,
            task_title: None,
        })
        .collect();
    let mut app = App::new(Some(value), Theme::RanPaperLight);
    app.view = Page::History;
    app.handle_key(InputKey::Down);
    app.handle_key(InputKey::Down);
    app.handle_key(InputKey::Char(' '));
    app.handle_key(InputKey::Up);
    app.handle_key(InputKey::Up);
    app.handle_key(InputKey::AltSpace);
    assert_eq!(app.marked_history.iter().copied().collect::<Vec<_>>(), vec![10, 30]);
    app.handle_key(InputKey::Char(' '));
    assert_eq!(app.marked_history.iter().copied().collect::<Vec<_>>(), vec![30]);
    app.handle_key(InputKey::Char('D'));
    assert_eq!(
        app.handle_key(InputKey::Char('y')),
        Some(Action::Command(Command::HistoryDelete { ids: vec![30] }))
    );
    assert!(app.marked_history.is_empty());
}

#[test]
fn settings_cycle_themes_and_languages() {
    let mut app = App::new(None, Theme::RanPaperDark);
    app.key('s');
    assert_eq!(app.overlay, Overlay::Settings);
    app.key('t');
    assert_eq!(app.theme, Theme::VermilionPaperLight);
    assert_eq!(
        app.key('g'),
        Some(Action::SetLanguage(pomotui::tui::Language::SimplifiedChinese))
    );
    assert_eq!(app.key('q'), None);
    app.key('\u{1b}');
    assert_eq!(app.key('q'), Some(Action::Quit));
}

#[test]
fn empty_task_title_is_refused_with_a_message() {
    let mut app = App::new(Some(snapshot("pending", SessionKind::Focus)), Theme::VermilionPaperDark);
    app.key('n');
    app.handle_key(InputKey::Char(' '));
    assert_eq!(app.handle_key(InputKey::Enter), None);
    assert_eq!(app.message.as_deref(), Some("Task title cannot be empty"));
    assert_eq!(app.overlay, Overlay::CreateTask);
}

#[test]
fn text_helpers_have_exact_shapes() {
    assert_eq!(report_bar(5, 10, 4), "██··");
    assert_eq!(report_bar(5, 0, 3), "···");
    assert_eq!(trend([0, 1, 2, 3, 4, 5, 7]), "▁▂▃▄▅▆█");
    assert_eq!(human_duration(59 * 60), "59m");
    assert_eq!(human_duration(2 * 3600 + 5 * 60), "2h 05m");
    assert_eq!(truncate("abcdef", 4), "abc…");
    assert_eq!(truncate("写日记写日记", 5), "写日…");
    assert_eq!(truncate("abc", 1), "…");
    assert_eq!(contrasting_text(Color::Rgb(245, 220, 90)), Color::Black);
    assert_eq!(contrasting_text(Color::Rgb(20, 30, 40)), Color::White);
    assert_eq!(contrasting_text(Color::LightCyan), Color::Black);
}
