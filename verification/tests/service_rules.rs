use pomotui::calendar::{calendar_for, local_day_boundaries};
use pomotui::domain::{CurrentSession, SessionDurations, SessionKind as DomainKind, SessionOutcome, TaskId};
use pomotui::protocol::{
    Command, DataValue, DurableHealthState, ProtocolError, ReminderDelivery, Request, Response,
    SessionKind, TaskTitleRule, PROTOCOL_VERSION,
};
use pomotui::recovery::RecoveryObservation;
use pomotui::service::{
    Calendar, CompletionOutcome, Dispatch, Handled, Observed, Reply, Service, StoreOutcome,
};
use pomotui::tasks::SessionRecord;

fn request(key: Option<&str>, command: Command) -> Request {
    Request {
        version: PROTOCOL_VERSION,
        idempotency_key: key.map(str::to_owned),
        command,
    }
}

fn wall_now() -> i64 {
    std::time::SystemTime::now()
        .duration_since(std::time::UNIX_EPOCH)
        .expect("wall clock")
        .as_secs() as i64
}

fn fresh() -> (Service, Calendar) {
    let wall = wall_now();
    (Service::new(1_000, wall), calendar_for(wall))
}

fn delivery() -> ReminderDelivery {
    ReminderDelivery::default()
}

#[test]
fn deadline_write_failure_degrades_and_freezes_progression() {
    let (mut service, calendar) = fresh();
    service.configure_reminder(false, false);
    service.configure_durations(SessionDurations::new(1, 1, 1).expect("durations"));
    let start = service.now();
    assert!(matches!(
        service.handle(request(None, Command::Start { kind: SessionKind::Focus, task_id: None }), &calendar),
        Response::Snapshot { .. }
    ));

    let observed = service.apply_observation(start + 1, service.wall() + 1);
    assert!(matches!(observed, Observed::Completion { .. }));
    assert_eq!(
        service.completion_saved(CompletionOutcome::Failed("disk full".into())),
        Dispatch::Nothing
    );
    assert_eq!(service.durable_health(), DurableHealthState::Degraded);
    assert_eq!(service.history().records().len(), 1);

    service.apply_observation(start + 100, service.wall() + 100);
    assert_eq!(service.history().records().len(), 1);
    assert_eq!(service.timer().focus_cycle().completed_rounds(), 1);
}

#[test]
fn snapshot_exposes_all_session_history() {
    let (mut service, calendar) = fresh();
    for index in 0..8 {
        service.record_history(SessionRecord {
            id: 1,
            ended_at: index,
            kind: DomainKind::Focus,
            outcome: SessionOutcome::Stopped,
            planned_seconds: 1_500,
            actual_seconds: 1,
            task_id: None,
            task_title: Some(format!("Task {index}")),
        });
    }

    assert_eq!(service.snapshot(&calendar, delivery()).recent_history.len(), 8);
}

#[test]
fn completed_focus_requires_review_before_another_focus_but_allows_break() {
    let (mut service, calendar) = fresh();
    service.configure_reminder(false, false);
    service.configure_durations(SessionDurations::new(1, 1, 1).expect("durations"));
    let start = service.now();

    assert!(matches!(
        service.handle(
            request(Some("start-focus"), Command::Start { kind: SessionKind::Focus, task_id: None }),
            &calendar
        ),
        Response::Snapshot { .. }
    ));
    service.apply_observation(start + 1, service.wall() + 1);

    let Response::Snapshot { snapshot } = service.handle(request(None, Command::Status), &calendar) else {
        panic!("status");
    };
    assert_eq!(snapshot.action_chain.length, 0);
    assert!(snapshot.pending_review.is_some());

    assert!(matches!(
        service.handle(
            request(Some("start-break"), Command::Start { kind: SessionKind::ShortBreak, task_id: None }),
            &calendar
        ),
        Response::Snapshot { .. }
    ));
    service.apply_observation(start + 2, service.wall() + 2);

    assert!(matches!(
        service.handle(
            request(Some("blocked-focus"), Command::Start { kind: SessionKind::Focus, task_id: None }),
            &calendar
        ),
        Response::Error {
            error: ProtocolError::Rejected { message }
        } if message == "Pending Review must be resolved before starting another Focus Session"
    ));
}

#[test]
fn start_by_title_creates_new_task_and_rejects_ambiguous_existing_titles() {
    let (mut service, calendar) = fresh();
    let response = service.handle(
        request(Some("new-title"), Command::StartTitle { title: "New work".into() }),
        &calendar,
    );
    assert!(matches!(response, Response::Snapshot { .. }));
    assert_eq!(service.tasks().all().len(), 1);
    service.handle(request(Some("complete-current-task"), Command::TaskComplete { id: 1 }), &calendar);
    assert_eq!(service.timer().current_task(), Some(TaskId::new(1)));
    assert!(matches!(service.timer().current_session(), CurrentSession::Running(_)));
    service.handle(request(Some("stop-new"), Command::Stop), &calendar);

    service.create_task("Duplicate").expect("first duplicate");
    service.create_task("Duplicate").expect("second duplicate");
    let response = service.handle(
        request(Some("ambiguous"), Command::StartTitle { title: "Duplicate".into() }),
        &calendar,
    );
    let Response::Error {
        error: ProtocolError::Rejected { message },
    } = response
    else {
        panic!("ambiguous rejection");
    };
    assert!(message.contains("AmbiguousTitle"));
    assert!(message.contains("TaskId"));
}

#[test]
fn task_title_rejections_are_stable_and_do_not_persist_unsafe_text() {
    let (mut service, calendar) = fresh();
    for (key, command) in [
        ("unsafe-create", Command::TaskCreate { title: "bad\u{1b}[31m".into() }),
        ("unsafe-start", Command::StartTitle { title: "bad\u{202e}title".into() }),
    ] {
        assert_eq!(
            service.handle(request(Some(key), command), &calendar),
            Response::Error {
                error: ProtocolError::InvalidTaskTitle { rule: TaskTitleRule::UnsafeCharacter }
            }
        );
    }
    assert!(service.tasks().all().is_empty());

    service.handle(request(Some("safe-create"), Command::TaskCreate { title: "Safe".into() }), &calendar);
    assert_eq!(
        service.handle(
            request(Some("unsafe-rename"), Command::TaskRename { id: 1, title: "line\nbreak".into() }),
            &calendar
        ),
        Response::Error {
            error: ProtocolError::InvalidTaskTitle { rule: TaskTitleRule::UnsafeCharacter }
        }
    );
    assert_eq!(service.tasks().get(TaskId::new(1)).expect("task").title(), "Safe");
}

#[test]
fn durable_write_failure_is_visible_and_blocks_later_mutations() {
    let (mut service, calendar) = fresh();
    service.state_saved(None, StoreOutcome::Saved).expect("initial durable commit");

    let first = request(Some("first-write-failure"), Command::TaskCreate { title: "Volatile".into() });
    assert!(service.refusal(&first).is_none());
    let Handled::Commit { key, reply } = service.handle_request(first, &calendar, delivery()) else {
        panic!("commit");
    };
    assert!(matches!(
        service.finish(key, reply, StoreOutcome::Failed("disk full".into()), &calendar, delivery()),
        Response::Error {
            error: ProtocolError::DurableWriteUnavailable { .. }
        }
    ));

    let Response::Snapshot { snapshot } = service.handle(request(None, Command::Status), &calendar) else {
        panic!("status remains available");
    };
    assert_eq!(snapshot.durable_health.state, DurableHealthState::Degraded);
    assert_eq!(snapshot.tasks.len(), 1);
    assert!(snapshot.durable_health.last_successful_commit.is_some());

    assert!(matches!(
        service.handle(
            request(Some("blocked-mutation"), Command::TaskCreate { title: "Must not appear".into() }),
            &calendar
        ),
        Response::Error {
            error: ProtocolError::DurableWriteUnavailable { .. }
        }
    ));
    let Response::Data { value: DataValue::TaskList(tasks) } =
        service.handle(request(None, Command::TaskList), &calendar)
    else {
        panic!("Task list remains available");
    };
    assert_eq!(tasks.len(), 1);
}

#[test]
fn pending_session_releases_its_task_for_deletion() {
    let (mut service, calendar) = fresh();
    service.handle(request(Some("create-delete"), Command::TaskCreate { title: "Disposable".into() }), &calendar);
    service.handle(
        request(Some("start-delete"), Command::Start { kind: SessionKind::Focus, task_id: Some(1) }),
        &calendar,
    );
    service.handle(request(Some("stop-delete"), Command::Stop), &calendar);

    let response = service.handle(request(Some("delete-pending"), Command::TaskDelete { id: 1 }), &calendar);

    assert!(matches!(response, Response::Snapshot { .. }));
    assert!(service.snapshot(&calendar, delivery()).tasks.is_empty());
    assert_eq!(service.timer().current_task(), None);
}

#[test]
fn running_session_keeps_its_task_when_deletion_is_requested() {
    let (mut service, calendar) = fresh();
    service.handle(request(Some("create-protected"), Command::TaskCreate { title: "Protected".into() }), &calendar);
    service.handle(
        request(Some("start-protected"), Command::Start { kind: SessionKind::Focus, task_id: Some(1) }),
        &calendar,
    );

    let response = service.handle(request(Some("delete-running"), Command::TaskDelete { id: 1 }), &calendar);

    assert!(matches!(response, Response::Error { .. }));
    assert_eq!(service.snapshot(&calendar, delivery()).tasks.len(), 1);
    assert_eq!(service.timer().current_task(), Some(TaskId::new(1)));
}

#[test]
fn task_selection_rebinds_pending_and_confirmed_switch_stops_running_focus() {
    let (mut service, calendar) = fresh();
    for (key, title) in [("create-one", "One"), ("create-two", "Two")] {
        service.handle(request(Some(key), Command::TaskCreate { title: title.into() }), &calendar);
    }
    service.handle(
        request(Some("select-one"), Command::TaskSelect { id: 1, stop_current: false }),
        &calendar,
    );
    assert_eq!(service.snapshot(&calendar, delivery()).current_task_id, Some(1));
    service.handle(
        request(Some("start-one"), Command::Start { kind: SessionKind::Focus, task_id: Some(1) }),
        &calendar,
    );
    service.handle(
        request(Some("switch-two"), Command::TaskSelect { id: 2, stop_current: true }),
        &calendar,
    );

    let snapshot = service.snapshot(&calendar, delivery());
    assert_eq!(snapshot.state, "pending");
    assert_eq!(snapshot.current_task_id, Some(2));
    assert_eq!(snapshot.recent_history.len(), 1);
    assert_eq!(snapshot.recent_history[0].actual_seconds, 0);
    assert_eq!(snapshot.recent_history[0].task_title.as_deref(), Some("One"));
}

#[test]
fn deleting_history_recalculates_task_and_daily_totals() {
    let (mut service, calendar) = fresh();
    service.create_task("Tracked").expect("task");
    service.record_history(SessionRecord {
        id: 41,
        ended_at: service.wall(),
        kind: DomainKind::Focus,
        outcome: SessionOutcome::Completed,
        planned_seconds: 60,
        actual_seconds: 60,
        task_id: Some(TaskId::new(1)),
        task_title: Some("Tracked".into()),
    });
    assert_eq!(service.snapshot(&calendar, delivery()).today.focus_seconds, 60);

    let response = service.handle(
        request(Some("delete-history"), Command::HistoryDelete { ids: vec![41] }),
        &calendar,
    );

    assert!(matches!(response, Response::Snapshot { .. }));
    let snapshot = service.snapshot(&calendar, delivery());
    assert!(snapshot.recent_history.is_empty());
    assert_eq!(snapshot.today.focus_seconds, 0);
    assert_eq!(snapshot.tasks[0].focus_seconds, 0);
}

#[test]
fn local_day_boundaries_are_ordered_and_contain_the_observation() {
    let wall = wall_now();
    let boundaries = local_day_boundaries(wall);
    assert!(boundaries.windows(2).all(|pair| pair[0] < pair[1]));
    assert!(wall >= boundaries[6]);
    assert!(wall < boundaries[7]);
}

#[test]
fn today_task_focus_excludes_older_history_and_sorts_descending() {
    let (mut service, calendar) = fresh();
    let starts = calendar.starts;
    for (id, ended_at, title, seconds) in [
        (1, starts[6] + 10, Some("Second"), 300),
        (2, starts[6] + 20, Some("First"), 900),
        (3, starts[5] + 20, Some("Older"), 3_600),
        (4, starts[6] + 30, None, 120),
    ] {
        service.record_history(SessionRecord {
            id,
            ended_at,
            kind: DomainKind::Focus,
            outcome: SessionOutcome::Completed,
            planned_seconds: seconds,
            actual_seconds: seconds,
            task_id: None,
            task_title: title.map(str::to_owned),
        });
    }

    let today = service.snapshot(&calendar, delivery()).today;
    assert_eq!(today.focus_seconds, 1_320);
    assert_eq!(
        today
            .task_focus
            .iter()
            .map(|item| (item.task_title.as_deref(), item.focus_seconds))
            .collect::<Vec<_>>(),
        [(Some("First"), 900), (Some("Second"), 300), (None, 120)]
    );
    assert!(today.seven_day_dates[6].starts_with("20"));
}

#[test]
fn replayed_mutation_changes_nothing() {
    let (mut service, calendar) = fresh();
    let create = request(Some("create-once"), Command::TaskCreate { title: "Once".into() });
    let Handled::Commit { key, reply } = service.handle_request(create.clone(), &calendar, delivery()) else {
        panic!("commit");
    };
    assert_eq!(reply, Reply::CreatedTask(1));
    assert_eq!(
        service.finish(key, reply, StoreOutcome::Saved, &calendar, delivery()),
        Response::Data { value: DataValue::CreatedTask { id: 1 } }
    );
    assert!(matches!(
        service.handle_request(create, &calendar, delivery()),
        Handled::Respond(Response::Snapshot { .. })
    ));
    assert_eq!(service.tasks().all().len(), 1);
}

#[test]
fn unavailable_durable_state_refuses_mutations_but_answers_reads() {
    let (mut service, calendar) = fresh();
    service.mark_durable_failure("database is locked".into());
    assert_eq!(
        service.handle(request(Some("k"), Command::Pause), &calendar),
        Response::Error {
            error: ProtocolError::DurableWriteUnavailable { message: "database is locked".into() }
        }
    );
    assert!(matches!(service.handle(request(None, Command::History), &calendar), Response::Data { .. }));
    assert_eq!(service.observe(5_000, service.wall()), Observed::Unchanged);
}

#[test]
fn stored_state_restores_at_the_same_observation() {
    let (mut service, calendar) = fresh();
    service.handle(request(Some("c"), Command::TaskCreate { title: "Keep".into() }), &calendar);
    service.handle(
        request(Some("s"), Command::Start { kind: SessionKind::Focus, task_id: Some(1) }),
        &calendar,
    );
    service.handle(request(Some("x"), Command::Stop), &calendar);
    let stored = service.persisted_state("boot-a".into());
    let restored = Service::restore(
        stored,
        &RecoveryObservation { boot_id: "boot-a".into(), monotonic_seconds: 1_000, wall_seconds: service.wall() },
    )
    .expect("restore");
    assert_eq!(restored.tasks().all().len(), 1);
    assert_eq!(restored.history().records().len(), 1);
    assert_eq!(restored.history().records()[0].outcome, SessionOutcome::Stopped);
    assert_eq!(restored.timer().current_task(), Some(TaskId::new(1)));
}

#[test]
fn stored_state_with_an_unknown_kind_is_refused() {
    let (service, _) = fresh();
    let mut stored = service.persisted_state("boot".into());
    stored.history.push(pomotui::service::PersistedRecord {
        id: 0,
        ended_at: 5,
        kind: "nap".into(),
        outcome: "completed".into(),
        planned_seconds: 1,
        actual_seconds: 1,
        task_id: None,
        task_title: None,
    });
    let current = RecoveryObservation { boot_id: "boot".into(), monotonic_seconds: 1_000, wall_seconds: 0 };
    assert_eq!(Service::restore(stored, &current).err(), Some("invalid Session kind: nap".to_string()));
}

#[test]
fn restart_brings_back_a_running_session_and_recognizes_replays() {
    let (mut service, calendar) = fresh();
    service.handle(request(Some("c"), Command::TaskCreate { title: "Keep".into() }), &calendar);
    service.handle(
        request(Some("s"), Command::Start { kind: SessionKind::Focus, task_id: Some(1) }),
        &calendar,
    );
    service.observe(1_060, service.wall());
    let stored = service.persisted_state("boot-a".into());
    let current = RecoveryObservation {
        boot_id: "boot-a".into(),
        monotonic_seconds: service.now(),
        wall_seconds: service.wall(),
    };
    let mut restored = Service::restore(stored.clone(), &current).expect("restore");
    assert_eq!(restored.persisted_state("boot-a".into()), stored);
    assert_eq!(restored.timer().remaining_seconds(1_060), service.timer().remaining_seconds(1_060));
    restored.restore_applied_keys(vec!["c".into(), "s".into()]);
    let replay = restored.handle(
        request(Some("c"), Command::TaskCreate { title: "Keep".into() }),
        &calendar,
    );
    assert!(matches!(replay, Response::Snapshot { .. }));
    assert_eq!(restored.tasks().all().len(), 1);
}

#[test]
fn restart_later_in_the_same_boot_keeps_the_running_time_left() {
    let (mut service, calendar) = fresh();
    service.handle(request(Some("c"), Command::TaskCreate { title: "Keep".into() }), &calendar);
    service.handle(
        request(Some("s"), Command::Start { kind: SessionKind::Focus, task_id: Some(1) }),
        &calendar,
    );
    service.observe(1_060, service.wall());
    let stored = service.persisted_state("boot-a".into());
    let current = RecoveryObservation {
        boot_id: "boot-a".into(),
        monotonic_seconds: 1_300,
        wall_seconds: service.wall() + 240,
    };
    let restored = Service::restore(stored, &current).expect("restore");
    assert_eq!(restored.now(), 1_300);
    assert_eq!(restored.wall(), service.wall() + 240);
    assert_eq!(restored.timer().remaining_seconds(1_300), service.timer().remaining_seconds(1_300));
    assert_eq!(restored.timer().remaining_seconds(1_300), 25 * 60 - 300);
    assert_eq!(restored.tasks().all().len(), 1);
    assert_eq!(restored.timer().current_task(), Some(TaskId::new(1)));
}

#[test]
fn a_reminder_is_delivered_only_by_the_write_that_claims_it() {
    let (mut service, _) = fresh();
    assert_eq!(service.completion_saved(CompletionOutcome::Saved { claimed: false }), Dispatch::Nothing);
    assert_eq!(service.completion_saved(CompletionOutcome::Saved { claimed: true }), Dispatch::Pending);
    assert_eq!(service.completion_saved(CompletionOutcome::Absent), Dispatch::Immediate);
    service.configure_reminder(false, false);
    assert_eq!(service.completion_saved(CompletionOutcome::Saved { claimed: true }), Dispatch::Nothing);
}

#[test]
fn local_days_start_within_a_day_of_their_utc_midnights() {
    let wall = 1_700_000_000;
    let calendar = calendar_for(wall);
    let day = wall.div_euclid(86_400);
    let today = (0..3)
        .map(|shift| day - 1 + shift)
        .find(|d| {
            (0..8).all(|i| {
                let midnight = (d + i as i64 - 6) * 86_400;
                calendar.starts[i] == wall || (calendar.starts[i] - midnight).abs() < 86_400
            })
        });
    assert!(today.is_some());
    for date in &calendar.dates {
        let bytes = date.as_bytes();
        assert_eq!(bytes.len(), 10);
        assert_eq!((bytes[4], bytes[7]), (b'-', b'-'));
    }
}
