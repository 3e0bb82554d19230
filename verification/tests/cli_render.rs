use pomotui::cli::{error_message, parse, render, request, Rendering};
use pomotui::protocol::{
    ActionChainSummary, Command, DurableHealth, DurableHealthState, PendingReviewSummary,
    ProtocolError, ReminderDelivery, Response, SessionKind, Snapshot, TodaySummary,
};

fn snapshot(state: &str, kind: SessionKind, remaining: u64, planned: u64) -> Snapshot {
    Snapshot {
        state: state.into(),
        kind,
        remaining_seconds: remaining,
        planned_seconds: planned,
        current_task: None,
        current_task_id: None,
        completed_rounds: 2,
        rounds_per_cycle: 4,
        next_kind: None,
        durable_health: DurableHealth {
            state: DurableHealthState::Healthy,
            last_successful_commit: None,
            error: None,
        },
        reminder_delivery: ReminderDelivery::default(),
        tasks: vec![],
        today: Box::new(TodaySummary::default()),
        recent_history: vec![],
        action_chain: ActionChainSummary::default(),
        pending_review: None,
        recent_chain_links: vec![],
    }
}

fn args(words: &[&str]) -> Vec<String> {
    words.iter().map(|word| (*word).to_owned()).collect()
}

#[test]
fn waybar_output_has_stable_fields() {
    let response = Response::Snapshot { snapshot: snapshot("paused", SessionKind::Focus, 90, 100) };
    let Ok(Rendering::Waybar(fields)) = render(&response, false, true) else {
        panic!("render");
    };
    assert_eq!(fields.text, "paused 01:30");
    assert_eq!(fields.class, ["paused".to_string(), "focus".to_string()]);
    assert_eq!(fields.percentage, 90);
}

#[test]
fn mutation_request_has_identity_but_status_does_not() {
    assert!(request(Command::Pause, "1-2".into()).idempotency_key.is_some());
    assert!(request(Command::Status, "1-2".into()).idempotency_key.is_none());
}

#[test]
fn reminder_delivery_state_is_visible_in_human_and_json_status() {
    let mut value = snapshot("pending", SessionKind::Focus, 1_500, 1_500);
    value.completed_rounds = 0;
    value.reminder_delivery = ReminderDelivery { retrying: 2, ..ReminderDelivery::default() };
    let response = Response::Snapshot { snapshot: value };
    let Ok(Rendering::Text(text)) = render(&response, false, false) else {
        panic!("human status");
    };
    assert!(text.contains("reminders retrying: 2"));
    assert_eq!(render(&response, true, false), Ok(Rendering::ResponseJson));
}

#[test]
fn human_status_shows_chain_length_and_pending_review() {
    let mut value = snapshot("pending", SessionKind::ShortBreak, 300, 300);
    value.completed_rounds = 1;
    value.current_task = Some("Write tests".into());
    value.current_task_id = Some(1);
    value.next_kind = Some(SessionKind::Focus);
    value.action_chain = ActionChainSummary { id: 7, length: 12 };
    value.pending_review = Some(PendingReviewSummary {
        session_id: 4,
        actual_seconds: 1_500,
        task_id: Some(1),
        task_title: Some("Write tests".into()),
    });
    let Ok(Rendering::Text(rendered)) = render(&Response::Snapshot { snapshot: value }, false, false) else {
        panic!("status");
    };
    assert!(rendered.contains("chain 12"));
    assert!(rendered.contains("pending review"));
    assert_eq!(rendered, "ShortBreak 05:00 · pending · round 1/4 · chain 12 · pending review");
}

#[test]
fn disconnected_error_is_actionable_and_json_stays_structured() {
    let response = Response::Error {
        error: ProtocolError::Disconnected { message: "socket unavailable".into() },
    };
    assert_eq!(render(&response, false, false), Err("socket unavailable".into()));
    assert_eq!(render(&response, true, false), Ok(Rendering::ResponseJson));
}

#[test]
fn command_lines_read_into_commands() {
    assert_eq!(parse(&args(&["status"])), Ok((Command::Status, false, false)));
    assert_eq!(parse(&args(&["--json", "waybar"])), Ok((Command::Status, true, true)));
    assert_eq!(
        parse(&args(&["start", "focus", "--task", "7"])),
        Ok((Command::Start { kind: SessionKind::Focus, task_id: Some(7) }, false, false))
    );
    assert_eq!(
        parse(&args(&["task", "rename", "3", "New", "--json"])),
        Ok((Command::TaskRename { id: 3, title: "New".into() }, true, false))
    );
    assert_eq!(parse(&args(&["stop", "--no-review"])), Ok((Command::Stop, false, false)));
    assert_eq!(
        parse(&args(&["reward", "create", "5", "Tea", "--budget", "2"])),
        Ok((Command::RewardCreate { name: "Tea".into(), threshold: 5, budget: Some(2) }, false, false))
    );
    assert_eq!(parse(&args(&["task", "delete", "x"])), Err("invalid Task ID: x".into()));
    assert!(parse(&args(&["dance"])).unwrap_err().starts_with("usage: pomotui"));
}

#[test]
fn refusals_render_their_errors() {
    let busy = Response::Error { error: ProtocolError::ServerBusy };
    assert_eq!(render(&busy, false, false), Err("ServerBusy".into()));
    let version = Response::Error {
        error: ProtocolError::IncompatibleVersion { received: 99, supported: 3 },
    };
    assert_eq!(
        render(&version, false, false),
        Err("IncompatibleVersion { received: 99, supported: 3 }".into())
    );
    assert_eq!(render(&Response::Accepted, false, false), Ok(Rendering::Text("accepted".into())));
}

#[test]
fn durable_errors_show_their_message_quoted() {
    let error = ProtocolError::DurableWriteUnavailable { message: "disk \"full\"\n".into() };
    assert_eq!(error_message(&error), "DurableWriteUnavailable { message: \"disk \\\"full\\\"\\n\" }");
    let rule = ProtocolError::InvalidTaskTitle { rule: pomotui::protocol::TaskTitleRule::TooWide };
    assert_eq!(error_message(&rule), "InvalidTaskTitle { rule: TooWide }");
}
