use pomotui::outbox::{retry_plan, stored_error, PendingReminderEffect, ReminderEffectKind};

fn effect(id: i64, attempt_count: u32, created_at: i64) -> PendingReminderEffect {
    PendingReminderEffect {
        id,
        session_key: "session-event-1".into(),
        kind: ReminderEffectKind::Sound,
        attempt_count,
        created_at,
    }
}

#[test]
fn failed_deliveries_back_off_and_give_up() {
    let first = retry_plan(&effect(4, 0, 1_000), 1_010);
    assert_eq!(first.attempt, 1);
    assert!(!first.exhausted);
    assert_eq!(first.next_attempt_at, 1_010 + 5 + 1);
    let second = retry_plan(&effect(3, 1, 1_000), 1_020);
    assert_eq!(second.next_attempt_at, 1_020 + 10);
    let third = retry_plan(&effect(5, 2, 1_000), 1_030);
    assert!(third.exhausted);
    let stale = retry_plan(&effect(5, 0, 1_000), 1_000 + 3_600);
    assert!(stale.exhausted);
    let capped = retry_plan(&effect(-1, 9, 0), 0);
    assert_eq!(capped.next_attempt_at, 300 + 2);
}

#[test]
fn stored_errors_are_bounded() {
    let long = "e".repeat(250);
    assert_eq!(stored_error(&long).chars().count(), 200);
    assert_eq!(stored_error("paplay failed"), "paplay failed");
}

#[test]
fn effect_kinds_round_trip_their_names() {
    for kind in [ReminderEffectKind::Notification, ReminderEffectKind::Sound] {
        assert_eq!(ReminderEffectKind::parse(kind.as_str()), Some(kind));
    }
    assert_eq!(ReminderEffectKind::parse("bell"), None);
}
