use pomotui::recovery::{
    dispatch_reminder, elapsed_during_recovery, observe, Clock, RecoveryObservation, RecoverySource,
    ReminderPort,
};

fn observation(boot: &str, monotonic: u64, wall: i64) -> RecoveryObservation {
    RecoveryObservation {
        boot_id: boot.into(),
        monotonic_seconds: monotonic,
        wall_seconds: wall,
    }
}

#[test]
fn same_boot_ignores_wall_clock_changes() {
    let elapsed =
        elapsed_during_recovery(&observation("a", 10, 5_000), &observation("a", 25, -9_000));
    assert_eq!(elapsed.seconds, 15);
    assert_eq!(elapsed.source, RecoverySource::SameBootMonotonic);
}

#[test]
fn reboot_uses_wall_estimate_and_clamps_backwards_change() {
    assert_eq!(
        elapsed_during_recovery(&observation("a", 10, 100), &observation("b", 2, 90)).seconds,
        0
    );
    assert_eq!(
        elapsed_during_recovery(&observation("a", 10, 100), &observation("b", 2, 130)).seconds,
        30
    );
}

struct FailingReminder {
    attempts: u8,
}

impl ReminderPort for FailingReminder {
    type Error = &'static str;

    fn notify(&mut self) -> Result<(), Self::Error> {
        self.attempts += 1;
        Err("notification failed")
    }

    fn play_sound(&mut self) -> Result<(), Self::Error> {
        self.attempts += 1;
        Err("sound failed")
    }
}

#[test]
fn external_effect_failures_are_isolated_and_both_are_attempted() {
    let mut reminder = FailingReminder { attempts: 0 };
    dispatch_reminder(&mut reminder);
    assert_eq!(reminder.attempts, 2);
}

#[test]
fn same_boot_clamps_a_monotonic_clock_that_went_backwards() {
    let elapsed = elapsed_during_recovery(&observation("a", 50, 0), &observation("a", 20, 0));
    assert_eq!(elapsed.seconds, 0);
    assert_eq!(elapsed.source, RecoverySource::SameBootMonotonic);
}

#[test]
fn reboot_with_extreme_wall_clocks_saturates() {
    let elapsed = elapsed_during_recovery(
        &observation("a", 0, i64::MIN),
        &observation("b", 0, i64::MAX),
    );
    assert_eq!(elapsed.seconds, i64::MAX as u64);
    assert_eq!(elapsed.source, RecoverySource::NewBootWallEstimate);
}

struct FixedClock {
    monotonic: Result<u64, &'static str>,
}

impl Clock for FixedClock {
    type Error = &'static str;

    fn monotonic_seconds(&self) -> Result<u64, Self::Error> {
        self.monotonic
    }

    fn wall_seconds(&self) -> Result<i64, Self::Error> {
        Ok(1_700_000_000)
    }

    fn boot_id(&self) -> Result<String, Self::Error> {
        Ok("boot-x".to_string())
    }
}

#[test]
fn observation_holds_what_the_clock_read() {
    assert_eq!(
        observe(&FixedClock { monotonic: Ok(42) }),
        Ok(observation("boot-x", 42, 1_700_000_000))
    );
    assert_eq!(observe(&FixedClock { monotonic: Err("no clock") }), Err("no clock"));
}

struct BrokenClock;

impl Clock for BrokenClock {
    type Error = &'static str;

    fn monotonic_seconds(&self) -> Result<u64, Self::Error> {
        Err("monotonic")
    }

    fn wall_seconds(&self) -> Result<i64, Self::Error> {
        Err("wall")
    }

    fn boot_id(&self) -> Result<String, Self::Error> {
        Err("boot")
    }
}

#[test]
fn the_first_failing_clock_read_is_reported() {
    assert_eq!(observe(&BrokenClock), Err("boot"));
}
