//! Recovery of elapsed time across Timer Service restarts, and the ports
//! through which the service reaches clocks and desktop reminders.

use crate::domain::{saturating_sub_u64, MODEL_VERSION};
use vstd::prelude::*;

verus! {

/// Returns the domain model version targeted by these adapters.
pub fn supported_model_version() -> (version: u16)
    ensures
        version == MODEL_VERSION,
{
    MODEL_VERSION
}

#[derive(Clone, Debug, PartialEq, Eq)]
pub struct RecoveryObservation {
    pub boot_id: String,
    pub monotonic_seconds: u64,
    pub wall_seconds: i64,
}

#[derive(Clone, Copy, Debug, PartialEq, Eq, Structural)]
pub enum RecoverySource {
    SameBootMonotonic,
    NewBootWallEstimate,
}

#[derive(Clone, Copy, Debug, PartialEq, Eq, Structural)]
pub struct RecoveryElapsed {
    pub seconds: u64,
    pub source: RecoverySource,
}

/// `a - b` held within the `i64` range.
pub open spec fn saturating_sub_i64(a: i64, b: i64) -> i64 {
    if a - b > i64::MAX {
        i64::MAX
    } else if a - b < i64::MIN {
        i64::MIN
    } else {
        (a - b) as i64
    }
}

/// The seconds that passed between two observations: by the suspend-aware
/// monotonic clock within one boot, else by the wall clock, never negative.
pub open spec fn recovery_spec(
    persisted_boot: Seq<char>,
    persisted_monotonic: u64,
    persisted_wall: i64,
    current_boot: Seq<char>,
    current_monotonic: u64,
    current_wall: i64,
) -> RecoveryElapsed {
    if persisted_boot == current_boot {
        RecoveryElapsed {
            seconds: saturating_sub_u64(current_monotonic, persisted_monotonic),
            source: RecoverySource::SameBootMonotonic,
        }
    } else {
        let d = saturating_sub_i64(current_wall, persisted_wall);
        RecoveryElapsed {
            seconds: if d < 0 {
                0
            } else {
                d as u64
            },
            source: RecoverySource::NewBootWallEstimate,
        }
    }
}

/// Strings with equal characters.
fn same_text(a: &String, b: &String) -> (equal: bool)
    ensures
        equal == (a@ == b@),
{
    a.eq(b)
}

pub fn elapsed_during_recovery(persisted: &RecoveryObservation, current: &RecoveryObservation) -> (elapsed: RecoveryElapsed)
    ensures
        elapsed == recovery_spec(
            persisted.boot_id@,
            persisted.monotonic_seconds,
            persisted.wall_seconds,
            current.boot_id@,
            current.monotonic_seconds,
            current.wall_seconds,
        ),
{
    if same_text(&persisted.boot_id, &current.boot_id) {
        RecoveryElapsed {
            seconds: if current.monotonic_seconds < persisted.monotonic_seconds {
                0
            } else {
                current.monotonic_seconds - persisted.monotonic_seconds
            },
            source: RecoverySource::SameBootMonotonic,
        }
    } else {
        let cw = current.wall_seconds as i128;
        let pw = persisted.wall_seconds as i128;
        let d = cw - pw;
        let seconds: u64 = if d <= 0 {
            0
        } else if d > i64::MAX as i128 {
            i64::MAX as u64
        } else {
            d as u64
        };
        RecoveryElapsed { seconds, source: RecoverySource::NewBootWallEstimate }
    }
}

/// Within one boot, recovery measures suspend-aware monotonic time and
/// ignores any change of the wall clock; across boots, it never reports a
/// negative duration.
pub proof fn law_recovery_ignores_wall_clock_within_a_boot(
    boot: Seq<char>,
    other_boot: Seq<char>,
    pm: u64,
    pw: i64,
    cm: u64,
    cw: i64,
    cw2: i64,
)
    ensures
        recovery_spec(boot, pm, pw, boot, cm, cw) == recovery_spec(boot, pm, pw, boot, cm, cw2),
        pm <= cm ==> recovery_spec(boot, pm, pw, boot, cm, cw).seconds == cm - pm,
        other_boot != boot ==> (cw <= pw <==> recovery_spec(boot, pm, pw, other_boot, cm, cw).seconds
            == 0),
        other_boot != boot && pw <= cw ==> recovery_spec(boot, pm, pw, other_boot, cm, cw).seconds
            == if cw - pw > i64::MAX {
            i64::MAX as int
        } else {
            cw - pw
        },
{
}

/// The desktop effects of a Session Reminder.
pub trait ReminderPort {
    type Error;

    /// Emits a desktop notification.
    fn notify(&mut self) -> Result<(), Self::Error>;

    /// Plays the configured sound.
    fn play_sound(&mut self) -> Result<(), Self::Error>;
}

/// Attempts both reminder effects; a failure of one does not stop the other.
/// The port goes from its old state through one notification and then one
/// sound to its final state, whatever the notification returned.
pub fn dispatch_reminder<P: ReminderPort>(port: &mut P)
    ensures
        exists|a: &mut P, b: &mut P, notified: Result<(), P::Error>, sounded: Result<(), P::Error>|
            {
                &&& *a == *old(port)
                &&& *final(a) == *b
                &&& *final(b) == *final(port)
                &&& call_ensures(P::notify, (a,), notified)
                &&& call_ensures(P::play_sound, (b,), sounded)
            },
{
    let _notification_result = port.notify();
    let _sound_result = port.play_sound();
}

/// The clocks through which the Timer Service observes time.
pub trait Clock {
    type Error;

    /// Reads suspend-aware elapsed seconds.
    fn monotonic_seconds(&self) -> Result<u64, Self::Error>;

    /// Reads the Unix wall clock, for reboot recovery only.
    fn wall_seconds(&self) -> Result<i64, Self::Error>;

    /// Reads the current kernel boot identity.
    fn boot_id(&self) -> Result<String, Self::Error>;
}

/// Captures one durable recovery observation; the first clock error wins.
/// Each field of the observation is what the matching clock read returned;
/// an error is that of the first read to fail, in the order boot identity,
/// monotonic clock, wall clock.
pub fn observe<C: Clock>(clock: &C) -> (result: Result<RecoveryObservation, C::Error>)
    ensures
        match result {
            Ok(o) => {
                &&& call_ensures(C::boot_id, (clock,), Ok::<String, C::Error>(o.boot_id))
                &&& call_ensures(
                    C::monotonic_seconds,
                    (clock,),
                    Ok::<u64, C::Error>(o.monotonic_seconds),
                )
                &&& call_ensures(C::wall_seconds, (clock,), Ok::<i64, C::Error>(o.wall_seconds))
            },
            Err(e) => {
                ||| call_ensures(C::boot_id, (clock,), Err::<String, C::Error>(e))
                ||| (exists|b: String| call_ensures(C::boot_id, (clock,), Ok::<String, C::Error>(b)))
                    && call_ensures(C::monotonic_seconds, (clock,), Err::<u64, C::Error>(e))
                ||| (exists|b: String| call_ensures(C::boot_id, (clock,), Ok::<String, C::Error>(b)))
                    && (exists|m: u64|
                    call_ensures(C::monotonic_seconds, (clock,), Ok::<u64, C::Error>(m)))
                    && call_ensures(C::wall_seconds, (clock,), Err::<i64, C::Error>(e))
            },
        },
{
    let boot_id = match clock.boot_id() {
        Ok(id) => id,
        Err(e) => {
            return Err(e);
        },
    };
    let monotonic_seconds = match clock.monotonic_seconds() {
        Ok(seconds) => seconds,
        Err(e) => {
            return Err(e);
        },
    };
    let wall_seconds = match clock.wall_seconds() {
        Ok(seconds) => seconds,
        Err(e) => {
            return Err(e);
        },
    };
    Ok(RecoveryObservation { boot_id, monotonic_seconds, wall_seconds })
}

} // verus!
