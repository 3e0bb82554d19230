//! The durable outbox of Session Reminder effects: their kinds, their stored
//! names, and the bounded retry policy for effects whose delivery failed.

use crate::text::chars_of;
use crate::text::string_from_chars;
use vstd::prelude::*;

verus! {

/// A failed effect is given up after this many delivery attempts.
pub const MAX_REMINDER_ATTEMPTS: u32 = 3;

/// A failed effect is given up once it is this old, in seconds.
pub const MAX_REMINDER_AGE_SECONDS: i64 = 3600;

/// The longest stored delivery error, in characters.
pub const MAX_REMINDER_ERROR_CHARS: usize = 200;

/// One independent side effect of a completed Session.
#[derive(Clone, Copy, Debug, PartialEq, Eq, Structural)]
pub enum ReminderEffectKind {
    Notification,
    Sound,
}

/// The name under which an effect kind is stored.
pub open spec fn effect_kind_name(kind: ReminderEffectKind) -> Seq<char> {
    match kind {
        ReminderEffectKind::Notification => "notification"@,
        ReminderEffectKind::Sound => "sound"@,
    }
}

impl ReminderEffectKind {
    /// The name under which this kind is stored.
    pub fn as_str(self) -> (name: &'static str)
        ensures
            name@ == effect_kind_name(self),
    {
        match self {
            ReminderEffectKind::Notification => "notification",
            ReminderEffectKind::Sound => "sound",
        }
    }

    /// The kind stored under `value`, if any.
    pub fn parse(value: &str) -> (kind: Option<Self>)
        ensures
            match kind {
                Some(k) => effect_kind_name(k) == value@,
                None => value@ != "notification"@ && value@ != "sound"@,
            },
    {
        let chars = chars_of(value);
        proof {
            reveal_strlit("notification");
            reveal_strlit("sound");
        }
        if chars.len() == 12 && chars[0] == 'n' && chars[1] == 'o' && chars[2] == 't'
            && chars[3] == 'i' && chars[4] == 'f' && chars[5] == 'i' && chars[6] == 'c'
            && chars[7] == 'a' && chars[8] == 't' && chars[9] == 'i' && chars[10] == 'o'
            && chars[11] == 'n' {
            assert(value@ =~= "notification"@);
            Some(ReminderEffectKind::Notification)
        } else if chars.len() == 5 && chars[0] == 's' && chars[1] == 'o' && chars[2] == 'u'
            && chars[3] == 'n' && chars[4] == 'd' {
            assert(value@ =~= "sound"@);
            Some(ReminderEffectKind::Sound)
        } else {
            None
        }
    }
}

/// A stored effect that is due for delivery.
#[derive(Clone, Debug, PartialEq, Eq)]
pub struct PendingReminderEffect {
    pub id: i64,
    pub session_key: String,
    pub kind: ReminderEffectKind,
    pub attempt_count: u32,
    pub created_at: i64,
}

/// How many stored effects are in each delivery state.
#[derive(Clone, Copy, Debug, Default, PartialEq, Eq, Structural)]
pub struct ReminderDeliveryCounts {
    pub pending: u32,
    pub retrying: u32,
    pub delivered: u32,
    pub exhausted: u32,
}

/// What to store after a delivery attempt failed.
#[derive(Clone, Copy, Debug, PartialEq, Eq, Structural)]
pub struct RetryPlan {
    /// The number of attempts made so far, this one included.
    pub attempt: u32,
    /// Whether the effect is given up.
    pub exhausted: bool,
    /// When the next attempt is due, in wall-clock seconds.
    pub next_attempt_at: i64,
}

/// `a + b` held within the range of `i64`.
pub open spec fn saturating_add_i64(a: int, b: int) -> i64 {
    if a + b > i64::MAX {
        i64::MAX
    } else if a + b < i64::MIN {
        i64::MIN
    } else {
        (a + b) as i64
    }
}

/// The wait before the next attempt: five seconds doubled per earlier
/// attempt, at most 300 seconds.
pub open spec fn retry_delay(attempt_count: u32) -> int {
    let doubled = 5 * vstd::arithmetic::power2::pow2(
        if attempt_count < 6 {
            attempt_count as nat
        } else {
            6
        },
    );
    if doubled < 300 {
        doubled as int
    } else {
        300
    }
}

/// The retry policy: at most three attempts, none once the effect is an hour
/// old, and a capped exponential back-off with a small per-effect jitter.
pub open spec fn retry_plan_spec(effect_id: i64, attempt_count: u32, created_at: i64, wall: i64) -> RetryPlan {
    let attempt: u32 = if attempt_count == u32::MAX {
        u32::MAX
    } else {
        (attempt_count + 1) as u32
    };
    RetryPlan {
        attempt,
        exhausted: attempt >= MAX_REMINDER_ATTEMPTS || saturating_add_i64(wall as int, -(
        created_at as int)) >= MAX_REMINDER_AGE_SECONDS,
        next_attempt_at: saturating_add_i64(
            saturating_add_i64(wall as int, retry_delay(attempt_count)) as int,
            (effect_id as int) % 3,
        ),
    }
}

fn saturating_add(a: i64, b: i64) -> (sum: i64)
    ensures
        sum == saturating_add_i64(a as int, b as int),
{
    match a.checked_add(b) {
        Some(s) => s,
        None => if b > 0 {
            i64::MAX
        } else {
            i64::MIN
        },
    }
}

fn saturating_sub(a: i64, b: i64) -> (difference: i64)
    ensures
        difference == saturating_add_i64(a as int, -(b as int)),
{
    match a.checked_sub(b) {
        Some(s) => s,
        None => if b < 0 {
            i64::MAX
        } else {
            i64::MIN
        },
    }
}

/// What to store after delivering `effect` failed at wall-clock time `wall`.
pub fn retry_plan(effect: &PendingReminderEffect, wall: i64) -> (plan: RetryPlan)
    ensures
        plan == retry_plan_spec(effect.id, effect.attempt_count, effect.created_at, wall),
{
    let attempt = if effect.attempt_count == u32::MAX {
        u32::MAX
    } else {
        effect.attempt_count + 1
    };
    let age = saturating_sub(wall, effect.created_at);
    let exhausted = attempt >= MAX_REMINDER_ATTEMPTS || age >= MAX_REMINDER_AGE_SECONDS;
    let shift: u32 = if effect.attempt_count < 6 {
        effect.attempt_count
    } else {
        6
    };
    let mut doubled: i64 = 5;
    let mut k: u32 = 0;
    proof {
        vstd::arithmetic::power2::lemma2_to64();
    }
    while k < shift
        invariant
            k <= shift <= 6,
            doubled == 5 * vstd::arithmetic::power2::pow2(k as nat),
        decreases shift - k,
    {
        proof {
            vstd::arithmetic::power2::lemma2_to64();
        }
        doubled = doubled * 2;
        k = k + 1;
    }
    let delay: i64 = if doubled < 300 {
        doubled
    } else {
        300
    };
    let jitter: i64 = match effect.id.checked_rem_euclid(3) {
        Some(r) => r,
        None => 0,
    };
    let next_attempt_at = saturating_add(saturating_add(wall, delay), jitter);
    RetryPlan { attempt, exhausted, next_attempt_at }
}

/// The first 200 characters of a delivery error, which is what is stored.
pub fn stored_error(error: &str) -> (stored: String)
    ensures
        stored@ == if error@.len() > MAX_REMINDER_ERROR_CHARS {
            error@.subrange(0, MAX_REMINDER_ERROR_CHARS as int)
        } else {
            error@
        },
{
    let chars = chars_of(error);
    let mut kept: Vec<char> = Vec::new();
    let mut i: usize = 0;
    while i < chars.len() && i < MAX_REMINDER_ERROR_CHARS
        invariant
            i <= chars@.len(),
            i <= MAX_REMINDER_ERROR_CHARS,
            kept@ == chars@.subrange(0, i as int),
        decreases chars@.len() - i,
    {
        kept.push(chars[i]);
        i = i + 1;
    }
    assert(chars@.subrange(0, chars@.len() as int) =~= chars@);
    string_from_chars(kept.as_slice())
}

/// Retries are bounded in number and in time: the third failed attempt, or
/// any failure an hour or more after the effect was created, gives the
/// effect up; and the next attempt comes five to 302 seconds after the
/// failure.
pub proof fn law_retries_are_bounded(effect_id: i64, attempt_count: u32, created_at: i64, wall: i64)
    requires
        wall <= i64::MAX - 302,
    ensures
        attempt_count + 1 >= MAX_REMINDER_ATTEMPTS ==> retry_plan_spec(effect_id, attempt_count, created_at, wall).exhausted,
        wall - created_at >= MAX_REMINDER_AGE_SECONDS ==> retry_plan_spec(
            effect_id,
            attempt_count,
            created_at,
            wall,
        ).exhausted,
        wall + 5 <= retry_plan_spec(effect_id, attempt_count, created_at, wall).next_attempt_at <= wall + 302,
{
    let shift: nat = if attempt_count < 6 {
        attempt_count as nat
    } else {
        6
    };
    vstd::arithmetic::power2::lemma_pow2_pos(shift);
    assert(5 <= retry_delay(attempt_count) <= 300);
    assert(0 <= (effect_id as int) % 3 < 3);
}

} // verus!
