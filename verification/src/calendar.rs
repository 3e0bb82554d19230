//! The local days that snapshots and summaries report on, read through
//! chrono's local time zone.

use crate::service::Calendar;
use chrono::{Datelike, Local, NaiveDate, TimeZone};
use vstd::prelude::*;

verus! {

/// The largest distance from the Unix epoch, in seconds, whose nearby local
/// days chrono can still represent.
pub const REPRESENTABLE_WALL_SECONDS: i64 = 8_000_000_000_000;

/// The Common Era day number of 1970-01-01, the day of the Unix epoch.
pub open spec fn epoch_day() -> int {
    719163
}

/// Seconds in a day.
pub open spec fn day_seconds() -> int {
    86400
}

/// Whether the Unix time `t` lies within one day of the UTC midnight that
/// starts the Common Era day `day`, as a local midnight of that day does:
/// chrono's offsets from UTC are always less than a day.
pub open spec fn near_day_start(t: int, day: int) -> bool {
    (day - epoch_day()) * day_seconds() - day_seconds() < t < (day - epoch_day()) * day_seconds()
        + day_seconds()
}

/// Whether the Unix time `wall` can fall on the local day `day`: its local
/// time, off UTC by less than a day, lies within that day.
pub open spec fn local_day_holds(day: int, wall: int) -> bool {
    (day - epoch_day()) * day_seconds() - day_seconds() < wall < (day - epoch_day()) * day_seconds()
        + 2 * day_seconds()
}

/// chrono: the local calendar day of the Unix time `wall`, counted in days
/// from the Common Era (`Local.timestamp_opt(wall, 0).single()`, then
/// `date_naive().num_days_from_ce()`). `None` where the local time zone gives
/// no single time. Which day it is depends on the machine's time zone; what
/// is stated is what holds in every zone, since chrono's `FixedOffset` is
/// always less than a day off UTC: the day holds `wall`'s local time.
#[verifier::external_body]
fn local_day_of(wall: i64) -> (day: Option<i32>)
    requires
        -REPRESENTABLE_WALL_SECONDS <= wall <= REPRESENTABLE_WALL_SECONDS,
    ensures
        day matches Some(d) ==> local_day_holds(d as int, wall as int),
{
    match Local.timestamp_opt(wall, 0).single() {
        Some(at) => Some(at.date_naive().num_days_from_ce()),
        None => None,
    }
}

/// chrono: today's local calendar day from `Local::now()`, counted in days
/// from the Common Era. It depends on the time and the time zone, so
/// nothing is stated of it.
#[verifier::external_body]
fn local_today() -> (day: i32) {
    Local::now().date_naive().num_days_from_ce()
}

/// chrono: the Unix time of the local midnight that starts the day `day`
/// (counted from the Common Era): `NaiveDate::from_num_days_from_ce_opt`,
/// `and_hms_opt(0, 0, 0)`, then `Local.from_local_datetime(..).earliest()`.
/// `None` where the day is not representable or no midnight exists locally.
/// Its value depends on the time zone; what is stated holds in every zone,
/// since a local midnight is its UTC counterpart moved by an offset of less
/// than a day.
#[verifier::external_body]
fn local_midnight(day: i64) -> (start: Option<i64>)
    ensures
        start matches Some(t) ==> near_day_start(t as int, day as int),
{
    let days = match i32::try_from(day) {
        Ok(days) => days,
        Err(_) => return None,
    };
    let midnight = NaiveDate::from_num_days_from_ce_opt(days)?.and_hms_opt(0, 0, 0)?;
    match Local.from_local_datetime(&midnight).earliest() {
        Some(at) => Some(at.timestamp()),
        None => None,
    }
}

/// chrono: the local date `YYYY-MM-DD` of the Unix time `at`
/// (`Local.timestamp_opt(at, 0).earliest()`, formatted with `%Y-%m-%d`).
/// Which date it is depends on the time zone; what is stated is the shape
/// that chrono's `%Y`, `%m` and `%d` give in every zone.
#[verifier::external_body]
fn local_date_text(at: i64) -> (text: Option<String>)
    ensures
        text matches Some(t) ==> date_text(t@),
{
    match Local.timestamp_opt(at, 0).earliest() {
        Some(date) => Some(date.format("%Y-%m-%d").to_string()),
        None => None,
    }
}

/// Whether a digit.
pub open spec fn is_digit(c: char) -> bool {
    '0' <= c <= '9'
}

/// A date as chrono's `%Y-%m-%d` writes it: a year of at least four digits,
/// signed outside 0 to 9999, then a two-digit month and a two-digit day.
pub open spec fn date_text(t: Seq<char>) -> bool {
    let n = t.len() as int;
    let year = t.subrange(0, n - 6);
    &&& n >= 10
    &&& t[n - 6] == '-' && t[n - 3] == '-'
    &&& is_digit(t[n - 5]) && is_digit(t[n - 4]) && is_digit(t[n - 2]) && is_digit(t[n - 1])
    &&& forall|k: int| 1 <= k < year.len() ==> is_digit(#[trigger] year[k])
    &&& is_digit(year[0]) || ((year[0] == '+' || year[0] == '-') && year.len() >= 5)
}

/// The text shown for a day without a local date.
pub open spec fn no_date_text() -> Seq<char> {
    "---- -- --"@
}

/// Whether `starts` are the starts of the eight local days from `today - 6`
/// to `today + 1`: each within a day of that day's UTC midnight, or `wall`
/// for a day without a local midnight.
pub open spec fn starts_around(starts: Seq<i64>, wall: i64, today: int) -> bool {
    &&& starts.len() == 8
    &&& forall|i: int|
        0 <= i < 8 ==> #[trigger] starts[i] == wall || near_day_start(starts[i] as int, today + i - 6)
}

/// Where each of the seven local days up to the one that holds `wall`
/// starts, then where the next day starts; a day without a local midnight
/// starts at `wall`. Which day holds `wall` comes from the local time zone
/// (today's date where chrono gives none for `wall`), so the days are stated
/// around some day `today`.
pub fn local_day_boundaries(wall: i64) -> (starts: [i64; 8])
    requires
        -REPRESENTABLE_WALL_SECONDS <= wall <= REPRESENTABLE_WALL_SECONDS,
    ensures
        exists|today: int| starts_around(starts@, wall, today),
{
    let today: i64 = match local_day_of(wall) {
        Some(day) => day as i64,
        None => local_today() as i64,
    };
    let mut starts: [i64; 8] = [0i64; 8];
    let mut index: usize = 0;
    while index < 8
        invariant
            index <= 8,
            i32::MIN <= today <= i32::MAX,
            starts@.len() == 8,
            forall|i: int|
                0 <= i < index ==> #[trigger] starts@[i] == wall || near_day_start(
                    starts@[i] as int,
                    today + i - 6,
                ),
        decreases 8 - index,
    {
        let day = today + index as i64 - 6;
        let start = match local_midnight(day) {
            Some(start) => start,
            None => wall,
        };
        starts.set(index, start);
        index = index + 1;
    }
    assert(starts_around(starts@, wall, today as int));
    starts
}

/// The local date of each of the seven days, `---- -- --` where it has none.
pub fn seven_day_dates(starts: [i64; 8]) -> (dates: [String; 7])
    ensures
        forall|i: int| 0 <= i < 7 ==> #[trigger] dates@[i]@ == no_date_text() || date_text(dates@[i]@),
{
    let mut texts: Vec<String> = Vec::new();
    let mut index: usize = 0;
    while index < 7
        invariant
            index <= 7,
            texts@.len() == index,
            forall|i: int| 0 <= i < index ==> #[trigger] texts@[i]@ == no_date_text() || date_text(texts@[i]@),
        decreases 7 - index,
    {
        let text = match local_date_text(starts[index]) {
            Some(text) => text,
            None => String::from_str("---- -- --"),
        };
        texts.push(text);
        index = index + 1;
    }
    [
        texts[0].clone(),
        texts[1].clone(),
        texts[2].clone(),
        texts[3].clone(),
        texts[4].clone(),
        texts[5].clone(),
        texts[6].clone(),
    ]
}

/// The local days around the Unix time `wall`.
pub fn calendar_for(wall: i64) -> (calendar: Calendar)
    requires
        -REPRESENTABLE_WALL_SECONDS <= wall <= REPRESENTABLE_WALL_SECONDS,
    ensures
        exists|today: int| starts_around(calendar.starts@, wall, today),
        forall|i: int|
            0 <= i < 7 ==> #[trigger] calendar.dates@[i]@ == no_date_text() || date_text(calendar.dates@[i]@),
{
    let starts = local_day_boundaries(wall);
    let dates = seven_day_dates(starts);
    let calendar = Calendar { starts, dates };
    proof {
        let today = choose|today: int| starts_around(starts@, wall, today);
        assert(starts_around(calendar.starts@, wall, today));
    }
    calendar
}

} // verus!
