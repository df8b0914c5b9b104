//! Instants and times of day.
//!
//! An instant is a count of milliseconds since 1970-01-01T00:00:00 UTC,
//! within the range of dates that `chrono` can represent. A time of day is
//! a count of seconds since midnight.
use vstd::prelude::*;

use chrono::{DateTime, TimeZone, Timelike};
use chrono_tz::Asia::Shanghai;

verus! {

/// The first millisecond that `chrono` can represent: -262143-01-01T00:00:00Z.
pub const MIN_INSTANT_MS: i64 = -8_334_601_315_200_000;

/// The last millisecond that `chrono` can represent: +262142-12-31T23:59:59.999Z.
pub const MAX_INSTANT_MS: i64 = 8_210_266_876_799_999;

pub const MS_PER_SECOND: i64 = 1000;

pub const MS_PER_MINUTE: i64 = 60_000;

pub const MS_PER_HOUR: i64 = 3_600_000;

pub const MS_PER_DAY: i64 = 86_400_000;

pub const SECONDS_PER_DAY: u32 = 86_400;

/// An instant that `chrono` can represent.
pub open spec fn instant_ok(t: int) -> bool {
    MIN_INSTANT_MS <= t <= MAX_INSTANT_MS
}

/// The greater of two instants.
pub open spec fn later(a: int, b: int) -> int {
    if a >= b {
        a
    } else {
        b
    }
}

/// The smaller of two instants.
pub open spec fn earlier(a: int, b: int) -> int {
    if a <= b {
        a
    } else {
        b
    }
}

/// `now` plus `delta` milliseconds; both the operands and the sum lie in
/// the range that `chrono` represents.
pub fn add_ms(now: i64, delta: i64) -> (r: i64)
    requires
        instant_ok(now as int),
        instant_ok(now + delta),
    ensures
        r == now + delta,
{
    now + delta
}

/// An instant whose local time in Asia/Shanghai `chrono` can represent:
/// the instant itself and the instant eight hours later (the zone's offset
/// at the end of `chrono`'s range) lie in its range; `date_naive` panics on
/// a later instant.
pub open spec fn shanghai_local_ok(t: int) -> bool {
    instant_ok(t) && instant_ok(t + 8 * MS_PER_HOUR)
}

/// The next midnight in Asia/Shanghai after the instant `now_ms`, as an
/// instant, when that local midnight exists exactly once.
pub uninterp spec fn shanghai_next_midnight_spec(now_ms: i64) -> Option<i64>;

/// The last midnight in Asia/Shanghai at or before the instant `now_ms`, as
/// an instant, when that local midnight exists exactly once.
pub uninterp spec fn shanghai_midnight_spec(now_ms: i64) -> Option<i64>;

/// Calls `chrono` and `chrono_tz`: converts `now_ms` to the local date in
/// Asia/Shanghai (`DateTime::with_timezone`, `date_naive`), takes the next
/// date (`NaiveDate::succ_opt`) at 00:00, and maps that local time back to
/// an instant (`TimeZone::from_local_datetime(..).single()`). The result is
/// named: the contract states only that it depends on `now_ms` alone.
#[verifier::external_body]
pub(crate) fn shanghai_next_midnight(now_ms: i64) -> (r: Option<i64>)
    requires
        shanghai_local_ok(now_ms as int),
    ensures
        r == shanghai_next_midnight_spec(now_ms),
{
    let now = DateTime::from_timestamp_millis(now_ms)?;
    let next = now.with_timezone(&Shanghai).date_naive().succ_opt()?.and_hms_opt(0, 0, 0)?;
    Shanghai.from_local_datetime(&next).single().map(|value| value.timestamp_millis())
}

/// Calls `chrono` and `chrono_tz` as `shanghai_next_midnight` does, for the
/// local date of `now_ms` itself.
#[verifier::external_body]
pub(crate) fn shanghai_midnight(now_ms: i64) -> (r: Option<i64>)
    requires
        shanghai_local_ok(now_ms as int),
    ensures
        r == shanghai_midnight_spec(now_ms),
{
    let now = DateTime::from_timestamp_millis(now_ms)?;
    let today = now.with_timezone(&Shanghai).date_naive().and_hms_opt(0, 0, 0)?;
    Shanghai.from_local_datetime(&today).single().map(|value| value.timestamp_millis())
}

/// The local day in Asia/Shanghai that holds `now_ms`, as the instants of
/// its first and of the next day's first millisecond, when both local
/// midnights exist exactly once.
pub fn shanghai_day_window(now_ms: i64) -> (r: Option<(i64, i64)>)
    requires
        shanghai_local_ok(now_ms as int),
    ensures
        r is Some <==> (shanghai_midnight_spec(now_ms) is Some && shanghai_next_midnight_spec(
            now_ms,
        ) is Some),
        r matches Some((start, end)) ==> start == shanghai_midnight_spec(now_ms)->0 && end
            == shanghai_next_midnight_spec(now_ms)->0,
{
    match (shanghai_midnight(now_ms), shanghai_next_midnight(now_ms)) {
        (Some(start), Some(end)) => Some((start, end)),
        _ => None,
    }
}

/// The decimal digit for `d`.
pub open spec fn digit_char(d: int) -> char {
    (d + 48) as char
}

/// The decimal digits of a natural number, without leading zeros.
pub open spec fn nat_digits(n: nat) -> Seq<char>
    decreases n,
{
    if n < 10 {
        seq![digit_char(n as int)]
    } else {
        nat_digits(n / 10).push(digit_char((n % 10) as int))
    }
}

/// The decimal form of an integer, as `Display` writes it for `i64`.
pub open spec fn int_decimal(n: int) -> Seq<char> {
    if n < 0 {
        seq!['-'] + nat_digits((-n) as nat)
    } else {
        nat_digits(n as nat)
    }
}

/// `n` in two decimal digits, with a leading zero below ten.
pub open spec fn two_digits(n: int) -> Seq<char> {
    seq![digit_char(n / 10), digit_char(n % 10)]
}

/// The `HH:MM` form of a time of day.
pub open spec fn hh_mm(seconds: int) -> Seq<char> {
    two_digits(seconds / 3600) + seq![':'] + two_digits((seconds % 3600) / 60)
}

fn digit(d: u64) -> (c: char)
    requires
        d < 10,
    ensures
        c == digit_char(d as int),
{
    ((d as u8) + 48) as char
}

/// The decimal digits of `n`.
pub fn decimal_u64(n: u64) -> (s: String)
    ensures
        s@ == nat_digits(n as nat),
    decreases n,
{
    if n < 10 {
        let mut s = String::new();
        crate::text::push_char(&mut s, digit(n));
        assert(s@ =~= nat_digits(n as nat));
        s
    } else {
        let mut s = decimal_u64(n / 10);
        crate::text::push_char(&mut s, digit(n % 10));
        s
    }
}

/// The decimal form of `n`, with a minus sign when it is negative.
pub fn decimal_i64(n: i64) -> (s: String)
    ensures
        s@ == int_decimal(n as int),
{
    if n < 0 {
        let magnitude: u64 = (0i128 - (n as i128)) as u64;
        let digits = decimal_u64(magnitude);
        let s = String::from_str("-");
        proof {
            reveal_strlit("-");
        }
        let r = s.concat(digits.as_str());
        assert(r@ =~= int_decimal(n as int));
        r
    } else {
        decimal_u64(n as u64)
    }
}

/// The time of day `seconds` as `HH:MM`, as `NaiveTime::format("%H:%M")`
/// writes it.
pub fn format_hh_mm(seconds: u32) -> (s: String)
    requires
        seconds < SECONDS_PER_DAY,
    ensures
        s@ == hh_mm(seconds as int),
{
    let hours = (seconds / 3600) as u64;
    let minutes = ((seconds % 3600) / 60) as u64;
    let mut s = String::new();
    crate::text::push_char(&mut s, digit(hours / 10));
    crate::text::push_char(&mut s, digit(hours % 10));
    crate::text::push_char(&mut s, ':');
    crate::text::push_char(&mut s, digit(minutes / 10));
    crate::text::push_char(&mut s, digit(minutes % 10));
    assert(s@ =~= hh_mm(seconds as int));
    s
}

/// What `NaiveTime::parse_from_str(text, "%H:%M")` gives for `text`, as
/// seconds since midnight.
pub uninterp spec fn parse_hh_mm_spec(text: Seq<char>) -> Option<u32>;

/// Calls `chrono::NaiveTime::parse_from_str` with the format `%H:%M` and
/// converts a parsed time to seconds since midnight. The result is named;
/// beside it the contract states what `NaiveTime` guarantees of any value:
/// it lies within one day.
#[verifier::external_body]
pub(crate) fn parse_hh_mm(text: &str) -> (r: Option<u32>)
    ensures
        r == parse_hh_mm_spec(text@),
        r matches Some(seconds) ==> seconds < SECONDS_PER_DAY,
{
    chrono::NaiveTime::parse_from_str(text, "%H:%M").ok().map(|time| time.num_seconds_from_midnight())
}

} // verus!
