//! Quiet-hours predicate: parse `HH:MM` boundaries and decide whether a
//! wall-clock time falls inside the configured range. Same-day ranges
//! (`start <= end`) cover `[start, end]`; overnight ranges (`start > end`)
//! cover `[start, midnight) ∪ [midnight, end]`; both endpoints are inclusive.
//! A boundary that does not parse makes the predicate fail open (not quiet).

use vstd::prelude::*;

use chrono::Timelike;

verus! {

/// Minutes in a full day.
pub const MINUTES_PER_DAY: u32 = 1440;

/// `c` is a decimal digit.
pub open spec fn is_digit(c: char) -> bool {
    '0' <= c && c <= '9'
}

/// Numeric value of a decimal digit character.
pub open spec fn digit_val(c: char) -> int {
    c as u32 - '0' as u32
}

/// Parse a time of day written `HH:MM` (exactly two digits each, 24-hour
/// clock) into minutes since midnight; `None` on any malformed input.
pub open spec fn parse_hhmm(s: Seq<char>) -> Option<int> {
    if s.len() == 5 && s[2] == ':' && is_digit(s[0]) && is_digit(s[1]) && is_digit(s[3])
        && is_digit(s[4]) {
        let h = digit_val(s[0]) * 10 + digit_val(s[1]);
        let m = digit_val(s[3]) * 10 + digit_val(s[4]);
        if h < 24 && m < 60 {
            Some(h * 60 + m)
        } else {
            None
        }
    } else {
        None
    }
}

/// Whether the minute-of-day `now` lies in the quiet range bounded by the
/// `HH:MM` strings `start` and `end`; false when either bound is malformed.
pub open spec fn quiet_at(now: int, start: Seq<char>, end: Seq<char>) -> bool {
    match (parse_hhmm(start), parse_hhmm(end)) {
        (Some(a), Some(b)) => if a <= b {
            a <= now && now <= b
        } else {
            now >= a || now <= b
        },
        _ => false,
    }
}

fn digit_of(c: char) -> (d: u32)
    requires
        is_digit(c),
    ensures
        d == digit_val(c),
        d < 10,
{
    c as u32 - 48
}

/// Parse an `HH:MM` time of day into minutes since midnight.
pub fn parse_time_of_day(s: &str) -> (r: Option<u32>)
    ensures
        r matches Some(m) ==> parse_hhmm(s@) == Some(m as int) && m < MINUTES_PER_DAY,
        r is None ==> parse_hhmm(s@) is None,
{
    if s.unicode_len() != 5 {
        return None;
    }
    let c0 = s.get_char(0);
    let c1 = s.get_char(1);
    let c2 = s.get_char(2);
    let c3 = s.get_char(3);
    let c4 = s.get_char(4);
    if c2 != ':' {
        return None;
    }
    if !(('0' <= c0 && c0 <= '9') && ('0' <= c1 && c1 <= '9') && ('0' <= c3 && c3 <= '9') && ('0'
        <= c4 && c4 <= '9')) {
        return None;
    }
    let h = digit_of(c0) * 10 + digit_of(c1);
    let m = digit_of(c3) * 10 + digit_of(c4);
    if h < 24 && m < 60 {
        Some(h * 60 + m)
    } else {
        None
    }
}

/// Decide whether the minute-of-day `now` falls within quiet hours.
pub fn is_quiet_at(now_minutes: u32, start: &str, end: &str) -> (r: bool)
    requires
        now_minutes < MINUTES_PER_DAY,
    ensures
        r == quiet_at(now_minutes as int, start@, end@),
{
    let parsed_start = parse_time_of_day(start);
    let parsed_end = parse_time_of_day(end);
    match (parsed_start, parsed_end) {
        (Some(a), Some(b)) => {
            if a <= b {
                a <= now_minutes && now_minutes <= b
            } else {
                now_minutes >= a || now_minutes <= b
            }
        },
        _ => false,
    }
}

/// Relies on `chrono::Local::now` (read through `chrono::Timelike`) for the
/// current wall-clock time of day: an hour from 0 to 23 and a minute from 0
/// to 59.
#[verifier::external_body]
fn local_time_of_day() -> (t: (u32, u32))
    ensures
        t.0 < 24,
        t.1 < 60,
{
    let t = chrono::Local::now().time();
    (t.hour(), t.minute())
}

/// Decide whether the current local time falls within quiet hours. The
/// result is the quiet predicate applied to some valid minute of the day
/// (the one the clock returned); in particular it is false whenever either
/// bound is malformed.
pub fn is_quiet_hours(start: &str, end: &str) -> (r: bool)
    ensures
        exists|now: int| 0 <= now < MINUTES_PER_DAY && r == quiet_at(now, start@, end@),
        parse_hhmm(start@) is None || parse_hhmm(end@) is None ==> !r,
{
    let (h, m) = local_time_of_day();
    let now = h * 60 + m;
    let r = is_quiet_at(now, start, end);
    proof {
        assert(0 <= (now as int) && (now as int) < MINUTES_PER_DAY);
        assert(r == quiet_at(now as int, start@, end@));
    }
    r
}

/// Law: for valid bounds with `start <= end` the predicate holds exactly on
/// `[start, end]`; for `start > end` exactly on `[start, midnight) ∪
/// [midnight, end]`; and a malformed bound never counts as quiet.
pub proof fn lemma_quiet_hours_exact(now: int, start: Seq<char>, end: Seq<char>)
    requires
        0 <= now < MINUTES_PER_DAY,
    ensures
        (parse_hhmm(start) matches Some(a) && parse_hhmm(end) matches Some(b) && a <= b) ==> (
        quiet_at(now, start, end) <==> parse_hhmm(start).unwrap() <= now <= parse_hhmm(
            end,
        ).unwrap()),
        (parse_hhmm(start) matches Some(a) && parse_hhmm(end) matches Some(b) && a > b) ==> (
        quiet_at(now, start, end) <==> now >= parse_hhmm(start).unwrap() || now <= parse_hhmm(
            end,
        ).unwrap()),
        parse_hhmm(start) is None || parse_hhmm(end) is None ==> !quiet_at(now, start, end),
{
}

} // verus!
