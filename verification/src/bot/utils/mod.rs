pub mod clock;
pub mod logs;
pub mod text;

use vstd::prelude::*;
use crate::bot::utils::clock::{Zone, zone_weekday, zone_hour, days_after, zone_with_hour, zone_with_minute, zone_with_second, now_timestamp, local_weekday, local_hour, add_days, with_local_hour, with_local_minute, with_local_second};
use crate::bot::utils::text::{decimal, push_decimal};
use crate::db::queries::user::{digits_value, decimal_is_digits};

verus! {

/// What `format_amount` writes for `n`: whole millions followed by `kk`,
/// else whole thousands followed by `k`, else the number itself.
pub open spec fn amount_text(n: nat) -> Seq<char> {
    if n >= 1_000_000 {
        decimal(n / 1_000_000) + seq!['k', 'k']
    } else if n >= 1_000 {
        decimal(n / 1_000) + seq!['k']
    } else {
        decimal(n)
    }
}

/// Short form of an amount of money, as the bot shows it (`1500` is `1k`,
/// `2500000` is `2kk`); the value is truncated, never rounded.
pub fn format_amount(amount: u64) -> (s: String)
    ensures
        s@ == amount_text(amount as nat),
{
    let mut s = String::new();
    if amount >= 1_000_000 {
        push_decimal(&mut s, amount / 1_000_000);
        s.append("kk");
        proof {
            reveal_strlit("kk");
        }
    } else if amount >= 1_000 {
        push_decimal(&mut s, amount / 1_000);
        s.append("k");
        proof {
            reveal_strlit("k");
        }
    } else {
        push_decimal(&mut s, amount);
    }
    s
}

/// The amount a short form stands for: its digits, times a million when it
/// ends in `kk`, times a thousand when it ends in a single `k`.
pub open spec fn short_amount_value(s: Seq<char>) -> nat {
    if s.len() >= 2 && s.last() == 'k' && s[s.len() - 2] == 'k' {
        digits_value(s.take(s.len() - 2)) * 1_000_000
    } else if s.len() >= 1 && s.last() == 'k' {
        digits_value(s.take(s.len() - 1)) * 1_000
    } else {
        digits_value(s)
    }
}

/// `n` rounded down to the scale of its short form.
pub open spec fn shown_amount(n: nat) -> nat {
    if n >= 1_000_000 {
        (n / 1_000_000) * 1_000_000
    } else if n >= 1_000 {
        (n / 1_000) * 1_000
    } else {
        n
    }
}

proof fn short_form_reads_back(n: nat)
    ensures
        short_amount_value(amount_text(n)) == shown_amount(n),
{
    if n >= 1_000_000 {
        let d = decimal(n / 1_000_000);
        decimal_is_digits(n / 1_000_000);
        let s = d + seq!['k', 'k'];
        assert(s.take(s.len() - 2) == d);
    } else if n >= 1_000 {
        let d = decimal(n / 1_000);
        decimal_is_digits(n / 1_000);
        let s = d + seq!['k'];
        assert(s.take(s.len() - 1) == d);
        assert(s[s.len() - 2] == d[d.len() - 1]);
        assert(d[d.len() - 1] != 'k') by {
            assert('0' <= d[d.len() - 1] && d[d.len() - 1] <= '9');
        }
    } else {
        let d = decimal(n);
        decimal_is_digits(n);
        assert(d.last() != 'k') by {
            assert('0' <= d[d.len() - 1] && d[d.len() - 1] <= '9');
        }
    }
}

/// The short form never overstates an amount and never shows a larger amount
/// for a smaller one: read back (digits times the scale of its suffix), the
/// short form of `a` is at most `a`, and at most that of any `b >= a`.
pub proof fn format_amount_is_monotone(a: u64, b: u64)
    requires
        a <= b,
    ensures
        short_amount_value(amount_text(a as nat)) <= a,
        short_amount_value(amount_text(a as nat)) <= short_amount_value(amount_text(b as nat)),
{
    short_form_reads_back(a as nat);
    short_form_reads_back(b as nat);
    let x = a as int;
    let y = b as int;
    assert((x / 1_000_000) * 1_000_000 <= x) by (nonlinear_arith)
        requires
            x >= 0,
    ;
    assert((x / 1_000) * 1_000 <= x) by (nonlinear_arith)
        requires
            x >= 0,
    ;
    assert(x <= y ==> (x / 1_000_000) * 1_000_000 <= (y / 1_000_000) * 1_000_000) by (nonlinear_arith)
        requires
            x >= 0,
    ;
    assert(x <= y ==> (x / 1_000) * 1_000 <= (y / 1_000) * 1_000) by (nonlinear_arith)
        requires
            x >= 0,
    ;
    assert(y >= 1_000_000 ==> (y / 1_000_000) * 1_000_000 >= 1_000_000) by (nonlinear_arith);
    assert(y >= 1_000 ==> (y / 1_000) * 1_000 >= 1_000) by (nonlinear_arith);
}

/// What is still to deliver of the goal `current_meta` after `total`:
/// `0` once the total is above the goal, else the short form of the
/// difference.
pub open spec fn remaining_text(total: i64, current_meta: i64) -> Seq<char> {
    if total > current_meta {
        seq!['0']
    } else {
        amount_text((current_meta - total) as nat)
    }
}

/// What is still to deliver of the goal `current_meta` after `total`.
pub fn remaining_amount(total: i64, current_meta: i64) -> (s: String)
    ensures
        s@ == remaining_text(total, current_meta),
{
    if total > current_meta {
        proof {
            reveal_strlit("0");
        }
        "0".to_owned()
    } else {
        let diff: i128 = current_meta as i128 - total as i128;
        format_amount(diff as u64)
    }
}

/// Days from a day of the week (0 for Monday) to the next Monday, a full
/// week when it is Monday already.
pub open spec fn days_to_next_monday(weekday: int) -> int {
    7 - weekday
}

/// Days back from a day of the week (0 for Monday) and hour to the Monday of
/// the current week: on a Monday before 18:00 the week began the Monday
/// before.
pub open spec fn days_from_last_monday(weekday: int, hour: int) -> int {
    if weekday == 0 && hour < 18 {
        7
    } else {
        weekday
    }
}

/// The number of days from `weekday` (0 for Monday) to the next Monday.
pub fn days_until_next_monday(weekday: u32) -> (d: i64)
    requires
        weekday < 7,
    ensures
        d == days_to_next_monday(weekday as int),
        1 <= d <= 7,
        (weekday + d) % 7 == 0,
{
    7 - weekday as i64
}

/// The number of days back from `weekday` at `hour` to the Monday on which
/// the current week began.
pub fn days_since_last_monday(weekday: u32, hour: u32) -> (d: i64)
    requires
        weekday < 7,
    ensures
        d == days_from_last_monday(weekday as int, hour as int),
        0 <= d <= 7,
        (weekday - d) % 7 == 0,
{
    if weekday == 0 && hour < 18 {
        7
    } else {
        weekday as i64
    }
}

/// The week ends where it began: the days back to the last Monday and the
/// days on to the next one make one week, but on a Monday before 18:00, when
/// both ends move a week apart (two weeks in all).
pub proof fn week_spans_seven_days(weekday: int, hour: int)
    requires
        0 <= weekday < 7,
    ensures
        !(weekday == 0 && hour < 18) ==> days_from_last_monday(weekday, hour) + days_to_next_monday(weekday) == 7,
        (weekday == 0 && hour < 18) ==> days_from_last_monday(weekday, hour) + days_to_next_monday(weekday) == 14,
{
}

/// The instant `t` moved to 18:00:00 of its local date in `zone`
/// (`with_hour(18)`, `with_minute(0)`, `with_second(0)`).
pub open spec fn at_eighteen(zone: Zone, t: i64) -> Option<i64> {
    match zone_with_hour(zone, t, 18) {
        Some(a) => match zone_with_minute(zone, a, 0) {
            Some(b) => zone_with_second(zone, b, 0),
            None => None,
        },
        None => None,
    }
}

fn at_eighteen_exec(zone: Zone, t: i64) -> (r: Option<i64>)
    ensures
        r == at_eighteen(zone, t),
        r matches Some(u) ==> zone_hour(zone, u) == Some(18u32) && zone_weekday(zone, u) == zone_weekday(zone, t),
{
    match with_local_hour(zone, t, 18) {
        Some(a) => match with_local_minute(zone, a, 0) {
            Some(b) => with_local_second(zone, b, 0),
            None => None,
        },
        None => None,
    }
}

/// How the deadline `t` of the week of `now` reads on the São Paulo clock:
/// 18 o'clock, on the day of the week of the instant that many whole days
/// after `now` that `now`'s day of the week is from Monday.
pub open spec fn next_deadline_reads(now: i64, t: i64) -> bool {
    &&& zone_hour(Zone::SaoPaulo, t) == Some(18u32)
    &&& zone_weekday(Zone::SaoPaulo, now) matches Some(w)
    &&& zone_weekday(Zone::SaoPaulo, t) == zone_weekday(
        Zone::SaoPaulo,
        (now + days_to_next_monday(w as int) * 86400) as i64,
    )
}

/// How the start `t` of the week of `now` reads on the São Paulo clock:
/// 18 o'clock, on the day of the week of the instant that many whole days
/// before `now` that `now` is past the Monday the week began.
pub open spec fn week_start_reads(now: i64, t: i64) -> bool {
    &&& zone_hour(Zone::SaoPaulo, t) == Some(18u32)
    &&& zone_weekday(Zone::SaoPaulo, now) matches Some(w)
    &&& zone_hour(Zone::SaoPaulo, now) matches Some(h)
    &&& zone_weekday(Zone::SaoPaulo, t) == zone_weekday(
        Zone::SaoPaulo,
        (now - days_from_last_monday(w as int, h as int) * 86400) as i64,
    )
}

/// The deadline of the week that holds `now`: 18:00 of the next Monday in
/// São Paulo (a week on when `now` is a Monday).
pub open spec fn next_monday_at_18_after(now: i64) -> Option<i64> {
    match zone_weekday(Zone::SaoPaulo, now) {
        Some(w) => match days_after(now, days_to_next_monday(w as int) as i64) {
            Some(t) => at_eighteen(Zone::SaoPaulo, t),
            None => None,
        },
        None => None,
    }
}

/// The start of the week that holds `now`: 18:00 of the last Monday in São
/// Paulo (of the Monday before, on a Monday before 18:00).
pub open spec fn last_monday_at_18_before(now: i64) -> Option<i64> {
    match zone_weekday(Zone::SaoPaulo, now) {
        Some(w) => match zone_hour(Zone::SaoPaulo, now) {
            Some(h) => match days_after(now, -days_from_last_monday(w as int, h as int) as i64) {
                Some(t) => at_eighteen(Zone::SaoPaulo, t),
                None => None,
            },
            None => None,
        },
        None => None,
    }
}

/// The deadline of the week that holds the instant `now` (seconds since the
/// Unix epoch); `None` where chrono cannot place it.
pub fn next_monday_at_18_from(now: i64) -> (r: Option<i64>)
    ensures
        r == next_monday_at_18_after(now),
        r matches Some(t) ==> next_deadline_reads(now, t),
{
    match local_weekday(Zone::SaoPaulo, now) {
        Some(w) => {
            let days = days_until_next_monday(w);
            match add_days(now, days) {
                Some(t) => at_eighteen_exec(Zone::SaoPaulo, t),
                None => None,
            }
        },
        None => None,
    }
}

/// The start of the week that holds the instant `now`; `None` where chrono
/// cannot place it.
pub fn last_monday_at_18_from(now: i64) -> (r: Option<i64>)
    ensures
        r == last_monday_at_18_before(now),
        r matches Some(t) ==> week_start_reads(now, t),
{
    match local_weekday(Zone::SaoPaulo, now) {
        Some(w) => match local_hour(Zone::SaoPaulo, now) {
            Some(h) => {
                let days = days_since_last_monday(w, h);
                match add_days(now, -days) {
                    Some(t) => at_eighteen_exec(Zone::SaoPaulo, t),
                    None => None,
                }
            },
            None => None,
        },
        None => None,
    }
}

/// The deadline of the current week (18:00 of the next Monday in São Paulo),
/// as seconds since the Unix epoch. It reads the clock, so the contract
/// states only that it is the deadline of the week of some instant.
pub fn get_next_monday_at_18() -> (r: Option<i64>)
    ensures
        exists|now: i64| r == next_monday_at_18_after(now) && (r matches Some(t) ==> next_deadline_reads(now, t)),
{
    let now = now_timestamp();
    next_monday_at_18_from(now)
}

/// The start of the current week (18:00 of the last Monday in São Paulo).
pub fn get_last_monday_at_18() -> (r: Option<i64>)
    ensures
        exists|now: i64| r == last_monday_at_18_before(now) && (r matches Some(t) ==> week_start_reads(now, t)),
{
    let now = now_timestamp();
    last_monday_at_18_from(now)
}

} // verus!
