use vstd::prelude::*;
use crate::bot::utils::{get_last_monday_at_18, get_next_monday_at_18, last_monday_at_18_before, next_monday_at_18_after};
use crate::bot::utils::clock::{utc_calendar, utc_fields};
use crate::bot::utils::text::{decimal, decimal_string};
use crate::db::models::goal::Goal;
use crate::db::queries::{ParamView, SqlParam, Statement, params_of, statement};

verus! {

/// Whether a goal is set at all: the `current_goal` row.
pub fn current_goal_statement() -> (s: Statement)
    ensures
        s.sql@ == "SELECT goal FROM current_goal"@,
        params_of(s) == Seq::<ParamView>::empty(),
{
    statement("SELECT goal FROM current_goal")
}

/// The statement that sets the weekly goal to `amount`: an update of the
/// row, which also restamps it, when one exists (`existing`), else an
/// insert; the amount is its one value.
pub open spec fn is_set_meta_statement(s: Statement, existing: bool, amount: i64) -> bool {
    &&& s.sql@ == (if existing {
        "UPDATE current_goal SET goal = ?, created_at = CURRENT_TIMESTAMP"@
    } else {
        "INSERT INTO current_goal (goal) VALUES (?)"@
    })
    &&& params_of(s) == seq![ParamView::Integer(amount)]
}

/// The statement that sets the weekly goal to `amount`.
pub fn set_meta_statement(existing: bool, amount: i64) -> (s: Statement)
    ensures
        is_set_meta_statement(s, existing, amount),
{
    let sql = if existing {
        "UPDATE current_goal SET goal = ?, created_at = CURRENT_TIMESTAMP"
    } else {
        "INSERT INTO current_goal (goal) VALUES (?)"
    };
    let mut params: Vec<SqlParam> = Vec::new();
    params.push(SqlParam::Integer(amount));
    let s = Statement { sql, params };
    assert(params_of(s) =~= seq![ParamView::Integer(amount)]);
    s
}

/// The `goal` column of the `current_goal` rows after `s` runs on them: the
/// update (it has no `WHERE`) sets the goal of every row to its value, the
/// insert adds a row with its value; other statements leave the rows alone.
pub open spec fn current_goal_after(rows: Seq<i64>, s: Statement) -> Seq<i64> {
    let p = params_of(s);
    if p.len() == 1 && p[0] is Integer {
        let a = p[0]->Integer_0;
        if s.sql@ == "UPDATE current_goal SET goal = ?, created_at = CURRENT_TIMESTAMP"@ {
            Seq::new(rows.len(), |i: int| a)
        } else if s.sql@ == "INSERT INTO current_goal (goal) VALUES (?)"@ {
            rows.push(a)
        } else {
            rows
        }
    } else {
        rows
    }
}

/// What reading the goal gives (`SELECT goal FROM current_goal`, one row
/// fetched): the goal of the first row, nothing when there is no row.
pub open spec fn goal_read(rows: Seq<i64>) -> Option<i64> {
    if rows.len() == 0 {
        None
    } else {
        Some(rows[0])
    }
}

/// A goal that is set is the goal read back: whatever rows `current_goal`
/// holds, the statement that sets the goal to `amount` (an update when there
/// are rows, else an insert) leaves a table whose goal reads as `amount`.
/// With no goal ever set, reading finds none.
pub proof fn stored_goal_reads_back(rows: Seq<i64>, amount: i64, s: Statement)
    requires
        is_set_meta_statement(s, rows.len() > 0, amount),
    ensures
        goal_read(current_goal_after(rows, s)) == Some(amount),
        goal_read(Seq::<i64>::empty()) is None,
{
    reveal_strlit("UPDATE current_goal SET goal = ?, created_at = CURRENT_TIMESTAMP");
    reveal_strlit("INSERT INTO current_goal (goal) VALUES (?)");
    assert("UPDATE current_goal SET goal = ?, created_at = CURRENT_TIMESTAMP"@[0] != "INSERT INTO current_goal (goal) VALUES (?)"@[0]);
    assert(params_of(s)[0] == ParamView::Integer(amount));
}

/// `s` padded on the left with zeros to `width` characters.
pub open spec fn zero_padded(s: Seq<char>, width: nat) -> Seq<char> {
    if s.len() >= width {
        s
    } else {
        Seq::new((width - s.len()) as nat, |i: int| '0') + s
    }
}

/// A year as chrono's `%Y` writes it: four digits with leading zeros from 0
/// to 9999, else with its sign in front.
pub open spec fn year_text(year: int) -> Seq<char> {
    if 0 <= year <= 9999 {
        zero_padded(decimal(year as nat), 4)
    } else if year < 0 {
        seq!['-'] + zero_padded(decimal((-year) as nat), 4)
    } else {
        seq!['+'] + zero_padded(decimal(year as nat), 4)
    }
}

/// A number in two digits with a leading zero.
pub open spec fn two_digits(n: nat) -> Seq<char> {
    zero_padded(decimal(n), 2)
}

/// Calendar fields as `%Y-%m-%d %H:%M:%S`, the form SQLite's `datetime`
/// reads.
pub open spec fn sql_datetime_text(f: (i32, u32, u32, u32, u32, u32)) -> Seq<char> {
    year_text(f.0 as int) + seq!['-'] + two_digits(f.1 as nat) + seq!['-'] + two_digits(f.2 as nat) + seq![' ']
        + two_digits(f.3 as nat) + seq![':'] + two_digits(f.4 as nat) + seq![':'] + two_digits(f.5 as nat)
}

/// The instant `secs` written in UTC as `%Y-%m-%d %H:%M:%S`.
pub open spec fn sql_datetime_of(secs: i64) -> Option<Seq<char>> {
    match utc_fields(secs) {
        Some(f) => Some(sql_datetime_text(f)),
        None => None,
    }
}

fn push_zero_padded(out: &mut String, n: u64, width: usize)
    ensures
        final(out)@ == old(out)@ + zero_padded(decimal(n as nat), width as nat),
{
    let digits = decimal_string(n);
    let len = digits.unicode_len();
    let ghost start = out@;
    if len < width {
        let pad = width - len;
        for k in 0..pad
            invariant
                out@ == start + Seq::new(k as nat, |i: int| '0'),
        {
            out.append("0");
            proof {
                reveal_strlit("0");
                assert(Seq::new(k as nat, |i: int| '0').push('0') =~= Seq::new((k + 1) as nat, |i: int| '0'));
            }
        }
    }
    out.append(digits.as_str());
}

fn push_char_text(out: &mut String, c: &str)
    requires
        c@.len() == 1,
    ensures
        final(out)@ == old(out)@.push(c@[0]),
{
    out.append(c);
    assert(c@ =~= seq![c@[0]]);
}

/// Calendar fields written as `%Y-%m-%d %H:%M:%S`.
pub fn format_sql_datetime(f: (i32, u32, u32, u32, u32, u32)) -> (s: String)
    ensures
        s@ == sql_datetime_text(f),
{
    proof {
        reveal_strlit("-");
        reveal_strlit("+");
        reveal_strlit(" ");
        reveal_strlit(":");
    }
    let mut s = String::new();
    let year = f.0;
    if 0 <= year && year <= 9999 {
        push_zero_padded(&mut s, year as u64, 4);
    } else if year < 0 {
        push_char_text(&mut s, "-");
        let magnitude: i64 = 0 - (year as i64);
        push_zero_padded(&mut s, magnitude as u64, 4);
    } else {
        push_char_text(&mut s, "+");
        push_zero_padded(&mut s, year as u64, 4);
    }
    push_char_text(&mut s, "-");
    push_zero_padded(&mut s, f.1 as u64, 2);
    push_char_text(&mut s, "-");
    push_zero_padded(&mut s, f.2 as u64, 2);
    push_char_text(&mut s, " ");
    push_zero_padded(&mut s, f.3 as u64, 2);
    push_char_text(&mut s, ":");
    push_zero_padded(&mut s, f.4 as u64, 2);
    push_char_text(&mut s, ":");
    push_zero_padded(&mut s, f.5 as u64, 2);
    s
}

/// The instant `secs` written in UTC as `%Y-%m-%d %H:%M:%S`.
pub fn sql_datetime(secs: i64) -> (r: Option<String>)
    ensures
        match r {
            Some(s) => sql_datetime_of(secs) == Some(s@),
            None => sql_datetime_of(secs) is None,
        },
{
    match utc_calendar(secs) {
        Some(f) => Some(format_sql_datetime(f)),
        None => None,
    }
}

/// The query of the approved goals created from `start` (included) to `end`
/// (excluded).
pub open spec fn approved_in_window_sql() -> Seq<char> {
    "SELECT id, discord_id, amount, created_at, status, message_id FROM goals WHERE status = 'Approved' AND datetime(created_at) >= datetime(?) AND datetime(created_at) < datetime(?)"@
}

/// The text `t` begins with `p`.
pub open spec fn starts_with(t: Seq<char>, p: Seq<char>) -> bool {
    t.len() >= p.len() && t.take(p.len() as int) == p
}

/// The query's head: every column of the `goals` table, then a `WHERE`.
pub open spec fn goals_select_head() -> Seq<char> {
    "SELECT id, discord_id, amount, created_at, status, message_id FROM goals WHERE "@
}

/// The condition that a goal is approved.
pub open spec fn approved_condition() -> Seq<char> {
    "status = 'Approved'"@
}

/// The condition that a goal was created at or after the instant of the
/// next parameter.
pub open spec fn created_from_condition() -> Seq<char> {
    "datetime(created_at) >= datetime(?)"@
}

/// The condition that a goal was created before the instant of the next
/// parameter.
pub open spec fn created_before_condition() -> Seq<char> {
    "datetime(created_at) < datetime(?)"@
}

/// The instant at which `row` was created, as `clock` reads a time text
/// (`None` for a missing or unreadable time).
pub open spec fn created_instant(row: Goal, clock: spec_fn(Seq<char>) -> Option<int>) -> Option<int> {
    match row.created_at {
        Some(c) => clock(c@),
        None => None,
    }
}

/// The instant of the text parameter at `k`, as `clock` reads it.
pub open spec fn param_instant(params: Seq<ParamView>, k: int, clock: spec_fn(Seq<char>) -> Option<int>) -> Option<int> {
    if 0 <= k < params.len() {
        match params[k] {
            ParamView::Text(t) => clock(t),
            ParamView::Integer(_) => None,
        }
    } else {
        None
    }
}

/// The condition that `t` begins with, read on `row` with the parameter at
/// `k` for its `?`: its truth (a missing value makes a comparison false, as
/// SQL's NULL does in a `WHERE` of ANDs and ORs), its length, and the number
/// of parameters it takes. `None` for any other text.
pub open spec fn first_condition(
    t: Seq<char>,
    params: Seq<ParamView>,
    k: int,
    row: Goal,
    clock: spec_fn(Seq<char>) -> Option<int>,
) -> Option<(bool, nat, int)> {
    if starts_with(t, approved_condition()) {
        Some((row.status matches Some(st) && st@ == "Approved"@, approved_condition().len(), 0))
    } else if starts_with(t, created_from_condition()) {
        let holds = match (created_instant(row, clock), param_instant(params, k, clock)) {
            (Some(c), Some(p)) => c >= p,
            _ => false,
        };
        Some((holds, created_from_condition().len(), 1))
    } else if starts_with(t, created_before_condition()) {
        let holds = match (created_instant(row, clock), param_instant(params, k, clock)) {
            (Some(c), Some(p)) => c < p,
            _ => false,
        };
        Some((holds, created_before_condition().len(), 1))
    } else {
        None
    }
}

/// The value on `row` of the conditions `t` joined by `AND` and `OR` (`AND`
/// binding tighter, as in SQL), the parameters from `k` on filling the `?`s;
/// `conj` is the value of the `AND` group read so far and `disj` that of the
/// groups before it. Gives the value and the index of the next unused
/// parameter; `None` for a text of any other form.
pub open spec fn where_value(
    t: Seq<char>,
    params: Seq<ParamView>,
    k: int,
    row: Goal,
    clock: spec_fn(Seq<char>) -> Option<int>,
    conj: bool,
    disj: bool,
) -> Option<(bool, int)>
    decreases t.len(),
{
    match first_condition(t, params, k, row, clock) {
        Some((v, n, used)) => {
            let c = conj && v;
            let rest = t.skip(n as int);
            if n == 0 || n > t.len() {
                None
            } else if rest.len() == 0 {
                Some((disj || c, k + used))
            } else if starts_with(rest, seq![' ', 'A', 'N', 'D', ' ']) {
                where_value(rest.skip(5), params, k + used, row, clock, c, disj)
            } else if starts_with(rest, seq![' ', 'O', 'R', ' ']) {
                where_value(rest.skip(4), params, k + used, row, clock, true, disj || c)
            } else {
                None
            }
        },
        None => None,
    }
}

/// The query `sql` with the parameters `params` selects the goal `row` when
/// times are read by `clock`: it reads the `goals` table, and its `WHERE`
/// holds on the row with every parameter used.
pub open spec fn selects(sql: Seq<char>, params: Seq<ParamView>, row: Goal, clock: spec_fn(Seq<char>) -> Option<int>) -> bool {
    starts_with(sql, goals_select_head()) && where_value(
        sql.skip(goals_select_head().len() as int),
        params,
        0,
        row,
        clock,
        true,
        false,
    ) == Some((true, params.len() as int))
}

/// The goal `row` is approved and was created from the instant written
/// `start` (included) to the one written `end` (excluded).
pub open spec fn approved_in_window(row: Goal, clock: spec_fn(Seq<char>) -> Option<int>, start: Seq<char>, end: Seq<char>) -> bool {
    &&& row.status matches Some(st) && st@ == "Approved"@
    &&& created_instant(row, clock) matches Some(c)
    &&& clock(start) matches Some(a)
    &&& clock(end) matches Some(b)
    &&& a <= c < b
}

/// The week's query selects a goal exactly when it is approved and was
/// created from the start of the window (included) to its end (excluded),
/// whatever instants the time texts stand for.
pub proof fn window_query_selects_approved_goals_in_window(
    start: Seq<char>,
    end: Seq<char>,
    row: Goal,
    clock: spec_fn(Seq<char>) -> Option<int>,
)
    ensures
        selects(approved_in_window_sql(), seq![ParamView::Text(start), ParamView::Text(end)], row, clock)
            == approved_in_window(row, clock, start, end),
{
    reveal_strlit("SELECT id, discord_id, amount, created_at, status, message_id FROM goals WHERE status = 'Approved' AND datetime(created_at) >= datetime(?) AND datetime(created_at) < datetime(?)");
    reveal_strlit("SELECT id, discord_id, amount, created_at, status, message_id FROM goals WHERE ");
    reveal_strlit("status = 'Approved'");
    reveal_strlit("datetime(created_at) >= datetime(?)");
    reveal_strlit("datetime(created_at) < datetime(?)");
    let sql = approved_in_window_sql();
    let params = seq![ParamView::Text(start), ParamView::Text(end)];
    assert(sql.len() == 177);
    assert(starts_with(sql, goals_select_head())) by {
        assert(sql.take(79) =~= goals_select_head());
    }
    let t0 = sql.skip(79);
    let t1 = sql.skip(103);
    let t2 = sql.skip(143);
    assert(t0.take(19) =~= approved_condition());
    assert(t0.skip(19).take(5) =~= seq![' ', 'A', 'N', 'D', ' ']);
    assert(t0.skip(19).skip(5) =~= t1);
    assert(t1[0] != approved_condition()[0]);
    assert(t1.take(35) =~= created_from_condition());
    assert(t1.skip(35).take(5) =~= seq![' ', 'A', 'N', 'D', ' ']);
    assert(t1.skip(35).skip(5) =~= t2);
    assert(t2[0] != approved_condition()[0]);
    assert(t2[21] != created_from_condition()[21]);
    assert(t2.take(34) =~= created_before_condition());
    assert(t2.skip(34).len() == 0);
    let approved = row.status matches Some(st) && st@ == "Approved"@;
    let from = match (created_instant(row, clock), param_instant(params, 0, clock)) {
        (Some(c), Some(p)) => c >= p,
        _ => false,
    };
    let before = match (created_instant(row, clock), param_instant(params, 1, clock)) {
        (Some(c), Some(p)) => c < p,
        _ => false,
    };
    assert(!starts_with(t1, approved_condition()));
    assert(!starts_with(t2, approved_condition()));
    assert(!starts_with(t2, created_from_condition()));
    assert(where_value(t2, params, 1, row, clock, approved && from, false) == Some((approved && from && before, 2int)));
    assert(where_value(t1, params, 1 - 1, row, clock, approved, false) == where_value(t2, params, 1, row, clock, approved && from, false));
    assert(where_value(t0, params, 0, row, clock, true, false) == where_value(t1, params, 0, row, clock, approved, false));
}

/// The statement that lists the approved goals created between the instants
/// `start` (included) and `end` (excluded); `None` where chrono cannot write
/// either in UTC.
pub fn approved_in_window_statement(start: i64, end: i64) -> (r: Option<Statement>)
    ensures
        r is Some <==> sql_datetime_of(start) is Some && sql_datetime_of(end) is Some,
        r matches Some(s) ==> s.sql@ == approved_in_window_sql() && params_of(s) == seq![
            ParamView::Text(sql_datetime_of(start)->0),
            ParamView::Text(sql_datetime_of(end)->0),
        ],
        r matches Some(s) ==> forall|row: Goal, clock: spec_fn(Seq<char>) -> Option<int>|
            #[trigger] selects(s.sql@, params_of(s), row, clock) == approved_in_window(
                row,
                clock,
                sql_datetime_of(start)->0,
                sql_datetime_of(end)->0,
            ),
{
    match (sql_datetime(start), sql_datetime(end)) {
        (Some(a), Some(b)) => {
            let ghost (va, vb) = (a@, b@);
            let mut params: Vec<SqlParam> = Vec::new();
            params.push(SqlParam::Text(a));
            params.push(SqlParam::Text(b));
            let s = Statement {
                sql: "SELECT id, discord_id, amount, created_at, status, message_id FROM goals WHERE status = 'Approved' AND datetime(created_at) >= datetime(?) AND datetime(created_at) < datetime(?)",
                params,
            };
            assert(params_of(s) =~= seq![ParamView::Text(va), ParamView::Text(vb)]);
            assert forall|row: Goal, clock: spec_fn(Seq<char>) -> Option<int>|
                #[trigger] selects(s.sql@, params_of(s), row, clock) == approved_in_window(row, clock, va, vb) by {
                window_query_selects_approved_goals_in_window(va, vb, row, clock);
            }
            Some(s)
        },
        _ => None,
    }
}

/// What the statement of the approved goals of the week is, given the
/// start `start` and end `end` of the week as computed (`None` where chrono
/// could not place them): present exactly when both ends exist and can be
/// written in UTC, with the two ends as its parameters.
pub open spec fn week_statement_matches(r: Option<Statement>, start: Option<i64>, end: Option<i64>) -> bool {
    match (start, end) {
        (Some(a), Some(b)) => match r {
            Some(s) => {
                &&& sql_datetime_of(a) is Some
                &&& sql_datetime_of(b) is Some
                &&& s.sql@ == approved_in_window_sql()
                &&& params_of(s) == seq![
                    ParamView::Text(sql_datetime_of(a)->0),
                    ParamView::Text(sql_datetime_of(b)->0),
                ]
            },
            None => sql_datetime_of(a) is None || sql_datetime_of(b) is None,
        },
        _ => r is None,
    }
}

/// The statement that lists the goals approved this week: from 18:00 of the
/// last Monday to 18:00 of the next one, São Paulo time. It reads the clock
/// (once for each end), so the contract speaks of the instants read: the
/// statement is there exactly when both week ends of those instants exist
/// and can be written in UTC.
pub fn approved_this_week_statement() -> (r: Option<Statement>)
    ensures
        exists|now1: i64, now2: i64|
            #![trigger last_monday_at_18_before(now1), next_monday_at_18_after(now2)]
            week_statement_matches(r, last_monday_at_18_before(now1), next_monday_at_18_after(now2)),
{
    let start = get_last_monday_at_18();
    let end = get_next_monday_at_18();
    let ghost now1 = choose|n: i64| start == last_monday_at_18_before(n);
    let ghost now2 = choose|n: i64| end == next_monday_at_18_after(n);
    let r = match (start, end) {
        (Some(a), Some(b)) => approved_in_window_statement(a, b),
        _ => None,
    };
    assert(week_statement_matches(r, last_monday_at_18_before(now1), next_monday_at_18_after(now2)));
    r
}

} // verus!
