use vstd::prelude::*;
use crate::bot::components::buttons_meta::{Verdict, status_label, status_label_text};
use crate::bot::utils::text::{decimal, digit_char, decimal_string};
use crate::db::queries::{ParamView, SqlParam, Statement, params_of, statement};

verus! {

/// `c` is an ASCII decimal digit.
pub open spec fn is_digit(c: char) -> bool {
    '0' <= c && c <= '9'
}

/// The value of a sequence of decimal digits, most significant first.
pub open spec fn digits_value(s: Seq<char>) -> nat
    decreases s.len(),
{
    if s.len() == 0 {
        0
    } else {
        digits_value(s.drop_last()) * 10 + ((s.last() as int) - ('0' as int)) as nat
    }
}

/// The digits of `s` after an optional leading `+`.
pub open spec fn unsigned_body(s: Seq<char>) -> Seq<char> {
    if s.len() > 0 && s[0] == '+' {
        s.drop_first()
    } else {
        s
    }
}

/// What `str::parse::<u64>` gives for `s`: an optional `+` followed by at
/// least one decimal digit and nothing else, of a value that fits 64 bits.
pub open spec fn parsed_u64(s: Seq<char>) -> Option<u64> {
    let body = unsigned_body(s);
    if body.len() > 0 && (forall|i: int| 0 <= i < body.len() ==> #[trigger] is_digit(body[i]))
        && digits_value(body) <= u64::MAX {
        Some(digits_value(body) as u64)
    } else {
        None
    }
}

proof fn digits_value_grows(s: Seq<char>, k: int)
    requires
        0 <= k <= s.len(),
        forall|i: int| 0 <= i < s.len() ==> #[trigger] is_digit(s[i]),
    ensures
        digits_value(s.take(k)) <= digits_value(s),
    decreases s.len() - k,
{
    if k < s.len() {
        digits_value_grows(s, k + 1);
        assert(s.take(k + 1).drop_last() == s.take(k));
    } else {
        assert(s.take(k) == s);
    }
}

/// Reads a decimal `u64` as `str::parse::<u64>` does.
pub fn parse_u64(s: &str) -> (r: Option<u64>)
    ensures
        r == parsed_u64(s@),
{
    let n = s.unicode_len();
    let mut start: usize = 0;
    if n > 0 && s.get_char(0) == '+' {
        start = 1;
    }
    let ghost body = unsigned_body(s@);
    assert(body == s@.subrange(start as int, n as int));
    if start >= n {
        return None;
    }
    let mut acc: u64 = 0;
    let mut k: usize = start;
    while k < n
        invariant
            n == s@.len(),
            start <= k <= n,
            body == s@.subrange(start as int, n as int),
            body == unsigned_body(s@),
            forall|i: int| 0 <= i < k - start ==> #[trigger] is_digit(body[i]),
            acc == digits_value(body.take(k - start)),
        decreases n - k,
    {
        let c = s.get_char(k);
        assert(c == body[k - start]);
        if !('0' <= c && c <= '9') {
            assert(!is_digit(body[k - start]));
            return None;
        }
        let d: u64 = (c as u32 - '0' as u32) as u64;
        assert(body.take(k + 1 - start).drop_last() == body.take(k - start));
        assert(body.take(k + 1 - start).last() == c);
        assert(digits_value(body.take(k + 1 - start)) == acc * 10 + d);
        match acc.checked_mul(10) {
            Some(m) => match m.checked_add(d) {
                Some(next) => {
                    acc = next;
                },
                None => {
                    proof {
                        if forall|i: int| 0 <= i < body.len() ==> #[trigger] is_digit(body[i]) {
                            digits_value_grows(body, k + 1 - start);
                        }
                    }
                    return None;
                },
            },
            None => {
                proof {
                    if forall|i: int| 0 <= i < body.len() ==> #[trigger] is_digit(body[i]) {
                        digits_value_grows(body, k + 1 - start);
                    }
                }
                return None;
            },
        }
        k = k + 1;
    }
    assert(body.take(n - start) == body);
    Some(acc)
}

proof fn digit_char_value(d: nat)
    requires
        d < 10,
    ensures
        is_digit(digit_char(d)),
        (digit_char(d) as int) - ('0' as int) == d,
        digit_char(d) != '+',
{
}

pub proof fn decimal_is_digits(n: nat)
    ensures
        decimal(n).len() > 0,
        forall|i: int| 0 <= i < decimal(n).len() ==> #[trigger] is_digit(decimal(n)[i]),
        digits_value(decimal(n)) == n,
        decimal(n)[0] != '+',
    decreases n,
{
    if n >= 10 {
        decimal_is_digits(n / 10);
        digit_char_value(n % 10);
        let d = decimal(n / 10);
        assert(decimal(n) == d.push(digit_char(n % 10)));
        assert(decimal(n).drop_last() == d);
        assert(decimal(n).last() == digit_char(n % 10));
        assert((n / 10) * 10 + n % 10 == n) by (nonlinear_arith);
        assert(digits_value(decimal(n)) == digits_value(d) * 10 + ((digit_char(n % 10) as int) - ('0' as int)));
    } else {
        digit_char_value(n);
        assert(decimal(n) == seq![digit_char(n)]);
        assert(decimal(n).drop_last() == Seq::<char>::empty());
        assert(digits_value(Seq::<char>::empty()) == 0);
        assert(decimal(n).last() == digit_char(n));
    }
}

/// A channel id the bot writes as text is read back as the same id:
/// parsing the decimal form of any `u64` gives that number.
pub proof fn stored_channel_reads_back(channel: u64)
    ensures
        parsed_u64(decimal(channel as nat)) == Some(channel),
{
    decimal_is_digits(channel as nat);
    assert(unsigned_body(decimal(channel as nat)) == decimal(channel as nat));
}

/// The channel stored for a user, read from the text column: `None` when
/// there is no row or the text is not a `u64`.
pub fn user_channel_from_row(channel: Option<String>) -> (r: Option<u64>)
    ensures
        r == (match channel {
            Some(s) => parsed_u64(s@),
            None => None::<u64>,
        }),
{
    match channel {
        Some(s) => parse_u64(s.as_str()),
        None => None,
    }
}

/// The key a user is stored under: the decimal form of their id.
pub fn user_key(user: u64) -> (s: String)
    ensures
        s@ == decimal(user as nat),
{
    decimal_string(user)
}

/// The statement that finds the channel of `user`.
pub fn get_user_channel_statement(user: u64) -> (s: Statement)
    ensures
        s.sql@ == "SELECT channel_id FROM users WHERE discord_id = ?"@,
        params_of(s) == seq![ParamView::Text(decimal(user as nat))],
{
    let mut params: Vec<SqlParam> = Vec::new();
    params.push(SqlParam::Text(user_key(user)));
    let s = Statement { sql: "SELECT channel_id FROM users WHERE discord_id = ?", params };
    assert(params_of(s) =~= seq![ParamView::Text(decimal(user as nat))]);
    s
}

/// The statement that stores the channel of `user`, both as decimal text.
pub fn create_user_channel_statement(user: u64, channel: u64) -> (s: Statement)
    ensures
        s.sql@ == "INSERT INTO users (discord_id, channel_id) VALUES (?, ?)"@,
        params_of(s) == seq![ParamView::Text(decimal(user as nat)), ParamView::Text(decimal(channel as nat))],
{
    let mut params: Vec<SqlParam> = Vec::new();
    params.push(SqlParam::Text(user_key(user)));
    params.push(SqlParam::Text(decimal_string(channel)));
    let s = Statement { sql: "INSERT INTO users (discord_id, channel_id) VALUES (?, ?)", params };
    assert(params_of(s) =~= seq![ParamView::Text(decimal(user as nat)), ParamView::Text(decimal(channel as nat))]);
    s
}

/// The statement that finds the latest goal of `user`.
pub fn get_user_last_goal_statement(user: u64) -> (s: Statement)
    ensures
        s.sql@
            == "SELECT id, discord_id, amount, created_at, status, message_id FROM goals WHERE discord_id = ? ORDER BY created_at DESC LIMIT 1"@,
        params_of(s) == seq![ParamView::Text(decimal(user as nat))],
{
    let mut params: Vec<SqlParam> = Vec::new();
    params.push(SqlParam::Text(user_key(user)));
    let s = Statement {
        sql: "SELECT id, discord_id, amount, created_at, status, message_id FROM goals WHERE discord_id = ? ORDER BY created_at DESC LIMIT 1",
        params,
    };
    assert(params_of(s) =~= seq![ParamView::Text(decimal(user as nat))]);
    s
}

/// The statement that records the goal `amount` of `user`, judged under the
/// message `message_id`.
pub fn create_goal_statement(user: u64, amount: i64, message_id: String) -> (s: Statement)
    ensures
        s.sql@ == "INSERT INTO goals (discord_id, amount, message_id) VALUES (?, ?, ?)"@,
        params_of(s) == seq![ParamView::Text(decimal(user as nat)), ParamView::Integer(amount), ParamView::Text(message_id@)],
{
    let ghost m = message_id@;
    let mut params: Vec<SqlParam> = Vec::new();
    params.push(SqlParam::Text(user_key(user)));
    params.push(SqlParam::Integer(amount));
    params.push(SqlParam::Text(message_id));
    let s = Statement { sql: "INSERT INTO goals (discord_id, amount, message_id) VALUES (?, ?, ?)", params };
    assert(params_of(s) =~= seq![ParamView::Text(decimal(user as nat)), ParamView::Integer(amount), ParamView::Text(m)]);
    s
}

/// The statement that finds the goal judged under the message `message_id`.
pub fn get_goal_by_message_statement(message_id: u64) -> (s: Statement)
    ensures
        s.sql@ == "SELECT * FROM goals WHERE message_id = ?"@,
        params_of(s) == seq![ParamView::Text(decimal(message_id as nat))],
{
    let mut params: Vec<SqlParam> = Vec::new();
    params.push(SqlParam::Text(decimal_string(message_id)));
    let s = Statement { sql: "SELECT * FROM goals WHERE message_id = ?", params };
    assert(params_of(s) =~= seq![ParamView::Text(decimal(message_id as nat))]);
    s
}

/// The statement that records the verdict on the goal judged under the
/// message `message_id`.
pub fn update_goal_status_statement(message_id: u64, status: Verdict) -> (s: Statement)
    ensures
        s.sql@ == "UPDATE goals SET status = ? WHERE message_id = ?"@,
        params_of(s) == seq![ParamView::Text(status_label_text(status)), ParamView::Text(decimal(message_id as nat))],
{
    let mut params: Vec<SqlParam> = Vec::new();
    params.push(SqlParam::Text(status_label(status).to_owned()));
    params.push(SqlParam::Text(decimal_string(message_id)));
    let s = Statement { sql: "UPDATE goals SET status = ? WHERE message_id = ?", params };
    assert(params_of(s) =~= seq![ParamView::Text(status_label_text(status)), ParamView::Text(decimal(message_id as nat))]);
    s
}

/// The statement that lists every user with an individual channel.
pub fn all_user_channels_statement() -> (s: Statement)
    ensures
        s.sql@ == "SELECT discord_id, channel_id FROM users"@,
        params_of(s) == Seq::<ParamView>::empty(),
{
    statement("SELECT discord_id, channel_id FROM users")
}

/// A user and their channel, read from the two text columns; `None` unless
/// both are `u64`s.
pub fn user_channel_pair(discord_id: &str, channel_id: &str) -> (r: Option<(u64, u64)>)
    ensures
        r == (match (parsed_u64(discord_id@), parsed_u64(channel_id@)) {
            (Some(u), Some(c)) => Some((u, c)),
            _ => None::<(u64, u64)>,
        }),
{
    match (parse_u64(discord_id), parse_u64(channel_id)) {
        (Some(u), Some(c)) => Some((u, c)),
        _ => None,
    }
}

} // verus!
