use vstd::prelude::*;
use crate::bot::utils::text::{decimal, signed_decimal, push_decimal, push_signed};
use crate::bot::utils::{remaining_amount, remaining_text};
use crate::db::queries::user::{decimal_is_digits, is_digit, parsed_u64, stored_channel_reads_back};
use crate::db::models::goal::{Goal, amounts_as_i32, goals_of_user, sum_i32, sums_fit_i32, weekly_total};

verus! {

/// Days left before the deadline when the weekend reminder goes out.
pub const REMINDER_DAYS_LEFT: i32 = 3;

/// The jobs the bot runs on a schedule.
#[derive(Clone, Copy, Debug, PartialEq, Eq)]
pub enum Job {
    /// Reminds every user of what is left of the weekly goal.
    Reminder,
    /// Posts the weekly leaderboard.
    Leaderboard,
}

/// The cron schedule of a job (seconds first), in São Paulo time.
pub open spec fn schedule_text(job: Job) -> Seq<char> {
    match job {
        Job::Reminder => "0 0 18 * * Sun,Sat"@,
        Job::Leaderboard => "0 47 19 * * Mon"@,
    }
}

/// The cron schedule of a job: reminders on Saturdays and Sundays at 18:00,
/// the leaderboard on Mondays at 19:47.
pub fn job_schedule(job: Job) -> (s: &'static str)
    ensures
        s@ == schedule_text(job),
{
    match job {
        Job::Reminder => "0 0 18 * * Sun,Sat",
        Job::Leaderboard => "0 47 19 * * Mon",
    }
}

/// The reminder sent to `user_id` with `days` left, after `total` delivered against the goal `current_meta`.
pub open spec fn reminder_content(user_id: u64, total: i64, current_meta: i64, days: i32) -> Seq<char> {
    "<@"@
        + decimal(user_id as nat)
        + "> Você foi **AVISADO**. Faltam **"@
        + signed_decimal(days as int)
        + " dias** para o fim do prazo de entrega e falta `"@
        + remaining_text(total, current_meta)
        + "` a ser entregue."@
}

/// The reminder sent to `user_id` with `days` left, after `total` delivered against the goal `current_meta`.
pub fn reminder_text(user_id: u64, total: i64, current_meta: i64, days: i32) -> (s: String)
    ensures
        s@ == reminder_content(user_id, total, current_meta, days),
        opens_with_mention_of(s@, user_id),
{
    proof {
        reminder_mentions_the_user(user_id, total, current_meta, days);
    }
    let mut s = String::new();
    s.append("<@");
    push_decimal(&mut s, user_id);
    s.append("> Você foi **AVISADO**. Faltam **");
    push_signed(&mut s, days as i64);
    s.append(" dias** para o fim do prazo de entrega e falta `");
    let remaining1 = remaining_amount(total, current_meta);
    s.append(remaining1.as_str());
    s.append("` a ser entregue.");
    s
}

/// The weekend reminder of `user_id`: the user's goals among the approved
/// goals of the week, added as the bot counts weekly totals, against the goal
/// `current_meta`. `None` exactly where that total overflows.
pub fn reminder_message(user_id: u64, week_goals: &Vec<Goal>, current_meta: i64) -> (r: Option<String>)
    ensures
        r is Some <==> sums_fit_i32(amounts_as_i32(goals_of_user(week_goals@, user_id as i64))),
        r matches Some(s) ==> s@ == reminder_content(
            user_id,
            sum_i32(amounts_as_i32(goals_of_user(week_goals@, user_id as i64))) as i64,
            current_meta,
            REMINDER_DAYS_LEFT,
        ),
{
    match weekly_total(week_goals, user_id as i64) {
        Some(total) => Some(reminder_text(user_id, total as i64, current_meta, REMINDER_DAYS_LEFT)),
        None => None,
    }
}

/// Where a round of weekend reminders stands.
pub enum ReminderState {
    Start,
    LoadingUsers,
    LoadingMeta { users: Vec<(u64, u64)> },
    /// The approved goals of the week were asked for, for the user at `at`.
    LoadingWeek { users: Vec<(u64, u64)>, at: usize, current_meta: i64 },
    Sending { users: Vec<(u64, u64)>, at: usize, current_meta: i64 },
    Pausing { users: Vec<(u64, u64)>, at: usize, current_meta: i64 },
    Done,
}

/// What came back from the last thing done; `None` where a read failed.
pub enum ReminderEvent {
    Begin,
    /// Every user with an individual channel, as (user, channel).
    Users(Option<Vec<(u64, u64)>>),
    CurrentMeta(Option<i64>),
    /// The goals approved this week.
    Week(Option<Vec<Goal>>),
    /// The reminder was sent, or sending failed (which is only logged).
    Sent,
    /// The pause between two reminders is over.
    Paused,
}

/// What to do next in a round of reminders.
pub enum ReminderAction {
    LoadUsers,
    LoadCurrentMeta,
    LoadWeek,
    Send { channel: u64, content: String },
    /// Wait a second before the next user.
    Pause,
    /// A weekly total overflows 32 bits: the round fails there.
    Overflowed,
    Stop,
}

/// The step from `state` on `event`: the users (none: nothing to do), the
/// current goal, then for each user in turn the week's approved goals, the
/// reminder to their channel and a pause; the first failed read ends the
/// round.
pub open spec fn reminder_step_is(state: ReminderState, event: ReminderEvent, next: ReminderState, action: ReminderAction) -> bool {
    match (state, event) {
        (ReminderState::Start, ReminderEvent::Begin) => next is LoadingUsers && action is LoadUsers,
        (ReminderState::LoadingUsers, ReminderEvent::Users(Some(users))) => if users@.len() == 0 {
            next is Done && action is Stop
        } else {
            next matches ReminderState::LoadingMeta { users: u } && u@ == users@ && action is LoadCurrentMeta
        },
        (ReminderState::LoadingMeta { users }, ReminderEvent::CurrentMeta(Some(m))) => if users@.len() == 0 {
            next is Done && action is Stop
        } else {
            next matches ReminderState::LoadingWeek { users: u, at, current_meta } && u@ == users@ && at == 0
                && current_meta == m && action is LoadWeek
        },
        (ReminderState::LoadingWeek { users, at, current_meta }, ReminderEvent::Week(Some(week))) => if at < users@.len() {
            let user = users@[at as int].0;
            let mine = amounts_as_i32(goals_of_user(week@, user as i64));
            if sums_fit_i32(mine) {
                &&& next matches ReminderState::Sending { users: u, at: a, current_meta: m } && u@ == users@ && a == at
                    && m == current_meta
                &&& action matches ReminderAction::Send { channel, content } && channel == users@[at as int].1
                    && content@ == reminder_content(user, sum_i32(mine) as i64, current_meta, REMINDER_DAYS_LEFT)
            } else {
                next is Done && action is Overflowed
            }
        } else {
            next is Done && action is Stop
        },
        (ReminderState::Sending { users, at, current_meta }, ReminderEvent::Sent) => next matches ReminderState::Pausing {
            users: u,
            at: a,
            current_meta: m,
        } && u@ == users@ && a == at && m == current_meta && action is Pause,
        (ReminderState::Pausing { users, at, current_meta }, ReminderEvent::Paused) => if at + 1 < users@.len() {
            next matches ReminderState::LoadingWeek { users: u, at: a, current_meta: m } && u@ == users@ && a == at + 1
                && m == current_meta && action is LoadWeek
        } else {
            next is Done && action is Stop
        },
        _ => next is Done && action is Stop,
    }
}

/// The next step of a round of reminders.
pub fn reminder_step(state: ReminderState, event: ReminderEvent) -> (r: (ReminderState, ReminderAction))
    ensures
        reminder_step_is(state, event, r.0, r.1),
{
    match (state, event) {
        (ReminderState::Start, ReminderEvent::Begin) => (ReminderState::LoadingUsers, ReminderAction::LoadUsers),
        (ReminderState::LoadingUsers, ReminderEvent::Users(Some(users))) => if users.len() == 0 {
            (ReminderState::Done, ReminderAction::Stop)
        } else {
            (ReminderState::LoadingMeta { users }, ReminderAction::LoadCurrentMeta)
        },
        (ReminderState::LoadingMeta { users }, ReminderEvent::CurrentMeta(Some(m))) => if users.len() == 0 {
            (ReminderState::Done, ReminderAction::Stop)
        } else {
            (ReminderState::LoadingWeek { users, at: 0, current_meta: m }, ReminderAction::LoadWeek)
        },
        (ReminderState::LoadingWeek { users, at, current_meta }, ReminderEvent::Week(Some(week))) => if at < users.len() {
            let (user, channel) = users[at];
            match reminder_message(user, &week, current_meta) {
                Some(content) => (
                    ReminderState::Sending { users, at, current_meta },
                    ReminderAction::Send { channel, content },
                ),
                None => (ReminderState::Done, ReminderAction::Overflowed),
            }
        } else {
            (ReminderState::Done, ReminderAction::Stop)
        },
        (ReminderState::Sending { users, at, current_meta }, ReminderEvent::Sent) => (
            ReminderState::Pausing { users, at, current_meta },
            ReminderAction::Pause,
        ),
        (ReminderState::Pausing { users, at, current_meta }, ReminderEvent::Paused) => if at < users.len() && at + 1
            < users.len() {
            (ReminderState::LoadingWeek { users, at: at + 1, current_meta }, ReminderAction::LoadWeek)
        } else {
            (ReminderState::Done, ReminderAction::Stop)
        },
        _ => (ReminderState::Done, ReminderAction::Stop),
    }
}

/// A round of reminders ends at the first read that fails: no reminder is
/// sent after the users, the current goal or the week's goals could not be
/// read.
pub proof fn round_ends_on_failed_read(state: ReminderState, event: ReminderEvent, next: ReminderState, action: ReminderAction)
    requires
        reminder_step_is(state, event, next, action),
        event matches ReminderEvent::Users(None) || event matches ReminderEvent::CurrentMeta(None)
            || event matches ReminderEvent::Week(None),
    ensures
        next is Done,
        action is Stop,
{
}

/// `s` opens with a mention of `user`: `<@`, then decimal digits up to the
/// first `>`, which read back as the user's full id.
pub open spec fn opens_with_mention_of(s: Seq<char>, user: u64) -> bool {
    &&& s.len() >= 2 && s[0] == '<' && s[1] == '@'
    &&& exists|n: int|
        2 < n < s.len() && #[trigger] s[n] == '>' && (forall|i: int| 2 <= i < n ==> #[trigger] is_digit(s[i]))
            && parsed_u64(s.subrange(2, n)) == Some(user)
}

/// A reminder pings the very user it is for: its mention reads back as the
/// user's whole 64-bit id.
pub proof fn reminder_mentions_the_user(user_id: u64, total: i64, current_meta: i64, days: i32)
    ensures
        opens_with_mention_of(reminder_content(user_id, total, current_meta, days), user_id),
{
    reveal_strlit("<@");
    reveal_strlit("> Você foi **AVISADO**. Faltam **");
    let s = reminder_content(user_id, total, current_meta, days);
    let d = decimal(user_id as nat);
    decimal_is_digits(user_id as nat);
    stored_channel_reads_back(user_id);
    let n: int = 2 + d.len() as int;
    assert(s.subrange(2, n) =~= d);
    assert(s[n] == '>');
    assert(forall|i: int| 2 <= i < n ==> s[i] == d[i - 2]);
    assert(forall|i: int| 2 <= i < n ==> #[trigger] is_digit(s[i])) by {
        assert forall|i: int| 2 <= i < n implies #[trigger] is_digit(s[i]) by {
            assert(s[i] == d[i - 2]);
            assert(is_digit(d[i - 2]));
        }
    }
}

} // verus!
