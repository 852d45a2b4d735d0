use vstd::prelude::*;
use crate::bot::models::command::{CommandSpec, command, command_is};
use crate::bot::models::embed::{Colour, EmbedSpec, footer_of, title_of};
use crate::bot::utils::text::{signed_decimal, push_signed};
use crate::bot::utils::{amount_text, format_amount};
use crate::db::models::goal::{Goal, amounts_as_i32, goals_of_user, sum_i32, sums_fit_i32, weekly_total};

verus! {

/// What `register` gives: the command's name, description, options and
/// whether it is for administrators only.
pub open spec fn registration(c: CommandSpec) -> bool {
    &&& command_is(c, "info"@, "Ver informações sobre a sua meta semanal"@, 0, false)
}

/// The `/info` command, without options.
pub fn register() -> (c: CommandSpec)
    ensures
        registration(c),
{
    let c = command("info", "Ver informações sobre a sua meta semanal", false);
    c
}

/// The weekly summary of a user: the goal, what they delivered, and the deadline.
pub open spec fn info_description_text(current_meta: i64, total: i32, deadline: i64) -> Seq<char> {
    "💰 **Meta Atual:** `"@
        + amount_text((current_meta as u64) as nat)
        + "`\n\n📈 **Total Entregue:** `"@
        + amount_text((total as u64) as nat)
        + "`\n\n📅 **Data de entrega:** <t:"@
        + signed_decimal(deadline as int)
        + ":R>"@
}

/// The weekly summary of a user: the goal, what they delivered, and the deadline.
pub fn info_description(current_meta: i64, total: i32, deadline: i64) -> (s: String)
    ensures
        s@ == info_description_text(current_meta, total, deadline),
{
    let mut s = String::new();
    s.append("💰 **Meta Atual:** `");
    let amount1 = format_amount(current_meta as u64);
    s.append(amount1.as_str());
    s.append("`\n\n📈 **Total Entregue:** `");
    let amount2 = format_amount(total as u64);
    s.append(amount2.as_str());
    s.append("`\n\n📅 **Data de entrega:** <t:");
    push_signed(&mut s, deadline as i64);
    s.append(":R>");
    s
}

/// The private answer of `/info`.
pub fn info_embed(current_meta: i64, total: i32, deadline: i64) -> (e: EmbedSpec)
    ensures
        e.description@ == info_description_text(current_meta, total, deadline),
        title_of(e) == Some("📊 Informações da Meta Semanal"@),
        footer_of(e) == Some("Meta Semanal"@),
        e.colour == Colour::Rgb(144, 238, 144),
        e.timestamp == true,
{
    let title = "📊 Informações da Meta Semanal".to_owned();
    let footer = "Meta Semanal".to_owned();
    let description = info_description(current_meta, total, deadline);
    EmbedSpec {
        title: Some(title),
        description,
        footer: Some(footer),
        colour: Colour::Rgb(144, 238, 144),
        timestamp: true,
    }
}

/// Where the handling of `/info` stands.
#[derive(Clone, Copy, Debug, PartialEq, Eq)]
pub enum InfoState {
    Start,
    LoadingMeta,
    LoadingWeek { current_meta: i64 },
    LoadingDeadline { current_meta: i64, total: i32 },
    Replying,
    Done,
}

/// What came back from the last thing done; `None` where it failed.
pub enum InfoEvent {
    Begin,
    CurrentMeta(Option<i64>),
    /// The goals approved this week.
    Week(Option<Vec<Goal>>),
    /// The next Monday at 18:00 (São Paulo time), as Unix seconds.
    Deadline(Option<i64>),
    Replied,
}

/// What to do next for `/info`.
#[derive(Clone, Copy, Debug, PartialEq, Eq)]
pub enum InfoAction {
    LoadCurrentMeta,
    LoadWeek,
    /// The caller's weekly total overflows 32 bits: the handler fails there.
    Overflowed,
    /// Find the next Monday at 18:00.
    LoadDeadline,
    /// The next Monday could not be found: the handler fails there.
    DeadlineUnavailable,
    /// Answer with `info_embed(current_meta, total, deadline)`.
    Reply { current_meta: i64, total: i32, deadline: i64 },
    Stop,
}

/// The step from `state` on `event` for a call by `user`: the current goal,
/// the week's approved goals (of which the caller's are added up in 32-bit
/// arithmetic), the deadline, and the answer; a failed read stops.
pub open spec fn info_step_is(user: i64, state: InfoState, event: InfoEvent, next: InfoState, action: InfoAction) -> bool {
    match (state, event) {
        (InfoState::Start, InfoEvent::Begin) => next == InfoState::LoadingMeta && action == InfoAction::LoadCurrentMeta,
        (InfoState::LoadingMeta, InfoEvent::CurrentMeta(Some(m))) => next == (InfoState::LoadingWeek { current_meta: m })
            && action == InfoAction::LoadWeek,
        (InfoState::LoadingWeek { current_meta }, InfoEvent::Week(Some(week))) => {
            let mine = amounts_as_i32(goals_of_user(week@, user));
            if sums_fit_i32(mine) {
                next == (InfoState::LoadingDeadline { current_meta, total: sum_i32(mine) as i32 }) && action
                    == InfoAction::LoadDeadline
            } else {
                next == InfoState::Done && action == InfoAction::Overflowed
            }
        },
        (InfoState::LoadingDeadline { current_meta, total }, InfoEvent::Deadline(Some(d))) => next == InfoState::Replying
            && action == (InfoAction::Reply { current_meta, total, deadline: d }),
        (InfoState::LoadingDeadline { .. }, InfoEvent::Deadline(None)) => next == InfoState::Done && action
            == InfoAction::DeadlineUnavailable,
        _ => next == InfoState::Done && action == InfoAction::Stop,
    }
}

/// The next step of `/info`.
pub fn info_step(user: i64, state: InfoState, event: InfoEvent) -> (r: (InfoState, InfoAction))
    ensures
        info_step_is(user, state, event, r.0, r.1),
{
    match (state, event) {
        (InfoState::Start, InfoEvent::Begin) => (InfoState::LoadingMeta, InfoAction::LoadCurrentMeta),
        (InfoState::LoadingMeta, InfoEvent::CurrentMeta(Some(m))) => (
            InfoState::LoadingWeek { current_meta: m },
            InfoAction::LoadWeek,
        ),
        (InfoState::LoadingWeek { current_meta }, InfoEvent::Week(Some(week))) => match weekly_total(&week, user) {
            Some(total) => (InfoState::LoadingDeadline { current_meta, total }, InfoAction::LoadDeadline),
            None => (InfoState::Done, InfoAction::Overflowed),
        },
        (InfoState::LoadingDeadline { current_meta, total }, InfoEvent::Deadline(deadline)) => match deadline {
            Some(d) => (InfoState::Replying, InfoAction::Reply { current_meta, total, deadline: d }),
            None => (InfoState::Done, InfoAction::DeadlineUnavailable),
        },
        _ => (InfoState::Done, InfoAction::Stop),
    }
}

} // verus!
