use vstd::prelude::*;
use crate::db::models::channels::ChannelIds;
use crate::db::models::goal::{Goal, amounts_as_i32, goals_of_user, sum_i32, sums_fit_i32, weekly_total};
use crate::bot::models::embed::{Colour, EmbedSpec, footer_of, title_of};
use crate::bot::utils::text::{decimal, signed_decimal, push_decimal, push_signed};
use crate::bot::utils::{amount_text, format_amount};
use crate::bot::utils::{remaining_amount, remaining_text};

verus! {

/// The verdict of a moderator on a goal delivery.
#[derive(Clone, Copy, Debug, PartialEq, Eq)]
pub enum Verdict {
    Approved,
    Rejected,
}

/// The status stored for a goal after judgement.
pub open spec fn status_label_text(status: Verdict) -> Seq<char> {
    match status {
        Verdict::Approved => "Approved"@,
        Verdict::Rejected => "Rejected"@,
    }
}

/// The status stored for a goal after judgement.
pub fn status_label(status: Verdict) -> (s: &'static str)
    ensures
        s@ == status_label_text(status),
{
    match status {
        Verdict::Approved => "Approved",
        Verdict::Rejected => "Rejected",
    }
}

/// The description of the moderator's private confirmation.
pub open spec fn verdict_reply_text(status: Verdict) -> Seq<char> {
    match status {
        Verdict::Approved => "✅ **Meta Aprovada com Sucesso!**"@,
        Verdict::Rejected => "❌ **Meta Rejeitada com Sucesso!**"@,
    }
}

/// The moderator's private confirmation.
pub fn verdict_reply_embed(status: Verdict) -> (e: EmbedSpec)
    ensures
        e.description@ == verdict_reply_text(status),
        title_of(e) == None::<Seq<char>>,
        footer_of(e) == None::<Seq<char>>,
        e.colour == Colour::LightGrey,
        !e.timestamp,
{
    let description = match status {
        Verdict::Approved => "✅ **Meta Aprovada com Sucesso!**".to_owned(),
        Verdict::Rejected => "❌ **Meta Rejeitada com Sucesso!**".to_owned(),
    };
    EmbedSpec { title: None, description, footer: None, colour: Colour::LightGrey, timestamp: false }
}

/// The title of the message to the user whose goal was judged.
pub open spec fn user_title_text(status: Verdict) -> Seq<char> {
    match status {
        Verdict::Approved => "Meta Aprovada"@,
        Verdict::Rejected => "Meta Reprovada"@,
    }
}

/// The message to a user whose goal was approved: the amount, the moderator, and what is left of the weekly goal.
pub open spec fn approved_user_description_text(amount: i64, moderator: u64, total: i32, current_meta: i64) -> Seq<char> {
    "A sua meta foi aprovada com sucesso!\n━━━━━━━━━━━━━━━━━━━━━━━━\n💰 **Valor Aprovado:** `"@
        + amount_text((amount as u64) as nat)
        + "`\n✅ **Status:** `Aprovada`\n🛡️ **Aprovado por:** <@"@
        + decimal(moderator as nat)
        + ">\n📊 **Valor Restante:** `"@
        + remaining_text(total as i64, current_meta)
        + "`\n━━━━━━━━━━━━━━━━━━━━━━━━"@
}

/// The message to a user whose goal was approved: the amount, the moderator, and what is left of the weekly goal.
pub fn approved_user_description(amount: i64, moderator: u64, total: i32, current_meta: i64) -> (s: String)
    ensures
        s@ == approved_user_description_text(amount, moderator, total, current_meta),
{
    let mut s = String::new();
    s.append("A sua meta foi aprovada com sucesso!\n━━━━━━━━━━━━━━━━━━━━━━━━\n💰 **Valor Aprovado:** `");
    let amount1 = format_amount(amount as u64);
    s.append(amount1.as_str());
    s.append("`\n✅ **Status:** `Aprovada`\n🛡️ **Aprovado por:** <@");
    push_decimal(&mut s, moderator);
    s.append(">\n📊 **Valor Restante:** `");
    let remaining2 = remaining_amount(total as i64, current_meta);
    s.append(remaining2.as_str());
    s.append("`\n━━━━━━━━━━━━━━━━━━━━━━━━");
    s
}

/// The message to a user whose goal was rejected.
pub open spec fn rejected_user_description_text(amount: i64, moderator: u64, total: i32, current_meta: i64) -> Seq<char> {
    "A sua meta foi reprovada com sucesso!\n━━━━━━━━━━━━━━━━━━━━━━━━\n💰 **Valor Reprovado:** `"@
        + amount_text((amount as u64) as nat)
        + "`\n❌ **Status:** `Reprovada`\n🛡️ **Reprovado por:** <@"@
        + decimal(moderator as nat)
        + ">\n📊 **Valor Restante:** `"@
        + remaining_text(total as i64, current_meta)
        + "`\n━━━━━━━━━━━━━━━━━━━━━━━━"@
}

/// The message to a user whose goal was rejected.
pub fn rejected_user_description(amount: i64, moderator: u64, total: i32, current_meta: i64) -> (s: String)
    ensures
        s@ == rejected_user_description_text(amount, moderator, total, current_meta),
{
    let mut s = String::new();
    s.append("A sua meta foi reprovada com sucesso!\n━━━━━━━━━━━━━━━━━━━━━━━━\n💰 **Valor Reprovado:** `");
    let amount1 = format_amount(amount as u64);
    s.append(amount1.as_str());
    s.append("`\n❌ **Status:** `Reprovada`\n🛡️ **Reprovado por:** <@");
    push_decimal(&mut s, moderator);
    s.append(">\n📊 **Valor Restante:** `");
    let remaining2 = remaining_amount(total as i64, current_meta);
    s.append(remaining2.as_str());
    s.append("`\n━━━━━━━━━━━━━━━━━━━━━━━━");
    s
}

/// The description of the message to the user whose goal was judged.
pub open spec fn user_description_text(status: Verdict, amount: i64, moderator: u64, total: i32, current_meta: i64) -> Seq<char> {
    match status {
        Verdict::Approved => approved_user_description_text(amount, moderator, total, current_meta),
        Verdict::Rejected => rejected_user_description_text(amount, moderator, total, current_meta),
    }
}

/// The message to the user whose goal `amount` was judged by `moderator`,
/// with `total` approved this week against the goal `current_meta`.
pub fn verdict_user_embed(status: Verdict, amount: i64, moderator: u64, total: i32, current_meta: i64) -> (e: EmbedSpec)
    ensures
        title_of(e) == Some(user_title_text(status)),
        e.description@ == user_description_text(status, amount, moderator, total, current_meta),
        footer_of(e) == None::<Seq<char>>,
        e.colour == Colour::LightGrey,
        e.timestamp,
{
    let (title, description) = match status {
        Verdict::Approved => (
            "Meta Aprovada".to_owned(),
            approved_user_description(amount, moderator, total, current_meta),
        ),
        Verdict::Rejected => (
            "Meta Reprovada".to_owned(),
            rejected_user_description(amount, moderator, total, current_meta),
        ),
    };
    EmbedSpec { title: Some(title), description, footer: None, colour: Colour::LightGrey, timestamp: true }
}

/// The log entry of an approved goal.
pub open spec fn approved_log_text(author: i64, amount: i64, moderator: u64) -> Seq<char> {
    "🎯 **Meta Entregue com Sucesso!**\n━━━━━━━━━━━━━━━━━━━━━━━━\n👤 **Entregue por:** <@"@
        + signed_decimal(author as int)
        + ">\n💰 **Valor Entregue:** `"@
        + amount_text((amount as u64) as nat)
        + "`\n✅ **Status:** `Aprovada`\n🛡️ **Aprovado por:** <@"@
        + decimal(moderator as nat)
        + ">\n━━━━━━━━━━━━━━━━━━━━━━━━"@
}

/// The log entry of an approved goal.
pub fn approved_log(author: i64, amount: i64, moderator: u64) -> (s: String)
    ensures
        s@ == approved_log_text(author, amount, moderator),
{
    let mut s = String::new();
    s.append("🎯 **Meta Entregue com Sucesso!**\n━━━━━━━━━━━━━━━━━━━━━━━━\n👤 **Entregue por:** <@");
    push_signed(&mut s, author as i64);
    s.append(">\n💰 **Valor Entregue:** `");
    let amount1 = format_amount(amount as u64);
    s.append(amount1.as_str());
    s.append("`\n✅ **Status:** `Aprovada`\n🛡️ **Aprovado por:** <@");
    push_decimal(&mut s, moderator);
    s.append(">\n━━━━━━━━━━━━━━━━━━━━━━━━");
    s
}

/// The log entry of a rejected goal.
pub open spec fn rejected_log_text(author: i64, amount: i64, moderator: u64) -> Seq<char> {
    "❌ **Meta Reprovada**\n━━━━━━━━━━━━━━━━━━━━━━━━\n👤 **Entregue por:** <@"@
        + signed_decimal(author as int)
        + ">\n💰 **Valor da Meta:** `"@
        + amount_text((amount as u64) as nat)
        + "`\n❌ **Status:** `Reprovada`\n🛡️ **Reprovado por:** <@"@
        + decimal(moderator as nat)
        + ">\n━━━━━━━━━━━━━━━━━━━━━━━━"@
}

/// The log entry of a rejected goal.
pub fn rejected_log(author: i64, amount: i64, moderator: u64) -> (s: String)
    ensures
        s@ == rejected_log_text(author, amount, moderator),
{
    let mut s = String::new();
    s.append("❌ **Meta Reprovada**\n━━━━━━━━━━━━━━━━━━━━━━━━\n👤 **Entregue por:** <@");
    push_signed(&mut s, author as i64);
    s.append(">\n💰 **Valor da Meta:** `");
    let amount1 = format_amount(amount as u64);
    s.append(amount1.as_str());
    s.append("`\n❌ **Status:** `Reprovada`\n🛡️ **Reprovado por:** <@");
    push_decimal(&mut s, moderator);
    s.append(">\n━━━━━━━━━━━━━━━━━━━━━━━━");
    s
}

/// The log entry of a judged goal.
pub open spec fn verdict_log_text(status: Verdict, author: i64, amount: i64, moderator: u64) -> Seq<char> {
    match status {
        Verdict::Approved => approved_log_text(author, amount, moderator),
        Verdict::Rejected => rejected_log_text(author, amount, moderator),
    }
}

/// The log entry of the goal `amount` of `author`, judged by `moderator`.
pub fn verdict_log(status: Verdict, author: i64, amount: i64, moderator: u64) -> (s: String)
    ensures
        s@ == verdict_log_text(status, author, amount, moderator),
{
    match status {
        Verdict::Approved => approved_log(author, amount, moderator),
        Verdict::Rejected => rejected_log(author, amount, moderator),
    }
}

/// The goal being judged: the log channel, its author and its amount.
#[derive(Clone, Copy, Debug, PartialEq, Eq)]
pub struct Judged {
    pub logs: u64,
    pub author: i64,
    pub amount: i64,
}

/// Where the handling of an approve or refuse button stands.
#[derive(Clone, Copy, Debug, PartialEq, Eq)]
pub enum VerdictState {
    Start,
    LoadingChannels,
    LoadingGoal { logs: u64 },
    UpdatingStatus(Judged),
    Replying(Judged),
    LoadingUserChannel(Judged),
    LoadingMeta { judged: Judged, channel: u64 },
    LoadingWeek { judged: Judged, channel: u64, current_meta: i64 },
    Notifying(Judged),
    Logging,
    Done,
}

/// What came back from the last thing done; `None` where a read failed or
/// found nothing.
pub enum VerdictEvent {
    Begin,
    Channels(Option<ChannelIds>),
    /// The goal judged under the pressed message.
    Goal(Option<Goal>),
    /// The new status was written, or writing it failed (which is only
    /// logged).
    StatusUpdated,
    /// The moderator was answered (whatever came of it).
    Replied,
    /// The individual channel of the goal's author.
    UserChannel(Option<u64>),
    CurrentMeta(Option<i64>),
    /// The goals approved this week.
    Week(Option<Vec<Goal>>),
    /// Whether the author was told.
    UserNotified(bool),
    Logged,
}

/// What to do next with a pressed approve or refuse button.
pub enum VerdictAction {
    LoadChannels,
    LoadGoal,
    /// Store the verdict as the goal's status.
    UpdateStatus,
    /// Answer the moderator with `verdict_reply_embed`.
    Reply,
    LoadUserChannel { user: u64 },
    LoadCurrentMeta,
    LoadWeek,
    /// Send `verdict_user_embed` (with this amount, weekly total and goal)
    /// to the author's channel.
    NotifyUser { channel: u64, amount: i64, total: i32, current_meta: i64 },
    /// Post `verdict_log` of this goal in the log channel, then stop.
    Log { channel: u64, author: i64, amount: i64 },
    /// The author's weekly total overflows 32 bits: the handler fails there.
    Overflowed,
    Stop,
}

/// The step from `state` on `event`: channels, the goal, its new status,
/// the moderator's answer, then the author's channel, the current goal and
/// the week's approved goals, the message to the author, and the log entry;
/// any failed read stops the handling (a failed status update does not).
pub open spec fn verdict_step_is(state: VerdictState, event: VerdictEvent, next: VerdictState, action: VerdictAction) -> bool {
    match (state, event) {
        (VerdictState::Start, VerdictEvent::Begin) => next == VerdictState::LoadingChannels && action is LoadChannels,
        (VerdictState::LoadingChannels, VerdictEvent::Channels(Some(ids))) => next == (VerdictState::LoadingGoal {
            logs: ids.logs_channel_id,
        }) && action is LoadGoal,
        (VerdictState::LoadingGoal { logs }, VerdictEvent::Goal(Some(g))) => next == VerdictState::UpdatingStatus(
            Judged { logs, author: g.user_id, amount: g.amount },
        ) && action is UpdateStatus,
        (VerdictState::UpdatingStatus(j), VerdictEvent::StatusUpdated) => next == VerdictState::Replying(j) && action is Reply,
        (VerdictState::Replying(j), VerdictEvent::Replied) => next == VerdictState::LoadingUserChannel(j) && action
            == (VerdictAction::LoadUserChannel { user: j.author as u64 }),
        (VerdictState::LoadingUserChannel(j), VerdictEvent::UserChannel(Some(c))) => next == (VerdictState::LoadingMeta {
            judged: j,
            channel: c,
        }) && action is LoadCurrentMeta,
        (VerdictState::LoadingMeta { judged, channel }, VerdictEvent::CurrentMeta(Some(m))) => next
            == (VerdictState::LoadingWeek { judged, channel, current_meta: m }) && action is LoadWeek,
        (VerdictState::LoadingWeek { judged, channel, current_meta }, VerdictEvent::Week(Some(week))) => {
            let mine = amounts_as_i32(goals_of_user(week@, judged.author));
            if sums_fit_i32(mine) {
                next == VerdictState::Notifying(judged) && action == (VerdictAction::NotifyUser {
                    channel,
                    amount: judged.amount,
                    total: sum_i32(mine) as i32,
                    current_meta,
                })
            } else {
                next == VerdictState::Done && action is Overflowed
            }
        },
        (VerdictState::Notifying(j), VerdictEvent::UserNotified(true)) => next == VerdictState::Logging && action
            == (VerdictAction::Log { channel: j.logs, author: j.author, amount: j.amount }),
        _ => next == VerdictState::Done && action is Stop,
    }
}

/// The next step of the handling of an approve or refuse button.
pub fn verdict_step(state: VerdictState, event: VerdictEvent) -> (r: (VerdictState, VerdictAction))
    ensures
        verdict_step_is(state, event, r.0, r.1),
{
    match (state, event) {
        (VerdictState::Start, VerdictEvent::Begin) => (VerdictState::LoadingChannels, VerdictAction::LoadChannels),
        (VerdictState::LoadingChannels, VerdictEvent::Channels(Some(ids))) => (
            VerdictState::LoadingGoal { logs: ids.logs_channel_id },
            VerdictAction::LoadGoal,
        ),
        (VerdictState::LoadingGoal { logs }, VerdictEvent::Goal(Some(g))) => (
            VerdictState::UpdatingStatus(Judged { logs, author: g.user_id, amount: g.amount }),
            VerdictAction::UpdateStatus,
        ),
        (VerdictState::UpdatingStatus(j), VerdictEvent::StatusUpdated) => (VerdictState::Replying(j), VerdictAction::Reply),
        (VerdictState::Replying(j), VerdictEvent::Replied) => (
            VerdictState::LoadingUserChannel(j),
            VerdictAction::LoadUserChannel { user: j.author as u64 },
        ),
        (VerdictState::LoadingUserChannel(j), VerdictEvent::UserChannel(Some(c))) => (
            VerdictState::LoadingMeta { judged: j, channel: c },
            VerdictAction::LoadCurrentMeta,
        ),
        (VerdictState::LoadingMeta { judged, channel }, VerdictEvent::CurrentMeta(Some(m))) => (
            VerdictState::LoadingWeek { judged, channel, current_meta: m },
            VerdictAction::LoadWeek,
        ),
        (VerdictState::LoadingWeek { judged, channel, current_meta }, VerdictEvent::Week(Some(week))) => match weekly_total(
            &week,
            judged.author,
        ) {
            Some(total) => (
                VerdictState::Notifying(judged),
                VerdictAction::NotifyUser { channel, amount: judged.amount, total, current_meta },
            ),
            None => (VerdictState::Done, VerdictAction::Overflowed),
        },
        (VerdictState::Notifying(j), VerdictEvent::UserNotified(true)) => (
            VerdictState::Logging,
            VerdictAction::Log { channel: j.logs, author: j.author, amount: j.amount },
        ),
        _ => (VerdictState::Done, VerdictAction::Stop),
    }
}

/// Once the moderator is answered, the channel looked up is that of the
/// goal's author: the user id asked for is the author's own, for every id.
pub proof fn author_channel_is_looked_up(j: Judged, next: VerdictState, action: VerdictAction)
    requires
        verdict_step_is(VerdictState::Replying(j), VerdictEvent::Replied, next, action),
    ensures
        next == VerdictState::LoadingUserChannel(j),
        action matches VerdictAction::LoadUserChannel { user } && user as i64 == j.author,
{
    let a = j.author;
    assert(((a as u64) as i64) == a) by (bit_vector);
}

/// Everything done after the goal is read concerns that goal: the goal read
/// under the pressed message is the one judged, the author is told in the
/// channel that was found for them, of that goal's amount, and the log entry
/// names that goal's author and amount in the configured log channel.
pub proof fn verdict_concerns_the_judged_goal(state: VerdictState, event: VerdictEvent, next: VerdictState, action: VerdictAction)
    requires
        verdict_step_is(state, event, next, action),
    ensures
        match (state, event) {
            (VerdictState::LoadingGoal { logs }, VerdictEvent::Goal(Some(g))) => next == VerdictState::UpdatingStatus(
                Judged { logs, author: g.user_id, amount: g.amount },
            ),
            _ => true,
        },
        action matches VerdictAction::NotifyUser { channel, amount, .. } ==> state matches VerdictState::LoadingWeek {
            judged,
            channel: c,
            ..
        } && c == channel && judged.amount == amount,
        action matches VerdictAction::Log { channel, author, amount } ==> state matches VerdictState::Notifying(j)
            && j.logs == channel && j.author == author && j.amount == amount,
{
}

} // verus!
