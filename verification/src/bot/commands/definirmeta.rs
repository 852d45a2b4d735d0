use vstd::prelude::*;
use crate::bot::models::command::{CommandSpec, OptionKind, OptionValue, command, command_is, option, option_is};
use crate::bot::models::command::as_i64;
use crate::bot::models::embed::{Colour, EmbedSpec, footer_of, title_of};
use crate::bot::utils::text::{decimal, signed_decimal, push_decimal, push_signed};
use crate::bot::utils::{amount_text, format_amount};
use crate::db::models::channels::ChannelIds;

verus! {

/// What `register` gives: the command's name, description, options and
/// whether it is for administrators only.
pub open spec fn registration(c: CommandSpec) -> bool {
    &&& command_is(c, "definirmeta"@, "Defina a meta semanal de dinheiro sujo"@, 1, true)
    &&& option_is(c.options@[0], OptionKind::Integer, "quantidade"@, "A quantidade de dinheiro sujo (ex: 1000000)."@, true)
}

/// The `/definirmeta` command: the weekly goal, for administrators.
pub fn register() -> (c: CommandSpec)
    ensures
        registration(c),
{
    let mut c = command("definirmeta", "Defina a meta semanal de dinheiro sujo", true);
    c.options.push(option(OptionKind::Integer, "quantidade", "A quantidade de dinheiro sujo (ex: 1000000).", true));
    c
}

/// The amount of a `/definirmeta` call: its first option, when that is an
/// integer.
pub fn amount_option(options: &Vec<OptionValue>) -> (r: Option<i64>)
    ensures
        r == (if options@.len() == 0 {
            None::<i64>
        } else {
            match options@[0] {
                OptionValue::Integer(n) => Some(n),
                _ => None::<i64>,
            }
        }),
{
    if options.len() == 0 {
        None
    } else {
        as_i64(&options[0])
    }
}

/// A weekly goal is accepted unless it is negative.
pub fn goal_accepted(amount: i64) -> (r: bool)
    ensures
        r == (amount >= 0),
{
    amount >= 0
}

/// The private answer to a negative goal.
pub fn negative_goal_reply() -> (s: String)
    ensures
        s@ == "🚫 O valor da meta não pode ser negativo!"@,
{
    "🚫 O valor da meta não pode ser negativo!".to_owned()
}

/// The footer of the announcement of a new goal.
pub open spec fn announcement_footer_text(admin_name: Seq<char>) -> Seq<char> {
    "Meta definida por "@
        + admin_name
}

/// The footer of the announcement of a new goal.
pub fn announcement_footer(admin_name: &str) -> (s: String)
    ensures
        s@ == announcement_footer_text(admin_name@),
{
    let mut s = String::new();
    s.append("Meta definida por ");
    s.append(admin_name);
    s
}

/// The announcement of a new weekly goal `amount`, due at `deadline` (seconds since the Unix epoch, shown relative).
pub open spec fn announcement_description_text(amount: i64, deadline: i64) -> Seq<char> {
    "**💰 Valor da meta:** `"@
        + amount_text((amount as u64) as nat)
        + " sujo`\n**📅 Data Limite:** <t:"@
        + signed_decimal(deadline as int)
        + ":R>\n\nQuem será o destaque da semana? 👀"@
}

/// The announcement of a new weekly goal `amount`, due at `deadline` (seconds since the Unix epoch, shown relative).
pub fn announcement_description(amount: i64, deadline: i64) -> (s: String)
    ensures
        s@ == announcement_description_text(amount, deadline),
{
    let mut s = String::new();
    s.append("**💰 Valor da meta:** `");
    let amount1 = format_amount(amount as u64);
    s.append(amount1.as_str());
    s.append(" sujo`\n**📅 Data Limite:** <t:");
    push_signed(&mut s, deadline as i64);
    s.append(":R>\n\nQuem será o destaque da semana? 👀");
    s
}

/// The public announcement of a new weekly goal.
pub fn announcement_embed(amount: i64, admin_name: &str, deadline: i64) -> (e: EmbedSpec)
    ensures
        e.description@ == announcement_description_text(amount, deadline),
        title_of(e) == Some("📢 Nova Meta Semanal Ativada!"@),
        footer_of(e) == Some(announcement_footer_text(admin_name@)),
        e.colour == Colour::Rgb(241, 196, 15),
        e.timestamp == true,
{
    let title = "📢 Nova Meta Semanal Ativada!".to_owned();
    let footer = announcement_footer(admin_name);
    let description = announcement_description(amount, deadline);
    EmbedSpec {
        title: Some(title),
        description,
        footer: Some(footer),
        colour: Colour::Rgb(241, 196, 15),
        timestamp: true,
    }
}

/// The message that calls everyone to the announcement.
pub fn everyone_mention() -> (s: String)
    ensures
        s@ == "@everyone"@,
{
    "@everyone".to_owned()
}

/// The confirmation of a new weekly goal.
pub open spec fn updated_description_text(amount: i64) -> Seq<char> {
    "📌 **Meta semanal definida com sucesso!**\n\n💰 Valor definido: **$"@
        + amount_text((amount as u64) as nat)
        + "**\n🗓️ Vigência: *Esta semana*\n\nVamos com tudo! 🚀"@
}

/// The confirmation of a new weekly goal.
pub fn updated_description(amount: i64) -> (s: String)
    ensures
        s@ == updated_description_text(amount),
{
    let mut s = String::new();
    s.append("📌 **Meta semanal definida com sucesso!**\n\n💰 Valor definido: **$");
    let amount1 = format_amount(amount as u64);
    s.append(amount1.as_str());
    s.append("**\n🗓️ Vigência: *Esta semana*\n\nVamos com tudo! 🚀");
    s
}

/// The private confirmation of a new weekly goal.
pub fn updated_embed(amount: i64) -> (e: EmbedSpec)
    ensures
        e.description@ == updated_description_text(amount),
        title_of(e) == Some("✅ Meta Atualizada"@),
        footer_of(e) == None::<Seq<char>>,
        e.colour == Colour::Rgb(46, 204, 113),
        e.timestamp == true,
{
    let title = "✅ Meta Atualizada".to_owned();
    let description = updated_description(amount);
    EmbedSpec {
        title: Some(title),
        description,
        footer: None,
        colour: Colour::Rgb(46, 204, 113),
        timestamp: true,
    }
}

/// The log entry of a new weekly goal.
pub open spec fn updated_log_text(amount: i64, admin: u64) -> Seq<char> {
    "📢 **Meta semanal atualizada!**\n> 💸 Valor: **$"@
        + amount_text((amount as u64) as nat)
        + "**\n> 👤 Responsável: <@"@
        + decimal(admin as nat)
        + ">"@
}

/// The log entry of a new weekly goal.
pub fn updated_log(amount: i64, admin: u64) -> (s: String)
    ensures
        s@ == updated_log_text(amount, admin),
{
    let mut s = String::new();
    s.append("📢 **Meta semanal atualizada!**\n> 💸 Valor: **$");
    let amount1 = format_amount(amount as u64);
    s.append(amount1.as_str());
    s.append("**\n> 👤 Responsável: <@");
    push_decimal(&mut s, admin);
    s.append(">");
    s
}

/// Where the handling of `/definirmeta` stands; `meta` and `logs` are the
/// configured goal and log channels.
#[derive(Clone, Copy, Debug, PartialEq, Eq)]
pub enum GoalState {
    Start,
    LoadingChannels,
    Saving { meta: u64, logs: u64, amount: i64 },
    LoadingDeadline { meta: u64, logs: u64, amount: i64 },
    Announcing { meta: u64, logs: u64, amount: i64 },
    Mentioning { logs: u64, amount: i64 },
    Replying { logs: u64, amount: i64 },
    Logging,
    Done,
}

/// What came back from the last thing done; `None` or `false` where it
/// failed.
#[derive(Clone, Copy, Debug, PartialEq, Eq)]
pub enum GoalEvent {
    Begin,
    Channels(Option<ChannelIds>),
    /// Whether the new goal was stored.
    Saved(bool),
    /// The next Monday at 18:00 (São Paulo time), as Unix seconds.
    Deadline(Option<i64>),
    /// The announcement was posted, or posting it failed (which is only
    /// logged).
    Announced,
    /// The mention of everyone was posted, or posting it failed.
    Mentioned,
    Replied,
    Logged,
}

/// What to do next for `/definirmeta`.
#[derive(Clone, Copy, Debug, PartialEq, Eq)]
pub enum GoalAction {
    LoadChannels,
    /// Answer with `negative_goal_reply`, then stop.
    RefuseNegative,
    /// Store `amount` as the current weekly goal.
    Save { amount: i64 },
    /// Find the next Monday at 18:00.
    LoadDeadline,
    /// The next Monday could not be found: the handler fails there.
    DeadlineUnavailable,
    /// Post `announcement_embed(amount, admin name, deadline)` in `channel`.
    Announce { channel: u64, amount: i64, deadline: i64 },
    /// Post `everyone_mention` in `channel`.
    Mention { channel: u64 },
    /// Answer with `updated_embed(amount)`.
    Reply { amount: i64 },
    /// Post `updated_log(amount, admin)` in the log channel `logs`, then stop.
    Log { logs: u64, amount: i64 },
    Stop,
}

/// The step from `state` on `event` for a call whose amount option is
/// `amount` (`None` when it is missing or no integer): the channels first,
/// then the amount (a negative one is refused and never stored), the new
/// goal stored, the deadline, the announcement and the mention in the goal
/// channel, the answer and the log entry; any failure stops.
pub open spec fn goal_step_is(amount: Option<i64>, state: GoalState, event: GoalEvent, next: GoalState, action: GoalAction) -> bool {
    match (state, event) {
        (GoalState::Start, GoalEvent::Begin) => next == GoalState::LoadingChannels && action == GoalAction::LoadChannels,
        (GoalState::LoadingChannels, GoalEvent::Channels(Some(ids))) => match amount {
            None => next == GoalState::Done && action == GoalAction::Stop,
            Some(a) => if a < 0 {
                next == GoalState::Done && action == GoalAction::RefuseNegative
            } else {
                next == (GoalState::Saving { meta: ids.meta_channel_id, logs: ids.logs_channel_id, amount: a })
                    && action == (GoalAction::Save { amount: a })
            },
        },
        (GoalState::Saving { meta, logs, amount: a }, GoalEvent::Saved(true)) => next == (GoalState::LoadingDeadline {
            meta,
            logs,
            amount: a,
        }) && action == GoalAction::LoadDeadline,
        (GoalState::LoadingDeadline { meta, logs, amount: a }, GoalEvent::Deadline(Some(d))) => next
            == (GoalState::Announcing { meta, logs, amount: a }) && action == (GoalAction::Announce {
            channel: meta,
            amount: a,
            deadline: d,
        }),
        (GoalState::LoadingDeadline { .. }, GoalEvent::Deadline(None)) => next == GoalState::Done && action
            == GoalAction::DeadlineUnavailable,
        (GoalState::Announcing { meta, logs, amount: a }, GoalEvent::Announced) => next == (GoalState::Mentioning {
            logs,
            amount: a,
        }) && action == (GoalAction::Mention { channel: meta }),
        (GoalState::Mentioning { logs, amount: a }, GoalEvent::Mentioned) => next == (GoalState::Replying {
            logs,
            amount: a,
        }) && action == (GoalAction::Reply { amount: a }),
        (GoalState::Replying { logs, amount: a }, GoalEvent::Replied) => next == GoalState::Logging && action
            == (GoalAction::Log { logs, amount: a }),
        _ => next == GoalState::Done && action == GoalAction::Stop,
    }
}

/// The next step of `/definirmeta`.
pub fn goal_step(amount: Option<i64>, state: GoalState, event: GoalEvent) -> (r: (GoalState, GoalAction))
    ensures
        goal_step_is(amount, state, event, r.0, r.1),
{
    match (state, event) {
        (GoalState::Start, GoalEvent::Begin) => (GoalState::LoadingChannels, GoalAction::LoadChannels),
        (GoalState::LoadingChannels, GoalEvent::Channels(Some(ids))) => match amount {
            None => (GoalState::Done, GoalAction::Stop),
            Some(a) => if goal_accepted(a) {
                (
                    GoalState::Saving { meta: ids.meta_channel_id, logs: ids.logs_channel_id, amount: a },
                    GoalAction::Save { amount: a },
                )
            } else {
                (GoalState::Done, GoalAction::RefuseNegative)
            },
        },
        (GoalState::Saving { meta, logs, amount: a }, GoalEvent::Saved(true)) => (
            GoalState::LoadingDeadline { meta, logs, amount: a },
            GoalAction::LoadDeadline,
        ),
        (GoalState::LoadingDeadline { meta, logs, amount: a }, GoalEvent::Deadline(deadline)) => match deadline {
            Some(d) => (
                GoalState::Announcing { meta, logs, amount: a },
                GoalAction::Announce { channel: meta, amount: a, deadline: d },
            ),
            None => (GoalState::Done, GoalAction::DeadlineUnavailable),
        },
        (GoalState::Announcing { meta, logs, amount: a }, GoalEvent::Announced) => (
            GoalState::Mentioning { logs, amount: a },
            GoalAction::Mention { channel: meta },
        ),
        (GoalState::Mentioning { logs, amount: a }, GoalEvent::Mentioned) => (
            GoalState::Replying { logs, amount: a },
            GoalAction::Reply { amount: a },
        ),
        (GoalState::Replying { logs, amount: a }, GoalEvent::Replied) => (GoalState::Logging, GoalAction::Log { logs, amount: a }),
        _ => (GoalState::Done, GoalAction::Stop),
    }
}

/// A negative weekly goal is never stored: the only step that stores a goal
/// follows the reading of the channels, and stores the call's own amount,
/// which is not negative.
pub proof fn negative_goal_never_saved(
    amount: Option<i64>,
    state: GoalState,
    event: GoalEvent,
    next: GoalState,
    action: GoalAction,
)
    requires
        goal_step_is(amount, state, event, next, action),
        action is Save,
    ensures
        state == GoalState::LoadingChannels,
        amount == Some(action->Save_amount),
        action->Save_amount >= 0,
{
}

} // verus!
