use vstd::prelude::*;
use crate::bot::models::command::{CommandSpec, OptionKind, OptionValue, command, command_is, option, option_is};
use crate::bot::models::command::{as_channel_id, as_user_id};
use crate::bot::models::embed::{Colour, EmbedSpec, footer_of, title_of};
use crate::bot::utils::text::{decimal, push_decimal};
use crate::db::models::channels::ChannelIds;

verus! {

/// What `register` gives: the command's name, description, options and
/// whether it is for administrators only.
pub open spec fn registration(c: CommandSpec) -> bool {
    &&& command_is(c, "definircanal"@, "Defina um canal individual"@, 2, true)
    &&& option_is(c.options@[0], OptionKind::User, "user"@, "O usuário para o qual você deseja definir o canal"@, true)
    &&& option_is(c.options@[1], OptionKind::Channel, "canal"@, "O canal que você deseja definir"@, true)
}

/// The `/definircanal` command: a user and a channel, for administrators.
pub fn register() -> (c: CommandSpec)
    ensures
        registration(c),
{
    let mut c = command("definircanal", "Defina um canal individual", true);
    c.options.push(option(OptionKind::User, "user", "O usuário para o qual você deseja definir o canal", true));
    c.options.push(option(OptionKind::Channel, "canal", "O canal que você deseja definir", true));
    c
}

/// The user and the channel of a `/definircanal` call; `None` unless the
/// first option is a user and the second a channel.
pub fn target_options(options: &Vec<OptionValue>) -> (r: Option<(u64, u64)>)
    ensures
        r is Some <==> options@.len() >= 2 && options@[0] is User && options@[1] is Channel,
        r matches Some(t) ==> options@[0] == OptionValue::User(t.0) && options@[1] == OptionValue::Channel(t.1),
{
    if options.len() < 2 {
        return None;
    }
    match (as_user_id(&options[0]), as_channel_id(&options[1])) {
        (Some(user), Some(channel)) => Some((user, channel)),
        _ => None,
    }
}

/// The answer when the user already has an individual channel.
pub open spec fn existing_channel_reply_text(channel: u64) -> Seq<char> {
    "❌ - Esse usuário já possui um canal individual aberto <#"@
        + decimal(channel as nat)
        + ">."@
}

/// The answer when the user already has an individual channel.
pub fn existing_channel_reply(channel: u64) -> (s: String)
    ensures
        s@ == existing_channel_reply_text(channel),
{
    let mut s = String::new();
    s.append("❌ - Esse usuário já possui um canal individual aberto <#");
    push_decimal(&mut s, channel);
    s.append(">.");
    s
}

/// The description of the confirmation of `/definircanal`.
pub open spec fn assigned_description_text(user: u64, channel: u64) -> Seq<char> {
    "- Você definiu o usuário <@"@
        + decimal(user as nat)
        + "> para o canal <#"@
        + decimal(channel as nat)
        + ">"@
}

/// The description of the confirmation of `/definircanal`.
pub fn assigned_description(user: u64, channel: u64) -> (s: String)
    ensures
        s@ == assigned_description_text(user, channel),
{
    let mut s = String::new();
    s.append("- Você definiu o usuário <@");
    push_decimal(&mut s, user);
    s.append("> para o canal <#");
    push_decimal(&mut s, channel);
    s.append(">");
    s
}

/// The private confirmation of `/definircanal`.
pub fn assigned_embed(user: u64, channel: u64) -> (e: EmbedSpec)
    ensures
        e.description@ == assigned_description_text(user, channel),
        title_of(e) == None::<Seq<char>>,
        footer_of(e) == Some("Aura - Canal Individual"@),
        e.colour == Colour::LightGrey,
        e.timestamp == true,
{
    let footer = "Aura - Canal Individual".to_owned();
    let description = assigned_description(user, channel);
    EmbedSpec {
        title: None,
        description,
        footer: Some(footer),
        colour: Colour::LightGrey,
        timestamp: true,
    }
}

/// The log entry of `/definircanal`.
pub open spec fn assigned_log_text(channel: u64, user: u64, admin: u64) -> Seq<char> {
    "Canal individual definido com sucesso!\n> Canal: <#"@
        + decimal(channel as nat)
        + ">\n> User: <@"@
        + decimal(user as nat)
        + "> \n> Definido por: <@"@
        + decimal(admin as nat)
        + ">"@
}

/// The log entry of `/definircanal`.
pub fn assigned_log(channel: u64, user: u64, admin: u64) -> (s: String)
    ensures
        s@ == assigned_log_text(channel, user, admin),
{
    let mut s = String::new();
    s.append("Canal individual definido com sucesso!\n> Canal: <#");
    push_decimal(&mut s, channel);
    s.append(">\n> User: <@");
    push_decimal(&mut s, user);
    s.append("> \n> Definido por: <@");
    push_decimal(&mut s, admin);
    s.append(">");
    s
}

/// The refusal owed when the user already has an individual channel
/// `existing`: a user never gets a second one. `None` lets the command go on.
pub fn channel_refusal(existing: Option<u64>) -> (r: Option<String>)
    ensures
        r is Some <==> existing is Some,
        r matches Some(s) ==> s@ == existing_channel_reply_text(existing->0),
{
    match existing {
        Some(channel) => Some(existing_channel_reply(channel)),
        None => None,
    }
}

/// Where the handling of `/definircanal` stands; `user` and `channel` are
/// the call's two options, `logs` the configured log channel.
#[derive(Clone, Copy, Debug, PartialEq, Eq)]
pub enum AssignState {
    Start,
    LoadingChannels,
    CheckingExisting { logs: u64, user: u64, channel: u64 },
    Recording { logs: u64, user: u64, channel: u64 },
    Replying { logs: u64, user: u64, channel: u64 },
    Logging,
    Done,
}

/// What came back from the last thing done; `None` or `false` where it
/// failed.
#[derive(Clone, Copy, Debug, PartialEq, Eq)]
pub enum AssignEvent {
    Begin,
    Channels(Option<ChannelIds>),
    /// The user's individual channel; `None` when there is none or it could
    /// not be read.
    Existing(Option<u64>),
    /// Whether the channel was stored for the user.
    Recorded(bool),
    Replied,
    Logged,
}

/// What to do next for `/definircanal`.
#[derive(Clone, Copy, Debug, PartialEq, Eq)]
pub enum AssignAction {
    LoadChannels,
    /// The user and channel options are missing: the handler fails there.
    MissingOptions,
    /// Read the individual channel of `user`.
    LoadExisting { user: u64 },
    /// Answer with `existing_channel_reply(channel)`, then stop.
    Refuse { channel: u64 },
    /// Store `channel` as the individual channel of `user`.
    Record { user: u64, channel: u64 },
    /// Answer with `assigned_embed(user, channel)`.
    Reply { user: u64, channel: u64 },
    /// Post `assigned_log(channel, user, admin)` in the log channel `logs`,
    /// then stop.
    Log { logs: u64, user: u64, channel: u64 },
    Stop,
}

/// The step from `state` on `event` for a call whose options are `target`
/// (user and channel; `None` when they are missing): the channels first,
/// then the options, then a user who has a channel is refused; otherwise the
/// channel is stored for the user, confirmed and logged; any failure stops.
pub open spec fn assign_step_is(
    target: Option<(u64, u64)>,
    state: AssignState,
    event: AssignEvent,
    next: AssignState,
    action: AssignAction,
) -> bool {
    match (state, event) {
        (AssignState::Start, AssignEvent::Begin) => next == AssignState::LoadingChannels && action == AssignAction::LoadChannels,
        (AssignState::LoadingChannels, AssignEvent::Channels(Some(ids))) => match target {
            Some((user, channel)) => next == (AssignState::CheckingExisting { logs: ids.logs_channel_id, user, channel })
                && action == (AssignAction::LoadExisting { user }),
            None => next == AssignState::Done && action == AssignAction::MissingOptions,
        },
        (AssignState::CheckingExisting { .. }, AssignEvent::Existing(Some(c))) => next == AssignState::Done && action
            == (AssignAction::Refuse { channel: c }),
        (AssignState::CheckingExisting { logs, user, channel }, AssignEvent::Existing(None)) => next
            == (AssignState::Recording { logs, user, channel }) && action == (AssignAction::Record { user, channel }),
        (AssignState::Recording { logs, user, channel }, AssignEvent::Recorded(true)) => next == (AssignState::Replying {
            logs,
            user,
            channel,
        }) && action == (AssignAction::Reply { user, channel }),
        (AssignState::Replying { logs, user, channel }, AssignEvent::Replied) => next == AssignState::Logging && action
            == (AssignAction::Log { logs, user, channel }),
        _ => next == AssignState::Done && action == AssignAction::Stop,
    }
}

/// The next step of `/definircanal`.
pub fn assign_step(target: Option<(u64, u64)>, state: AssignState, event: AssignEvent) -> (r: (AssignState, AssignAction))
    ensures
        assign_step_is(target, state, event, r.0, r.1),
{
    match (state, event) {
        (AssignState::Start, AssignEvent::Begin) => (AssignState::LoadingChannels, AssignAction::LoadChannels),
        (AssignState::LoadingChannels, AssignEvent::Channels(Some(ids))) => match target {
            Some((user, channel)) => (
                AssignState::CheckingExisting { logs: ids.logs_channel_id, user, channel },
                AssignAction::LoadExisting { user },
            ),
            None => (AssignState::Done, AssignAction::MissingOptions),
        },
        (AssignState::CheckingExisting { logs, user, channel }, AssignEvent::Existing(existing)) => match existing {
            Some(c) => (AssignState::Done, AssignAction::Refuse { channel: c }),
            None => (AssignState::Recording { logs, user, channel }, AssignAction::Record { user, channel }),
        },
        (AssignState::Recording { logs, user, channel }, AssignEvent::Recorded(true)) => (
            AssignState::Replying { logs, user, channel },
            AssignAction::Reply { user, channel },
        ),
        (AssignState::Replying { logs, user, channel }, AssignEvent::Replied) => (
            AssignState::Logging,
            AssignAction::Log { logs, user, channel },
        ),
        _ => (AssignState::Done, AssignAction::Stop),
    }
}

/// A user never gets a second individual channel: a step of `/definircanal`
/// stores a channel only after a check that found none for that user, and
/// it stores the very user and channel that were checked.
pub proof fn channel_assigned_only_after_check(
    target: Option<(u64, u64)>,
    state: AssignState,
    event: AssignEvent,
    next: AssignState,
    action: AssignAction,
)
    requires
        assign_step_is(target, state, event, next, action),
        action is Record,
    ensures
        state matches AssignState::CheckingExisting { user, channel, .. } && action == (AssignAction::Record {
            user,
            channel,
        }),
        event == AssignEvent::Existing(None),
{
}

} // verus!
