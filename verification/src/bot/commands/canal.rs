use vstd::prelude::*;
use crate::db::models::channels::ChannelIds;
use crate::bot::models::command::{CommandSpec, command, command_is};
use crate::bot::models::embed::{Colour, EmbedSpec, footer_of, title_of};
use crate::bot::utils::text::{decimal, push_decimal};

verus! {

/// What `register` gives: the command's name, description, options and
/// whether it is for administrators only.
pub open spec fn registration(c: CommandSpec) -> bool {
    &&& command_is(c, "canal"@, "Crie o seu canal individual"@, 0, false)
}

/// The `/canal` command, without options.
pub fn register() -> (c: CommandSpec)
    ensures
        registration(c),
{
    let c = command("canal", "Crie o seu canal individual", false);
    c
}

/// The answer to a user who already has an individual channel.
pub open spec fn existing_channel_reply_text(channel: u64) -> Seq<char> {
    "❌ - Você já possui um canal individual aberto <#"@
        + decimal(channel as nat)
        + ">."@
}

/// The answer to a user who already has an individual channel.
pub fn existing_channel_reply(channel: u64) -> (s: String)
    ensures
        s@ == existing_channel_reply_text(channel),
{
    let mut s = String::new();
    s.append("❌ - Você já possui um canal individual aberto <#");
    push_decimal(&mut s, channel);
    s.append(">.");
    s
}

/// The name of the individual channel of the user `user_name`.
pub open spec fn channel_name_text(user_name: Seq<char>) -> Seq<char> {
    "🙋┇"@
        + user_name
}

/// The name of the individual channel of the user `user_name`.
pub fn channel_name(user_name: &str) -> (s: String)
    ensures
        s@ == channel_name_text(user_name@),
{
    let mut s = String::new();
    s.append("🙋┇");
    s.append(user_name);
    s
}

/// The description of the embed that confirms a new individual channel.
pub open spec fn created_description_text(user: u64, channel: u64) -> Seq<char> {
    "- Olá <@"@
        + decimal(user as nat)
        + ">, o seu novo canal individual foi aberto.\n> Você pode encontrar ele aqui <#"@
        + decimal(channel as nat)
        + ">."@
}

/// The description of the embed that confirms a new individual channel.
pub fn created_description(user: u64, channel: u64) -> (s: String)
    ensures
        s@ == created_description_text(user, channel),
{
    let mut s = String::new();
    s.append("- Olá <@");
    push_decimal(&mut s, user);
    s.append(">, o seu novo canal individual foi aberto.\n> Você pode encontrar ele aqui <#");
    push_decimal(&mut s, channel);
    s.append(">.");
    s
}

/// The private confirmation of a new individual channel.
pub fn created_embed(user: u64, channel: u64) -> (e: EmbedSpec)
    ensures
        e.description@ == created_description_text(user, channel),
        title_of(e) == None::<Seq<char>>,
        footer_of(e) == Some("Aura - Canal Individual"@),
        e.colour == Colour::LightGrey,
        e.timestamp == true,
{
    let footer = "Aura - Canal Individual".to_owned();
    let description = created_description(user, channel);
    EmbedSpec {
        title: None,
        description,
        footer: Some(footer),
        colour: Colour::LightGrey,
        timestamp: true,
    }
}

/// The log entry of a new individual channel.
pub open spec fn created_log_text(channel: u64, user: u64) -> Seq<char> {
    "Canal individual criado com sucesso!\n> Canal: <#"@
        + decimal(channel as nat)
        + ">\n> Criador: <@"@
        + decimal(user as nat)
        + ">"@
}

/// The log entry of a new individual channel.
pub fn created_log(channel: u64, user: u64) -> (s: String)
    ensures
        s@ == created_log_text(channel, user),
{
    let mut s = String::new();
    s.append("Canal individual criado com sucesso!\n> Canal: <#");
    push_decimal(&mut s, channel);
    s.append(">\n> Criador: <@");
    push_decimal(&mut s, user);
    s.append(">");
    s
}

/// A permission of a channel.
#[derive(Clone, Copy, Debug, PartialEq, Eq)]
pub enum Permission {
    ViewChannel,
    SendTtsMessages,
}

/// Whom a permission overwrite applies to.
#[derive(Clone, Copy, Debug, PartialEq, Eq)]
pub enum OverwriteTarget {
    Role(u64),
    Member(u64),
}

/// A permission overwrite of a channel.
pub struct PermissionRule {
    pub target: OverwriteTarget,
    pub allow: Vec<Permission>,
    pub deny: Vec<Permission>,
}

/// The overwrites of the individual channel of `user` in the guild
/// `guild`: hidden from everyone (the guild's everyone role has the guild's
/// id), visible to the user, who may not send text-to-speech messages.
pub fn channel_permissions(guild: u64, user: u64) -> (r: Vec<PermissionRule>)
    ensures
        r@.len() == 2,
        r@[0].target == OverwriteTarget::Role(guild),
        r@[0].allow@ == Seq::<Permission>::empty(),
        r@[0].deny@ == seq![Permission::ViewChannel],
        r@[1].target == OverwriteTarget::Member(user),
        r@[1].allow@ == seq![Permission::ViewChannel],
        r@[1].deny@ == seq![Permission::SendTtsMessages],
{
    let mut everyone_deny: Vec<Permission> = Vec::new();
    everyone_deny.push(Permission::ViewChannel);
    let mut member_allow: Vec<Permission> = Vec::new();
    member_allow.push(Permission::ViewChannel);
    let mut member_deny: Vec<Permission> = Vec::new();
    member_deny.push(Permission::SendTtsMessages);
    let mut r: Vec<PermissionRule> = Vec::new();
    r.push(PermissionRule { target: OverwriteTarget::Role(guild), allow: Vec::new(), deny: everyone_deny });
    r.push(PermissionRule { target: OverwriteTarget::Member(user), allow: member_allow, deny: member_deny });
    r
}

/// The refusal owed when the user already has an individual channel
/// `existing`: a user never gets a second one. `None` lets the command go on.
pub fn channel_refusal(existing: Option<u64>) -> (r: Option<String>)
    ensures
        r is Some <==> existing is Some,
        r matches Some(s) ==> s@ == existing_channel_reply_text(existing->0),
{
    match existing {
        Some(channel) => Some(existing_channel_reply(channel)),
        None => None,
    }
}

/// Where the handling of `/canal` stands.
#[derive(Clone, Copy, Debug, PartialEq, Eq)]
pub enum CanalState {
    Start,
    CheckingExisting,
    LoadingChannels { guild: u64 },
    Creating { logs: u64 },
    Recording { logs: u64, channel: u64 },
    Replying { logs: u64, channel: u64 },
    Logging,
    Done,
}

/// What came back from the last thing done; `None` where it failed.
#[derive(Clone, Copy, Debug, PartialEq, Eq)]
pub enum CanalEvent {
    Begin,
    /// The user's individual channel; `None` when there is none or it could
    /// not be read.
    Existing(Option<u64>),
    Channels(Option<ChannelIds>),
    /// The id of the new channel.
    Created(Option<u64>),
    /// Whether the new channel was stored for the user.
    Recorded(bool),
    Replied,
    Logged,
}

/// What to do next for `/canal`.
#[derive(Clone, Copy, Debug, PartialEq, Eq)]
pub enum CanalAction {
    LoadExisting,
    /// Answer with `existing_channel_reply(channel)`, then stop.
    Refuse { channel: u64 },
    LoadChannels,
    /// Create the channel `channel_name` of the user, with
    /// `channel_permissions(guild, user)`, in the category `category`.
    CreateChannel { guild: u64, category: u64 },
    /// Store `channel` as the user's individual channel.
    Record { channel: u64 },
    /// Answer with `created_embed(user, channel)`.
    Reply { channel: u64 },
    /// Post `created_log(channel, user)` in the log channel `logs`, then stop.
    Log { logs: u64, channel: u64 },
    Stop,
}

/// The step from `state` on `event` for a call in the guild `guild` (`None`
/// outside a guild): a user who has a channel is refused; otherwise the
/// channel is created under the configured category, stored, confirmed and
/// logged; any failure stops.
pub open spec fn canal_step_is(guild: Option<u64>, state: CanalState, event: CanalEvent, next: CanalState, action: CanalAction) -> bool {
    match (state, event) {
        (CanalState::Start, CanalEvent::Begin) => next == CanalState::CheckingExisting && action == CanalAction::LoadExisting,
        (CanalState::CheckingExisting, CanalEvent::Existing(Some(c))) => next == CanalState::Done && action
            == (CanalAction::Refuse { channel: c }),
        (CanalState::CheckingExisting, CanalEvent::Existing(None)) => match guild {
            Some(g) => next == (CanalState::LoadingChannels { guild: g }) && action == CanalAction::LoadChannels,
            None => next == CanalState::Done && action == CanalAction::Stop,
        },
        (CanalState::LoadingChannels { guild: g }, CanalEvent::Channels(Some(ids))) => next == (CanalState::Creating {
            logs: ids.logs_channel_id,
        }) && action == (CanalAction::CreateChannel { guild: g, category: ids.individuals_category_id }),
        (CanalState::Creating { logs }, CanalEvent::Created(Some(c))) => next == (CanalState::Recording {
            logs,
            channel: c,
        }) && action == (CanalAction::Record { channel: c }),
        (CanalState::Recording { logs, channel }, CanalEvent::Recorded(true)) => next == (CanalState::Replying {
            logs,
            channel,
        }) && action == (CanalAction::Reply { channel }),
        (CanalState::Replying { logs, channel }, CanalEvent::Replied) => next == CanalState::Logging && action
            == (CanalAction::Log { logs, channel }),
        _ => next == CanalState::Done && action == CanalAction::Stop,
    }
}

/// The next step of `/canal`.
pub fn canal_step(guild: Option<u64>, state: CanalState, event: CanalEvent) -> (r: (CanalState, CanalAction))
    ensures
        canal_step_is(guild, state, event, r.0, r.1),
{
    match (state, event) {
        (CanalState::Start, CanalEvent::Begin) => (CanalState::CheckingExisting, CanalAction::LoadExisting),
        (CanalState::CheckingExisting, CanalEvent::Existing(Some(c))) => (CanalState::Done, CanalAction::Refuse { channel: c }),
        (CanalState::CheckingExisting, CanalEvent::Existing(None)) => match guild {
            Some(g) => (CanalState::LoadingChannels { guild: g }, CanalAction::LoadChannels),
            None => (CanalState::Done, CanalAction::Stop),
        },
        (CanalState::LoadingChannels { guild: g }, CanalEvent::Channels(Some(ids))) => (
            CanalState::Creating { logs: ids.logs_channel_id },
            CanalAction::CreateChannel { guild: g, category: ids.individuals_category_id },
        ),
        (CanalState::Creating { logs }, CanalEvent::Created(Some(c))) => (
            CanalState::Recording { logs, channel: c },
            CanalAction::Record { channel: c },
        ),
        (CanalState::Recording { logs, channel }, CanalEvent::Recorded(true)) => (
            CanalState::Replying { logs, channel },
            CanalAction::Reply { channel },
        ),
        (CanalState::Replying { logs, channel }, CanalEvent::Replied) => (CanalState::Logging, CanalAction::Log { logs, channel }),
        _ => (CanalState::Done, CanalAction::Stop),
    }
}

/// A user never gets a second individual channel: a step of `/canal`
/// creates a channel only once the configured channels were read, and those
/// are read only after a check that found no channel for the user.
pub proof fn channel_created_only_after_check(
    guild: Option<u64>,
    state: CanalState,
    event: CanalEvent,
    next: CanalState,
    action: CanalAction,
)
    requires
        canal_step_is(guild, state, event, next, action),
    ensures
        action is CreateChannel ==> state is LoadingChannels,
        next is LoadingChannels ==> state == CanalState::CheckingExisting && event == CanalEvent::Existing(None),
{
}

} // verus!
