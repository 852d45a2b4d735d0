use vstd::prelude::*;
use crate::bot::models::command::{CommandSpec, OptionKind, OptionValue, command, command_is, option, option_is};
use crate::bot::models::command::{as_str, option_text};
use crate::bot::models::embed::{Colour, EmbedSpec, footer_of, title_of};
use crate::db::models::channels::ChannelIds;

verus! {

/// What `register` gives: the command's name, description, options and
/// whether it is for administrators only.
pub open spec fn registration(c: CommandSpec) -> bool {
    &&& command_is(c, "anonimo"@, "Envie uma mensagem anónima"@, 1, false)
    &&& option_is(c.options@[0], OptionKind::String, "mensagem"@, "Mande uma mensagem anónima."@, true)
}

/// The `/anonimo` command: one required text option, the message.
pub fn register() -> (c: CommandSpec)
    ensures
        registration(c),
{
    let mut c = command("anonimo", "Envie uma mensagem anónima", false);
    c.options.push(option(OptionKind::String, "mensagem", "Mande uma mensagem anónima.", true));
    c
}

/// The message of an `/anonimo` call: its first option, when that is text.
pub fn message_option(options: &Vec<OptionValue>) -> (r: Option<String>)
    ensures
        options@.len() == 0 ==> r is None,
        options@.len() > 0 ==> match r {
            Some(s) => option_text(options@[0]) == Some(s@),
            None => option_text(options@[0]) is None,
        },
{
    if options.len() == 0 {
        None
    } else {
        as_str(&options[0])
    }
}

/// The embed posted in the anonymous channel: the message itself, stamped
/// with the time, in light grey.
pub fn anonymous_embed(message: String) -> (e: EmbedSpec)
    ensures
        e.description@ == message@,
        title_of(e) == None::<Seq<char>>,
        footer_of(e) == None::<Seq<char>>,
        e.colour == Colour::LightGrey,
        e.timestamp,
{
    EmbedSpec { title: None, description: message, footer: None, colour: Colour::LightGrey, timestamp: true }
}

/// The private answer once the anonymous message is posted.
pub fn sent_embed() -> (e: EmbedSpec)
    ensures
        e.description@ == "A sua mensagem foi enviada com sucesso!"@,
        title_of(e) == None::<Seq<char>>,
        footer_of(e) == None::<Seq<char>>,
        e.colour == Colour::LightGrey,
        e.timestamp == false,
{
    let description = "A sua mensagem foi enviada com sucesso!".to_owned();
    EmbedSpec {
        title: None,
        description,
        footer: None,
        colour: Colour::LightGrey,
        timestamp: false,
    }
}

/// Where the handling of `/anonimo` stands.
pub enum AnonState {
    Start,
    LoadingChannels,
    Sending,
    Replying,
    Done,
}

/// What came back from the last thing done; `None` or `false` where it
/// failed.
pub enum AnonEvent {
    Begin,
    Channels(Option<ChannelIds>),
    /// Whether the message was posted.
    Sent(bool),
    Replied,
}

/// What to do next for `/anonimo`.
pub enum AnonAction {
    LoadChannels,
    /// Post `anonymous_embed(message)` in the anonymous channel `channel`.
    Send { channel: u64, message: String },
    /// Answer with `sent_embed`.
    Reply,
    Stop,
}

/// The step from `state` on `event` for a call whose message option is
/// `message` (`None` when it is missing or no text): the channels, then the
/// message posted in the anonymous channel, and only once it is posted, the
/// answer; any failure stops without an answer.
pub open spec fn anon_step_is(message: Option<String>, state: AnonState, event: AnonEvent, next: AnonState, action: AnonAction) -> bool {
    match (state, event) {
        (AnonState::Start, AnonEvent::Begin) => next is LoadingChannels && action is LoadChannels,
        (AnonState::LoadingChannels, AnonEvent::Channels(Some(ids))) => match message {
            Some(m) => {
                &&& next is Sending
                &&& action matches AnonAction::Send { channel, message: t } && channel == ids.anonymous_channel_id
                    && t@ == m@
            },
            None => next is Done && action is Stop,
        },
        (AnonState::Sending, AnonEvent::Sent(true)) => next is Replying && action is Reply,
        _ => next is Done && action is Stop,
    }
}

/// The next step of `/anonimo`.
pub fn anon_step(message: &Option<String>, state: AnonState, event: AnonEvent) -> (r: (AnonState, AnonAction))
    ensures
        anon_step_is(*message, state, event, r.0, r.1),
{
    match (state, event) {
        (AnonState::Start, AnonEvent::Begin) => (AnonState::LoadingChannels, AnonAction::LoadChannels),
        (AnonState::LoadingChannels, AnonEvent::Channels(Some(ids))) => match message {
            Some(m) => (AnonState::Sending, AnonAction::Send { channel: ids.anonymous_channel_id, message: m.clone() }),
            None => (AnonState::Done, AnonAction::Stop),
        },
        (AnonState::Sending, AnonEvent::Sent(true)) => (AnonState::Replying, AnonAction::Reply),
        _ => (AnonState::Done, AnonAction::Stop),
    }
}

/// The sender is told their message went out only once it did: the answer
/// follows a successful post, and the post carries the message given.
pub proof fn reply_only_after_post(
    message: Option<String>,
    state: AnonState,
    event: AnonEvent,
    next: AnonState,
    action: AnonAction,
)
    requires
        anon_step_is(message, state, event, next, action),
    ensures
        action is Reply ==> state is Sending && event matches AnonEvent::Sent(true),
        action matches AnonAction::Send { message: t, .. } ==> message matches Some(m) && t@ == m@,
{
}

} // verus!
