use vstd::prelude::*;
use crate::bot::models::command::{CommandSpec, OptionKind, OptionValue, command, command_is, option, option_is};
use crate::bot::models::command::as_channel_id;
use crate::bot::models::embed::{Colour, EmbedSpec, footer_of, title_of};
use crate::bot::utils::text::{decimal, push_decimal};
use crate::db::models::channels::ChannelIds;

verus! {

/// What `register` gives: the command's name, description, options and
/// whether it is for administrators only.
pub open spec fn registration(c: CommandSpec) -> bool {
    &&& command_is(c, "definircanais"@, "Defina os canais do bot"@, 6, true)
    &&& option_is(c.options@[0], OptionKind::Channel, "individual"@, "Categoria para canais individuais"@, true)
    &&& option_is(c.options@[1], OptionKind::Channel, "anonimo"@, "Canal para mensagens anónimas"@, true)
    &&& option_is(c.options@[2], OptionKind::Channel, "meta"@, "Canal para mensagens de meta"@, true)
    &&& option_is(c.options@[3], OptionKind::Channel, "logs"@, "Canal para receber logs"@, true)
    &&& option_is(c.options@[4], OptionKind::Channel, "approval"@, "Canal para aprovações"@, true)
    &&& option_is(c.options@[5], OptionKind::Channel, "resultadometa"@, "Canal para o resultado das meta"@, true)
}

/// The `/definircanais` command: six required channels, for administrators.
pub fn register() -> (c: CommandSpec)
    ensures
        registration(c),
{
    let mut c = command("definircanais", "Defina os canais do bot", true);
    c.options.push(option(OptionKind::Channel, "individual", "Categoria para canais individuais", true));
    c.options.push(option(OptionKind::Channel, "anonimo", "Canal para mensagens anónimas", true));
    c.options.push(option(OptionKind::Channel, "meta", "Canal para mensagens de meta", true));
    c.options.push(option(OptionKind::Channel, "logs", "Canal para receber logs", true));
    c.options.push(option(OptionKind::Channel, "approval", "Canal para aprovações", true));
    c.options.push(option(OptionKind::Channel, "resultadometa", "Canal para o resultado das meta", true));
    c
}

/// The six channels of a `/definircanais` call, in the order of its options
/// (individual category, anonymous, goal, logs, approval, results); `None`
/// unless the first six options are all channels.
pub fn channels_from_options(options: &Vec<OptionValue>) -> (r: Option<ChannelIds>)
    ensures
        r is Some <==> options@.len() >= 6 && forall|i: int| 0 <= i < 6 ==> #[trigger] options@[i] is Channel,
        r matches Some(ids) ==> {
            &&& options@[0] == OptionValue::Channel(ids.individuals_category_id)
            &&& options@[1] == OptionValue::Channel(ids.anonymous_channel_id)
            &&& options@[2] == OptionValue::Channel(ids.meta_channel_id)
            &&& options@[3] == OptionValue::Channel(ids.logs_channel_id)
            &&& options@[4] == OptionValue::Channel(ids.approval_channel_id)
            &&& options@[5] == OptionValue::Channel(ids.results_channel_id)
        },
{
    if options.len() < 6 {
        return None;
    }
    let individual = as_channel_id(&options[0]);
    let anonymous = as_channel_id(&options[1]);
    let meta = as_channel_id(&options[2]);
    let logs = as_channel_id(&options[3]);
    let approval = as_channel_id(&options[4]);
    let results = as_channel_id(&options[5]);
    match (individual, anonymous, meta, logs, approval, results) {
        (Some(a), Some(b), Some(c), Some(d), Some(e), Some(f)) => Some(
            ChannelIds {
                individuals_category_id: a,
                anonymous_channel_id: b,
                meta_channel_id: c,
                logs_channel_id: d,
                approval_channel_id: e,
                results_channel_id: f,
            },
        ),
        _ => {
            assert(!(forall|i: int| 0 <= i < 6 ==> #[trigger] options@[i] is Channel)) by {
                if individual is None {
                    assert(!(options@[0] is Channel));
                } else if anonymous is None {
                    assert(!(options@[1] is Channel));
                } else if meta is None {
                    assert(!(options@[2] is Channel));
                } else if logs is None {
                    assert(!(options@[3] is Channel));
                } else if approval is None {
                    assert(!(options@[4] is Channel));
                } else {
                    assert(!(options@[5] is Channel));
                }
            }
            None
        },
    }
}

/// The summary of the configured channels.
pub open spec fn configured_description_text(ids: ChannelIds) -> Seq<char> {
    "Os canais foram configurados com sucesso!\n\n**Canais Definidos:**\n💬 **Individual:** <#"@
        + decimal(ids.individuals_category_id as nat)
        + ">\n🤫 **Anônimo:** <#"@
        + decimal(ids.anonymous_channel_id as nat)
        + ">\n📊 **Meta:** <#"@
        + decimal(ids.meta_channel_id as nat)
        + ">\n📑 **Logs:** <#"@
        + decimal(ids.logs_channel_id as nat)
        + ">\n✅ **Aprovação:** <#"@
        + decimal(ids.approval_channel_id as nat)
        + ">\n         📈 **Resultado da Meta:** <#"@
        + decimal(ids.results_channel_id as nat)
        + ">\n"@
}

/// The summary of the configured channels.
pub fn configured_description(ids: ChannelIds) -> (s: String)
    ensures
        s@ == configured_description_text(ids),
{
    let mut s = String::new();
    s.append("Os canais foram configurados com sucesso!\n\n**Canais Definidos:**\n💬 **Individual:** <#");
    push_decimal(&mut s, ids.individuals_category_id);
    s.append(">\n🤫 **Anônimo:** <#");
    push_decimal(&mut s, ids.anonymous_channel_id);
    s.append(">\n📊 **Meta:** <#");
    push_decimal(&mut s, ids.meta_channel_id);
    s.append(">\n📑 **Logs:** <#");
    push_decimal(&mut s, ids.logs_channel_id);
    s.append(">\n✅ **Aprovação:** <#");
    push_decimal(&mut s, ids.approval_channel_id);
    s.append(">\n         📈 **Resultado da Meta:** <#");
    push_decimal(&mut s, ids.results_channel_id);
    s.append(">\n");
    s
}

/// The private confirmation of `/definircanais`.
pub fn configured_embed(ids: ChannelIds) -> (e: EmbedSpec)
    ensures
        e.description@ == configured_description_text(ids),
        title_of(e) == Some("✅ Configuração Concluída!"@),
        footer_of(e) == None::<Seq<char>>,
        e.colour == Colour::Rgb(144, 238, 144),
        e.timestamp == true,
{
    let title = "✅ Configuração Concluída!".to_owned();
    let description = configured_description(ids);
    EmbedSpec {
        title: Some(title),
        description,
        footer: None,
        colour: Colour::Rgb(144, 238, 144),
        timestamp: true,
    }
}

/// Where the handling of `/definircanais` stands.
#[derive(Clone, Copy, Debug, PartialEq, Eq)]
pub enum ConfigState {
    Start,
    Saving(ChannelIds),
    Replying,
    Done,
}

/// What came back from the last thing done.
#[derive(Clone, Copy, Debug, PartialEq, Eq)]
pub enum ConfigEvent {
    Begin,
    /// Whether the channels were stored.
    Saved(bool),
    Replied,
}

/// What to do next for `/definircanais`.
#[derive(Clone, Copy, Debug, PartialEq, Eq)]
pub enum ConfigAction {
    /// The six channel options are missing: the handler fails there.
    MissingOptions,
    /// Store the six channels.
    Save(ChannelIds),
    /// Answer with `configured_embed` of the six channels, then stop.
    Reply(ChannelIds),
    Stop,
}

/// The step from `state` on `event` for a call whose six channel options
/// are `ids` (`None` when they are missing): the channels are stored, and
/// only once they are, the answer lists them; a failed write stops.
pub open spec fn config_step_is(ids: Option<ChannelIds>, state: ConfigState, event: ConfigEvent, next: ConfigState, action: ConfigAction) -> bool {
    match (state, event) {
        (ConfigState::Start, ConfigEvent::Begin) => match ids {
            Some(c) => next == ConfigState::Saving(c) && action == ConfigAction::Save(c),
            None => next == ConfigState::Done && action == ConfigAction::MissingOptions,
        },
        (ConfigState::Saving(c), ConfigEvent::Saved(true)) => next == ConfigState::Replying && action == ConfigAction::Reply(c),
        _ => next == ConfigState::Done && action == ConfigAction::Stop,
    }
}

/// The next step of `/definircanais`.
pub fn config_step(ids: Option<ChannelIds>, state: ConfigState, event: ConfigEvent) -> (r: (ConfigState, ConfigAction))
    ensures
        config_step_is(ids, state, event, r.0, r.1),
{
    match (state, event) {
        (ConfigState::Start, ConfigEvent::Begin) => match ids {
            Some(c) => (ConfigState::Saving(c), ConfigAction::Save(c)),
            None => (ConfigState::Done, ConfigAction::MissingOptions),
        },
        (ConfigState::Saving(c), ConfigEvent::Saved(true)) => (ConfigState::Replying, ConfigAction::Reply(c)),
        _ => (ConfigState::Done, ConfigAction::Stop),
    }
}

} // verus!
