use vstd::prelude::*;
use crate::bot::models::command::{CommandSpec, OptionKind, command, command_is, option, option_is};
use crate::bot::models::embed::{Colour, EmbedSpec, footer_of, title_of};

verus! {

/// What `register` gives: the command's name, description, options and
/// whether it is for administrators only.
pub open spec fn registration(c: CommandSpec) -> bool {
    &&& command_is(c, "setcanais"@, "Defina os canais do bot"@, 4, false)
    &&& option_is(c.options@[0], OptionKind::Channel, "individual"@, "Categoria para canais individuais"@, true)
    &&& option_is(c.options@[1], OptionKind::Channel, "anonimo"@, "Canal para mensagens anónimas"@, true)
    &&& option_is(c.options@[2], OptionKind::Channel, "meta"@, "Canal para mensagens de meta"@, true)
    &&& option_is(c.options@[3], OptionKind::Channel, "logs"@, "Canal para receber logs"@, true)
}

/// The `/setcanais` command: four required channels.
pub fn register() -> (c: CommandSpec)
    ensures
        registration(c),
{
    let mut c = command("setcanais", "Defina os canais do bot", false);
    c.options.push(option(OptionKind::Channel, "individual", "Categoria para canais individuais", true));
    c.options.push(option(OptionKind::Channel, "anonimo", "Canal para mensagens anónimas", true));
    c.options.push(option(OptionKind::Channel, "meta", "Canal para mensagens de meta", true));
    c.options.push(option(OptionKind::Channel, "logs", "Canal para receber logs", true));
    c
}

/// The private confirmation of `/setcanais`.
pub fn set_embed() -> (e: EmbedSpec)
    ensures
        e.description@ == "Canais definidos com sucesso!"@,
        title_of(e) == None::<Seq<char>>,
        footer_of(e) == None::<Seq<char>>,
        e.colour == Colour::LightGrey,
        e.timestamp == true,
{
    let description = "Canais definidos com sucesso!".to_owned();
    EmbedSpec {
        title: None,
        description,
        footer: None,
        colour: Colour::LightGrey,
        timestamp: true,
    }
}

} // verus!
