use vstd::prelude::*;
use crate::bot::components::buttons_meta::Verdict;
use crate::bot::utils::text::same_text;

verus! {

/// The handler of a slash command.
#[derive(Clone, Copy, Debug, PartialEq, Eq)]
pub enum CommandRoute {
    Meta,
    Canal,
    Anonimo,
    DefinirMeta,
    DefinirCanais,
    DefinirCanal,
    Info,
}

/// The handler of a submitted form.
#[derive(Clone, Copy, Debug, PartialEq, Eq)]
pub enum ModalRoute {
    Goal,
}

/// The handler of the slash command called `name`, if the bot has one.
pub open spec fn command_route(name: Seq<char>) -> Option<CommandRoute> {
    if name == "meta"@ {
        Some(CommandRoute::Meta)
    } else if name == "canal"@ {
        Some(CommandRoute::Canal)
    } else if name == "anonimo"@ {
        Some(CommandRoute::Anonimo)
    } else if name == "definirmeta"@ {
        Some(CommandRoute::DefinirMeta)
    } else if name == "definircanais"@ {
        Some(CommandRoute::DefinirCanais)
    } else if name == "definircanal"@ {
        Some(CommandRoute::DefinirCanal)
    } else if name == "info"@ {
        Some(CommandRoute::Info)
    } else {
        None
    }
}

/// The handler of the form with the id `custom_id`.
pub open spec fn modal_route(custom_id: Seq<char>) -> Option<ModalRoute> {
    if custom_id == "goal"@ {
        Some(ModalRoute::Goal)
    } else {
        None
    }
}

/// The verdict behind the button with the id `custom_id`.
pub open spec fn button_route(custom_id: Seq<char>) -> Option<Verdict> {
    if custom_id == "aprove"@ {
        Some(Verdict::Approved)
    } else if custom_id == "deny"@ {
        Some(Verdict::Rejected)
    } else {
        None
    }
}

/// The handler of the slash command called `name`.
pub fn route_command(name: &str) -> (r: Option<CommandRoute>)
    ensures
        r == command_route(name@),
{
    if same_text(name, "meta") {
        Some(CommandRoute::Meta)
    } else if same_text(name, "canal") {
        Some(CommandRoute::Canal)
    } else if same_text(name, "anonimo") {
        Some(CommandRoute::Anonimo)
    } else if same_text(name, "definirmeta") {
        Some(CommandRoute::DefinirMeta)
    } else if same_text(name, "definircanais") {
        Some(CommandRoute::DefinirCanais)
    } else if same_text(name, "definircanal") {
        Some(CommandRoute::DefinirCanal)
    } else if same_text(name, "info") {
        Some(CommandRoute::Info)
    } else {
        None
    }
}

/// The handler of the form with the id `custom_id`.
pub fn route_modal(custom_id: &str) -> (r: Option<ModalRoute>)
    ensures
        r == modal_route(custom_id@),
{
    if same_text(custom_id, "goal") {
        Some(ModalRoute::Goal)
    } else {
        None
    }
}

/// The verdict behind the button with the id `custom_id`.
pub fn route_button(custom_id: &str) -> (r: Option<Verdict>)
    ensures
        r == button_route(custom_id@),
{
    if same_text(custom_id, "aprove") {
        Some(Verdict::Approved)
    } else if same_text(custom_id, "deny") {
        Some(Verdict::Rejected)
    } else {
        None
    }
}

} // verus!
