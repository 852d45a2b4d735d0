use vstd::prelude::*;
use crate::bot::commands;
use crate::bot::models::command::CommandSpec;
use crate::bot::events::interaction_create::command_route;

verus! {

/// The names of the commands the bot registers, in order.
pub open spec fn registered_command_names() -> Seq<Seq<char>> {
    seq!["meta"@, "canal"@, "anonimo"@, "definirmeta"@, "definircanais"@, "definircanal"@, "info"@]
}

/// The slash commands the bot registers in its guild: each exactly as its
/// module's `register` gives it.
pub fn register_commands() -> (r: Vec<CommandSpec>)
    ensures
        r@.len() == registered_command_names().len(),
        forall|i: int| 0 <= i < r@.len() ==> #[trigger] r@[i].name@ == registered_command_names()[i],
        commands::meta::registration(r@[0]),
        commands::canal::registration(r@[1]),
        commands::anonimo::registration(r@[2]),
        commands::definirmeta::registration(r@[3]),
        commands::definircanais::registration(r@[4]),
        commands::definircanal::registration(r@[5]),
        commands::info::registration(r@[6]),
{
    let mut r: Vec<CommandSpec> = Vec::new();
    r.push(commands::meta::register());
    r.push(commands::canal::register());
    r.push(commands::anonimo::register());
    r.push(commands::definirmeta::register());
    r.push(commands::definircanais::register());
    r.push(commands::definircanal::register());
    r.push(commands::info::register());
    r
}

/// Every command the bot registers reaches a handler of its own: the
/// interaction handler routes each registered name, and no two to the same
/// handler.
pub proof fn registered_commands_are_routed()
    ensures
        forall|i: int| 0 <= i < registered_command_names().len() ==> #[trigger] command_route(registered_command_names()[i]) is Some,
        forall|i: int, j: int|
            0 <= i < j < registered_command_names().len() ==> #[trigger] command_route(registered_command_names()[i])
                != #[trigger] command_route(registered_command_names()[j]),
{
    reveal_strlit("meta");
    reveal_strlit("canal");
    reveal_strlit("anonimo");
    reveal_strlit("definirmeta");
    reveal_strlit("definircanais");
    reveal_strlit("definircanal");
    reveal_strlit("info");
    let names = registered_command_names();
    assert(names[0] == "meta"@);
    assert(names[1] == "canal"@);
    assert(names[2] == "anonimo"@);
    assert(names[3] == "definirmeta"@);
    assert(names[4] == "definircanais"@);
    assert(names[5] == "definircanal"@);
    assert(names[6] == "info"@);
    assert("meta"@.len() == 4 && "canal"@.len() == 5 && "anonimo"@.len() == 7);
    assert("definirmeta"@.len() == 11 && "definircanais"@.len() == 13 && "definircanal"@.len() == 12);
    assert("info"@.len() == 4 && "info"@[0] != "meta"@[0]);
}

} // verus!
