use vstd::prelude::*;
use crate::bot::models::command::{CommandSpec, OptionKind, command, command_is, option, option_is};

verus! {

/// What `register` gives: the command's name, description, options and
/// whether it is for administrators only.
pub open spec fn registration(c: CommandSpec) -> bool {
    &&& command_is(c, "setmeta"@, "Defina a meta semanal de dinheiro sujo"@, 1, false)
    &&& option_is(c.options@[0], OptionKind::Integer, "quantidade"@, "A quantidade de dinheiro sujo (ex: 1000000)."@, true)
}

/// The `/setmeta` command: the weekly goal.
pub fn register() -> (c: CommandSpec)
    ensures
        registration(c),
{
    let mut c = command("setmeta", "Defina a meta semanal de dinheiro sujo", false);
    c.options.push(option(OptionKind::Integer, "quantidade", "A quantidade de dinheiro sujo (ex: 1000000).", true));
    c
}

} // verus!
