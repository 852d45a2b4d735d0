use vstd::prelude::*;
use crate::bot::models::command::{CommandSpec, command, command_is};

verus! {

/// What `register` gives: the command's name, description, options and
/// whether it is for administrators only.
pub open spec fn registration(c: CommandSpec) -> bool {
    &&& command_is(c, "meta"@, "Envie infos sobre a meta"@, 0, false)
}

/// The `/meta` command, without options: it opens the goal form.
pub fn register() -> (c: CommandSpec)
    ensures
        registration(c),
{
    let c = command("meta", "Envie infos sobre a meta", false);
    c
}

/// A short text field of a form.
pub struct InputSpec {
    pub label: String,
    pub custom_id: String,
    pub placeholder: String,
}

/// A form (modal) as the bot shows it.
pub struct ModalSpec {
    pub custom_id: String,
    pub title: String,
    pub inputs: Vec<InputSpec>,
}

/// A field has the given label, id and placeholder.
pub open spec fn input_is(i: InputSpec, label: Seq<char>, custom_id: Seq<char>, placeholder: Seq<char>) -> bool {
    &&& i.label@ == label
    &&& i.custom_id@ == custom_id
    &&& i.placeholder@ == placeholder
}

/// The form of `/meta`: the amount delivered and who delivered it.
pub fn goal_modal() -> (m: ModalSpec)
    ensures
        m.custom_id@ == "goal"@,
        m.title@ == "Entregar Meta"@,
        m.inputs@.len() == 2,
        input_is(m.inputs@[0], "Valor Entregue"@, "value"@, "Digite a quantidade entegue"@),
        input_is(m.inputs@[1], "Quem entregou"@, "who"@, "Digite a quem entregadou"@),
{
    let mut inputs: Vec<InputSpec> = Vec::new();
    inputs.push(
        InputSpec {
            label: "Valor Entregue".to_owned(),
            custom_id: "value".to_owned(),
            placeholder: "Digite a quantidade entegue".to_owned(),
        },
    );
    inputs.push(
        InputSpec {
            label: "Quem entregou".to_owned(),
            custom_id: "who".to_owned(),
            placeholder: "Digite a quem entregadou".to_owned(),
        },
    );
    ModalSpec { custom_id: "goal".to_owned(), title: "Entregar Meta".to_owned(), inputs }
}

} // verus!
