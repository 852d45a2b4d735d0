use vstd::prelude::*;

verus! {

/// The type of value a slash-command option takes.
#[derive(Clone, Copy, Debug, PartialEq, Eq)]
pub enum OptionKind {
    String,
    Integer,
    Channel,
    User,
}

/// An option of a slash command.
pub struct OptionSpec {
    pub kind: OptionKind,
    pub name: String,
    pub description: String,
    pub required: bool,
}

/// A slash command as the bot registers it with Discord.
pub struct CommandSpec {
    pub name: String,
    pub description: String,
    pub options: Vec<OptionSpec>,
    /// Only administrators may use it by default.
    pub admin_only: bool,
}

/// The value a user gave for an option of a slash command.
pub enum OptionValue {
    String(String),
    Integer(i64),
    Channel(u64),
    User(u64),
    /// A value of another type (a number, a role, an attachment, ...).
    Other,
}

/// An option has the given kind, name, description and requiredness.
pub open spec fn option_is(o: OptionSpec, kind: OptionKind, name: Seq<char>, description: Seq<char>, required: bool) -> bool {
    &&& o.kind == kind
    &&& o.name@ == name
    &&& o.description@ == description
    &&& o.required == required
}

/// A command has the given name and description and the given number of
/// options.
pub open spec fn command_is(c: CommandSpec, name: Seq<char>, description: Seq<char>, n_options: nat, admin_only: bool) -> bool {
    &&& c.name@ == name
    &&& c.description@ == description
    &&& c.options@.len() == n_options
    &&& c.admin_only == admin_only
}

/// A command option.
pub fn option(kind: OptionKind, name: &str, description: &str, required: bool) -> (o: OptionSpec)
    ensures
        option_is(o, kind, name@, description@, required),
{
    OptionSpec { kind, name: name.to_owned(), description: description.to_owned(), required }
}

/// A command with no options.
pub fn command(name: &str, description: &str, admin_only: bool) -> (c: CommandSpec)
    ensures
        command_is(c, name@, description@, 0, admin_only),
{
    CommandSpec { name: name.to_owned(), description: description.to_owned(), options: Vec::new(), admin_only }
}

/// The text of a string option, as `as_str` gives it.
pub open spec fn option_text(v: OptionValue) -> Option<Seq<char>> {
    match v {
        OptionValue::String(s) => Some(s@),
        _ => None,
    }
}

/// The text of a string option value.
pub fn as_str(v: &OptionValue) -> (r: Option<String>)
    ensures
        match r {
            Some(s) => option_text(*v) == Some(s@),
            None => option_text(*v) is None,
        },
{
    match v {
        OptionValue::String(s) => Some(s.clone()),
        _ => None,
    }
}

/// The number of an integer option value.
pub fn as_i64(v: &OptionValue) -> (r: Option<i64>)
    ensures
        r == (match *v {
            OptionValue::Integer(n) => Some(n),
            _ => None::<i64>,
        }),
{
    match v {
        OptionValue::Integer(n) => Some(*n),
        _ => None,
    }
}

/// The channel of a channel option value.
pub fn as_channel_id(v: &OptionValue) -> (r: Option<u64>)
    ensures
        r == (match *v {
            OptionValue::Channel(n) => Some(n),
            _ => None::<u64>,
        }),
{
    match v {
        OptionValue::Channel(n) => Some(*n),
        _ => None,
    }
}

/// The user of a user option value.
pub fn as_user_id(v: &OptionValue) -> (r: Option<u64>)
    ensures
        r == (match *v {
            OptionValue::User(n) => Some(n),
            _ => None::<u64>,
        }),
{
    match v {
        OptionValue::User(n) => Some(*n),
        _ => None,
    }
}

} // verus!
