use vstd::prelude::*;

verus! {

/// The colour of an embed's side bar.
#[derive(Clone, Copy, Debug, PartialEq, Eq)]
pub enum Colour {
    /// Discord's light grey.
    LightGrey,
    /// A colour given by its red, green and blue parts.
    Rgb(u8, u8, u8),
}

/// An embed as the bot sends it: what the message builder is given.
pub struct EmbedSpec {
    pub title: Option<String>,
    pub description: String,
    pub footer: Option<String>,
    pub colour: Colour,
    /// Whether the embed is stamped with the time at which it is sent.
    pub timestamp: bool,
}

/// The title of an embed as characters.
pub open spec fn title_of(e: EmbedSpec) -> Option<Seq<char>> {
    match e.title {
        Some(t) => Some(t@),
        None => None,
    }
}

/// The footer of an embed as characters.
pub open spec fn footer_of(e: EmbedSpec) -> Option<Seq<char>> {
    match e.footer {
        Some(t) => Some(t@),
        None => None,
    }
}

/// An embed with `description` only: no title, no footer.
pub fn plain_embed(description: String, colour: Colour, timestamp: bool) -> (e: EmbedSpec)
    ensures
        e.title is None,
        e.footer is None,
        e.description@ == description@,
        e.colour == colour,
        e.timestamp == timestamp,
{
    EmbedSpec { title: None, description, footer: None, colour, timestamp }
}

} // verus!
