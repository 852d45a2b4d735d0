use vstd::prelude::*;
use crate::bot::models::embed::{Colour, EmbedSpec, plain_embed};

verus! {

/// The embed of an entry of the log channel: the message, stamped with the
/// time, in light grey.
pub fn log_embed(message: String) -> (e: EmbedSpec)
    ensures
        e.title is None,
        e.footer is None,
        e.description@ == message@,
        e.colour == Colour::LightGrey,
        e.timestamp,
{
    plain_embed(message, Colour::LightGrey, true)
}

} // verus!
