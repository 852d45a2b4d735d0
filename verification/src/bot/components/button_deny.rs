use vstd::prelude::*;
use crate::bot::models::embed::{Colour, EmbedSpec, footer_of, title_of};
use crate::bot::utils::text::{decimal, signed_decimal, push_decimal, push_signed};
use crate::bot::utils::{amount_text, format_amount};
use crate::bot::utils::{remaining_amount, remaining_text};

verus! {

/// The moderator's private confirmation of a rejection.
pub fn denied_reply_embed() -> (e: EmbedSpec)
    ensures
        e.description@ == "Você negou a meta com sucesso!"@,
        title_of(e) == None::<Seq<char>>,
        footer_of(e) == None::<Seq<char>>,
        e.colour == Colour::LightGrey,
        e.timestamp == false,
{
    let description = "Você negou a meta com sucesso!".to_owned();
    EmbedSpec {
        title: None,
        description,
        footer: None,
        colour: Colour::LightGrey,
        timestamp: false,
    }
}

/// The message to a user whose goal was rejected: the amount, the moderator, and what is left of the weekly goal.
pub open spec fn denied_user_description_text(amount: i64, moderator: u64, total: i32, current_meta: i64) -> Seq<char> {
    "A sua meta foi reprovada!\n━━━━━━━━━━━━━━━━━━━━━━━━\n💰 **Valor Reprovado:** `"@
        + amount_text((amount as u64) as nat)
        + "`\n🔴 **Status:** `Reprovada`\n🛡️ **Reprovado por:** <@"@
        + decimal(moderator as nat)
        + ">\n📊 **Valor Restante:** `"@
        + remaining_text(total as i64, current_meta)
        + "`\n━━━━━━━━━━━━━━━━━━━━━━━━"@
}

/// The message to a user whose goal was rejected: the amount, the moderator, and what is left of the weekly goal.
pub fn denied_user_description(amount: i64, moderator: u64, total: i32, current_meta: i64) -> (s: String)
    ensures
        s@ == denied_user_description_text(amount, moderator, total, current_meta),
{
    let mut s = String::new();
    s.append("A sua meta foi reprovada!\n━━━━━━━━━━━━━━━━━━━━━━━━\n💰 **Valor Reprovado:** `");
    let amount1 = format_amount(amount as u64);
    s.append(amount1.as_str());
    s.append("`\n🔴 **Status:** `Reprovada`\n🛡️ **Reprovado por:** <@");
    push_decimal(&mut s, moderator);
    s.append(">\n📊 **Valor Restante:** `");
    let remaining2 = remaining_amount(total as i64, current_meta);
    s.append(remaining2.as_str());
    s.append("`\n━━━━━━━━━━━━━━━━━━━━━━━━");
    s
}

/// The message to the user whose goal was rejected.
pub fn denied_user_embed(amount: i64, moderator: u64, total: i32, current_meta: i64) -> (e: EmbedSpec)
    ensures
        e.description@ == denied_user_description_text(amount, moderator, total, current_meta),
        title_of(e) == Some("Meta Reprovada"@),
        footer_of(e) == None::<Seq<char>>,
        e.colour == Colour::LightGrey,
        e.timestamp == false,
{
    let title = "Meta Reprovada".to_owned();
    let description = denied_user_description(amount, moderator, total, current_meta);
    EmbedSpec {
        title: Some(title),
        description,
        footer: None,
        colour: Colour::LightGrey,
        timestamp: false,
    }
}

/// The log entry of a rejected goal.
pub open spec fn denied_log_text(author: i64, amount: i64, moderator: u64) -> Seq<char> {
    "❌ **Meta Reprovada**\n━━━━━━━━━━━━━━━━━━━━━━━━\n👤 **Entregue por:** <@"@
        + signed_decimal(author as int)
        + ">\n💰 **Valor da Meta:** `"@
        + amount_text((amount as u64) as nat)
        + "`\n🔴 **Status:** `Reprovada`\n🛡️ **Reprovado por:** <@"@
        + decimal(moderator as nat)
        + ">\n━━━━━━━━━━━━━━━━━━━━━━━━"@
}

/// The log entry of a rejected goal.
pub fn denied_log(author: i64, amount: i64, moderator: u64) -> (s: String)
    ensures
        s@ == denied_log_text(author, amount, moderator),
{
    let mut s = String::new();
    s.append("❌ **Meta Reprovada**\n━━━━━━━━━━━━━━━━━━━━━━━━\n👤 **Entregue por:** <@");
    push_signed(&mut s, author as i64);
    s.append(">\n💰 **Valor da Meta:** `");
    let amount1 = format_amount(amount as u64);
    s.append(amount1.as_str());
    s.append("`\n🔴 **Status:** `Reprovada`\n🛡️ **Reprovado por:** <@");
    push_decimal(&mut s, moderator);
    s.append(">\n━━━━━━━━━━━━━━━━━━━━━━━━");
    s
}

} // verus!
