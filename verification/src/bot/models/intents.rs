use vstd::prelude::*;

verus! {

/// The gateway events the bot subscribes to.
#[derive(Clone, Copy, Debug, PartialEq, Eq)]
pub enum GatewayIntent {
    GuildMessages,
    DirectMessages,
    MessageContent,
}

/// The intents the bot connects with: guild messages, direct messages and
/// message content.
pub fn default_itents() -> (r: Vec<GatewayIntent>)
    ensures
        r@ == seq![GatewayIntent::GuildMessages, GatewayIntent::DirectMessages, GatewayIntent::MessageContent],
{
    let mut r: Vec<GatewayIntent> = Vec::new();
    r.push(GatewayIntent::GuildMessages);
    r.push(GatewayIntent::DirectMessages);
    r.push(GatewayIntent::MessageContent);
    r
}

} // verus!
