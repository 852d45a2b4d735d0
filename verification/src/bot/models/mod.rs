pub mod client;
pub mod command;
pub mod embed;
pub mod intents;
