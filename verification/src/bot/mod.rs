pub mod commands;
pub mod components;
pub mod events;
pub mod handlers;
pub mod models;
pub mod utils;
