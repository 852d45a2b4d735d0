pub mod bot;
pub mod db;
pub mod scheduler;
