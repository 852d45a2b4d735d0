pub mod leaderboard;
pub mod reminder;
