pub mod text;
pub mod game;
pub mod world;
pub mod milestone;
pub mod mastery;
pub mod journey;
pub mod ordeal;
pub mod obelisk;
pub mod lore;
pub mod feedback;
pub mod loot;
pub mod merchant;
pub mod trade;
pub mod chance;
pub mod kill;
pub mod kill_log;
pub mod config;
pub mod target;
