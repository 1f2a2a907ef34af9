pub mod apple_music;
pub mod config;
pub mod reconcile;
pub mod schedule;
pub mod spotify;
pub mod telegram;
pub mod text;
pub mod track;
