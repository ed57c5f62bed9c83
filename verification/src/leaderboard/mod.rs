//! The classroom leaderboard: achievements, team state, scoring of consumer
//! groups, validation of actions, navigation and shared state, buffered
//! events, widget texts, client configurations and settings.

pub mod achievements;
pub mod admin;
pub mod app;
pub mod config;
pub mod events;
pub mod laws;
pub mod scoring;
pub mod team;
pub mod validation;
pub mod widgets;
