//! The classroom scoreboard: step achievements, team state, the shared state
//! and its updates, what the screen shows, navigation, buffered events,
//! settings and the consumer group monitor's decisions.

pub mod achievements;
pub mod app_state;
pub mod board;
pub mod config;
pub mod events;
pub mod laws;
pub mod monitor;
pub mod team;
pub mod ui_state;
