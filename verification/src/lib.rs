//! Verified core of the Kafka tutorial classroom: achievement rules, team
//! scoreboards, leaderboard ordering, navigation state, event buffers,
//! message validation, client configurations and the simulated team
//! filters.

pub mod assoc;
pub mod backend;
pub mod clock;
pub mod event_buffer;
pub mod kafka;
pub mod keys;
pub mod leaderboard;
pub mod messages;
pub mod producer;
pub mod ranking;
pub mod roster;
pub mod simulator;
pub mod text;
