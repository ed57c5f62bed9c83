//! The classroom simulator: the team filters, the statistics and watchlist
//! counts of a simulated team, what a team does with each user it reads,
//! and the simulator's settings.

pub mod config;
pub mod filters;
pub mod laws;
pub mod stats;
pub mod team;
pub mod watchlist;
