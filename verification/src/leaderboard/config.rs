//! Settings of the leaderboard.

use vstd::prelude::*;

verus! {

/// All settings.
#[derive(Debug, Clone)]
pub struct Settings {
    pub kafka: KafkaSettings,
    pub topics: TopicSettings,
    pub scoring: ScoringSettings,
}

/// How to reach the brokers.
#[derive(Debug, Clone)]
pub struct KafkaSettings {
    pub brokers: String,
    pub username: String,
    pub password: String,
    pub consumer_group: String,
}

/// The topics read and written.
#[derive(Debug, Clone)]
pub struct TopicSettings {
    pub new_users: String,
    pub actions: String,
    pub watchlist: String,
    pub scorer_state: String,
}

/// Scoring settings.
#[derive(Debug, Clone, Copy)]
pub struct ScoringSettings {
    pub points_per_correct: u32,
    pub user_cache_max_size: usize,
}

impl Default for ScoringSettings {
    fn default() -> (r: Self)
        ensures
            r.points_per_correct == 10,
            r.user_cache_max_size == 10000,
    {
        ScoringSettings { points_per_correct: 10, user_cache_max_size: 10000 }
    }
}

} // verus!
