//! Settings of the scoreboard, with the defaults that a settings file may
//! leave out.

use vstd::prelude::*;

verus! {

/// All settings.
#[derive(Debug, Clone)]
pub struct Settings {
    pub kafka: KafkaSettings,
    pub topics: TopicSettings,
    pub scoring: ScoringSettings,
    pub achievements: AchievementSettings,
}

/// How to reach the brokers.
#[derive(Debug, Clone)]
pub struct KafkaSettings {
    pub brokers: String,
    pub username: String,
    pub password: String,
    pub consumer_group: String,
    pub security_protocol: String,
    pub sasl_mechanism: String,
}

/// The security protocol used when none is set.
pub fn default_security_protocol() -> (r: String)
    ensures
        r@ == "SASL_PLAINTEXT"@,
{
    "SASL_PLAINTEXT".to_owned()
}

/// The SASL mechanism used when none is set.
pub fn default_sasl_mechanism() -> (r: String)
    ensures
        r@ == "PLAIN"@,
{
    "PLAIN".to_owned()
}

impl KafkaSettings {
    /// The broker settings from the values a settings file gives; a missing
    /// security protocol or SASL mechanism takes its default.
    pub fn from_fields(
        brokers: String,
        username: String,
        password: String,
        consumer_group: String,
        security_protocol: Option<String>,
        sasl_mechanism: Option<String>,
    ) -> (r: Self)
        ensures
            r.brokers == brokers,
            r.username == username,
            r.password == password,
            r.consumer_group == consumer_group,
            r.security_protocol@ == (match security_protocol {
                Some(p) => p@,
                None => "SASL_PLAINTEXT"@,
            }),
            r.sasl_mechanism@ == (match sasl_mechanism {
                Some(m) => m@,
                None => "PLAIN"@,
            }),
    {
        let security_protocol = match security_protocol {
            Some(p) => p,
            None => default_security_protocol(),
        };
        let sasl_mechanism = match sasl_mechanism {
            Some(m) => m,
            None => default_sasl_mechanism(),
        };
        KafkaSettings { brokers, username, password, consumer_group, security_protocol, sasl_mechanism }
    }
}

/// The topics read and written.
#[derive(Debug, Clone)]
pub struct TopicSettings {
    pub new_users: String,
    pub actions: String,
    pub team_stats: String,
    pub scorer_state: String,
}

/// Scoring settings.
#[derive(Debug, Clone, Copy)]
pub struct ScoringSettings {
    pub user_cache_max_size: usize,
}

impl Default for ScoringSettings {
    fn default() -> (r: Self)
        ensures
            r.user_cache_max_size == 10000,
    {
        ScoringSettings { user_cache_max_size: 10000 }
    }
}

/// Configurable thresholds for achievements.
#[derive(Debug, Clone, Copy)]
pub struct AchievementSettings {
    /// Member count for the Scaled achievement (default: 2 consumers).
    pub scaled_members: u32,
}

/// The member count for the Scaled achievement when none is set.
pub fn default_scaled() -> (r: u32)
    ensures
        r == 2,
{
    2
}

impl Default for AchievementSettings {
    fn default() -> (r: Self)
        ensures
            r.scaled_members == 2,
    {
        AchievementSettings { scaled_members: default_scaled() }
    }
}

impl AchievementSettings {
    /// The thresholds from a settings file; a missing member count takes
    /// its default.
    pub fn from_fields(scaled_members: Option<u32>) -> (r: Self)
        ensures
            r.scaled_members == (match scaled_members {
                Some(n) => n,
                None => 2,
            }),
    {
        match scaled_members {
            Some(n) => AchievementSettings { scaled_members: n },
            None => AchievementSettings::default(),
        }
    }
}

} // verus!
