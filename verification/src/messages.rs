//! The messages exchanged over the tutorial's topics: generated users,
//! actions that teams produce, team statistics and watchlist entries.

use vstd::prelude::*;

verus! {

/// A generated user, as the producer publishes it to `new_users`.
#[derive(Debug, Clone)]
pub struct User {
    pub email: String,
    pub credit_card_number: String,
    pub company_name: String,
    pub company_slogan: String,
    pub industry: String,
    pub user_name: String,
    pub avatar: String,
    pub name: String,
    pub profession: String,
    pub field: String,
    pub premium: bool,
    pub credit: i32,
    pub time_zone: String,
    pub user_agent: String,
    pub pack: String,
}

/// An action a team produces to the `actions` topic.
#[derive(Debug, Clone)]
pub struct Action {
    pub customer: Option<String>,
    /// Serialized under the key `type`.
    pub action_type: Option<String>,
    pub reason: Option<String>,
    pub team: String,
}

impl Action {
    /// An action with every field present.
    pub fn new(customer: &str, action_type: &str, reason: &str, team: &str) -> (r: Self)
        ensures
            r.customer matches Some(c) && c@ == customer@,
            r.action_type matches Some(t) && t@ == action_type@,
            r.reason matches Some(x) && x@ == reason@,
            r.team@ == team@,
    {
        Action {
            customer: Some(customer.to_owned()),
            action_type: Some(action_type.to_owned()),
            reason: Some(reason.to_owned()),
            team: team.to_owned(),
        }
    }
}

/// Processing statistics a team publishes to `team_stats`.
#[derive(Debug, Clone)]
pub struct TeamStats {
    pub team: String,
    pub processed: u64,
    pub flagged: u64,
}

impl TeamStats {
    /// Statistics for `team`.
    pub fn new(team: &str, processed: u64, flagged: u64) -> (r: Self)
        ensures
            r.team@ == team@,
            r.processed == processed,
            r.flagged == flagged,
    {
        TeamStats { team: team.to_owned(), processed, flagged }
    }
}

/// A company a team flagged often enough to watch.
#[derive(Debug, Clone)]
pub struct WatchlistEntry {
    pub team: String,
    pub company: String,
    pub flag_count: u32,
}

} // verus!
