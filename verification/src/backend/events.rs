//! Events of the scoreboard's topics as they are buffered for display.

use vstd::prelude::*;
use std::time::Instant;
use crate::clock::{elapsed_secs, instant_now};
use crate::event_buffer::{age_label, age_text};
use crate::messages::{Action, WatchlistEntry};

verus! {

/// Parsed event data, kept so that rendering does not parse again.
#[derive(Debug, Clone)]
pub enum ParsedEventData {
    /// new_users: the pretty-printed JSON for display.
    NewUser { pretty_json: String },
    /// actions: the parsed action and whether it is valid.
    Action { action: Action, is_valid: bool },
    /// watchlist: the parsed entry.
    Watchlist(WatchlistEntry),
    /// Failed to parse.
    Invalid,
}

/// A buffered event with its metadata.
#[derive(Debug, Clone)]
pub struct BufferedEvent {
    /// Raw JSON (compact, single line).
    pub json: String,
    /// The team, where it can be told (none for new_users).
    pub team: Option<String>,
    /// When the event was received.
    pub received_at: Instant,
    /// Parsed data for rendering.
    pub parsed: Option<ParsedEventData>,
}

impl BufferedEvent {
    /// A new_users event, received now.
    pub fn new_user(compact_json: String, pretty_json: String) -> (r: Self)
        ensures
            r.json == compact_json,
            r.team is None,
            r.parsed == Some(ParsedEventData::NewUser { pretty_json }),
    {
        BufferedEvent {
            json: compact_json,
            team: None,
            received_at: instant_now(),
            parsed: Some(ParsedEventData::NewUser { pretty_json }),
        }
    }

    /// A parsed action event, valid or not, received now; its team is the
    /// action's.
    pub fn action(compact_json: String, action: Action, is_valid: bool) -> (r: Self)
        ensures
            r.json == compact_json,
            r.team matches Some(t) && t@ == action.team@,
            r.parsed == Some(ParsedEventData::Action { action, is_valid }),
    {
        let team = Some(action.team.clone());
        BufferedEvent {
            json: compact_json,
            team,
            received_at: instant_now(),
            parsed: Some(ParsedEventData::Action { action, is_valid }),
        }
    }

    /// An action event that could not be parsed, received now.
    pub fn invalid_action(compact_json: String, team: Option<String>) -> (r: Self)
        ensures
            r.json == compact_json,
            r.team == team,
            r.parsed == Some(ParsedEventData::Invalid),
    {
        BufferedEvent { json: compact_json, team, received_at: instant_now(), parsed: Some(ParsedEventData::Invalid) }
    }

    /// A watchlist event, received now; its team is the entry's.
    pub fn watchlist(compact_json: String, entry: WatchlistEntry) -> (r: Self)
        ensures
            r.json == compact_json,
            r.team matches Some(t) && t@ == entry.team@,
            r.parsed == Some(ParsedEventData::Watchlist(entry)),
    {
        let team = Some(entry.team.clone());
        BufferedEvent {
            json: compact_json,
            team,
            received_at: instant_now(),
            parsed: Some(ParsedEventData::Watchlist(entry)),
        }
    }

    /// How long ago the event arrived ("2s", "1m", "5m+"); the age is read
    /// from the clock and shown as `age_text` shows it.
    pub fn relative_time(&self) -> (r: String)
        ensures
            exists|secs: u64| r@ == #[trigger] age_label(secs as nat),
    {
        age_text(elapsed_secs(&self.received_at))
    }
}

} // verus!
