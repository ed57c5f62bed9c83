//! Events of the leaderboard's topics as they are buffered for display.

use vstd::prelude::*;
use std::time::Instant;
use crate::clock::{elapsed_secs, instant_now};
use crate::event_buffer::{age_label, age_text};

verus! {

/// A buffered event with its metadata.
#[derive(Debug, Clone)]
pub struct BufferedEvent {
    /// Raw JSON (compact, single line).
    pub json: String,
    /// The team, where it can be told (none for new_users).
    pub team: Option<String>,
    /// When the event was received.
    pub received_at: Instant,
}

impl BufferedEvent {
    /// An event received now.
    pub fn new(json: String, team: Option<String>) -> (r: Self)
        ensures
            r.json == json,
            r.team == team,
    {
        BufferedEvent { json, team, received_at: instant_now() }
    }

    /// How long ago the event arrived ("2s", "1m", "5m+"); the age is read
    /// from the clock and shown as `age_text` shows it.
    pub fn relative_time(&self) -> (r: String)
        ensures
            exists|secs: u64| r@ == #[trigger] age_label(secs as nat),
    {
        age_text(elapsed_secs(&self.received_at))
    }
}

} // verus!
