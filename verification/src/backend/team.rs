//! Per-team state of the classroom scoreboard: unlocked steps with their
//! unlock times, message counts, lag and the latest published statistics.

use vstd::prelude::*;
use std::collections::VecDeque;
use std::time::Instant;
use crate::assoc::{
    first_entry, lemma_listed_absent, lemma_listed_append, lemma_listed_first, lemma_listed_overwrite, listed,
    listed_map,
};
use crate::backend::achievements::{AchievementType, lemma_steps_complete, step_order};
use crate::clock::{instant_now, utc_now_millis};
use crate::text::{decimal, i64_decimal, push_char, signed_decimal, u64_decimal};

verus! {

/// Snapshot of team stats from the compacted topic.
#[derive(Debug, Clone, Copy, PartialEq, Eq, Structural)]
pub struct TeamStatsSnapshot {
    pub processed: u64,
    pub flagged: u64,
}

impl Default for TeamStatsSnapshot {
    fn default() -> (r: Self)
        ensures
            r.processed == 0 && r.flagged == 0,
    {
        TeamStatsSnapshot { processed: 0, flagged: 0 }
    }
}

/// The abstract state of a team.
pub struct TeamView {
    pub team_name: Seq<char>,
    pub achievements: Set<AchievementType>,
    pub action_count: u64,
    pub stats_count: u64,
    pub current_lag: i64,
    /// When each achievement was unlocked, in milliseconds since the epoch.
    pub achievement_timestamps: Map<AchievementType, i64>,
    /// When the team's session started, in milliseconds since the epoch.
    pub session_start: Option<i64>,
    pub last_action_time: Option<Instant>,
    pub last_stats_time: Option<Instant>,
    pub latest_stats: Option<TeamStatsSnapshot>,
    pub recent_actions: Seq<Instant>,
}

impl TeamView {
    /// The state after unlocking `a` at `unlocked_at`, a session that has
    /// not started starting at `session_started_at`.
    pub open spec fn unlocked(self, a: AchievementType, unlocked_at: i64, session_started_at: i64) -> TeamView {
        if self.achievements.contains(a) {
            self
        } else {
            TeamView {
                achievements: self.achievements.insert(a),
                achievement_timestamps: self.achievement_timestamps.insert(a, unlocked_at),
                session_start: match self.session_start {
                    Some(s) => Some(s),
                    None => Some(session_started_at),
                },
                ..self
            }
        }
    }
}

/// Whole minutes from `start` to `now` (milliseconds), truncated toward zero.
pub open spec fn minutes_between(now: int, start: int) -> int {
    let d = now - start;
    if d >= 0 {
        d / 60000
    } else {
        -((-d) / 60000)
    }
}

/// How a session length in whole minutes is displayed: `"{m}m"` below an
/// hour, `"{h}h {m}m"` from an hour on.
pub open spec fn minutes_label(mins: int) -> Seq<char> {
    if mins < 60 {
        signed_decimal(mins) + "m"@
    } else {
        decimal((mins / 60) as nat) + "h "@ + decimal((mins % 60) as nat) + "m"@
    }
}

/// The session length of a team up to `now_ms` as text: `"-"` before the
/// session starts, else its whole minutes as `minutes_label` shows them.
pub open spec fn session_since_label(session_start: Option<i64>, now_ms: int) -> Seq<char> {
    match session_start {
        Some(start) => minutes_label(minutes_between(now_ms, start as int)),
        None => "-"@,
    }
}

/// State for a single team.
#[derive(Debug, Clone)]
pub struct TeamState {
    pub team_name: String,
    /// Unlocked achievements; one listed twice counts once.
    pub achievements: Vec<AchievementType>,
    /// Valid messages to the actions topic.
    pub action_count: u64,
    /// Messages to the team_stats topic.
    pub stats_count: u64,
    /// Current consumer lag.
    pub current_lag: i64,
    /// When each achievement was unlocked (milliseconds since the epoch);
    /// the first entry for an achievement decides.
    pub achievement_timestamps: Vec<(AchievementType, i64)>,
    /// When this team's session started (milliseconds since the epoch).
    pub session_start: Option<i64>,
    /// When the last action was produced.
    pub last_action_time: Option<Instant>,
    /// When the last stats message was produced.
    pub last_stats_time: Option<Instant>,
    /// Latest stats from the compacted topic.
    pub latest_stats: Option<TeamStatsSnapshot>,
    /// Rolling window for the production rate.
    pub recent_actions: VecDeque<Instant>,
}

impl View for TeamState {
    type V = TeamView;

    open spec fn view(&self) -> TeamView {
        TeamView {
            team_name: self.team_name@,
            achievements: self.achievements@.to_set(),
            action_count: self.action_count,
            stats_count: self.stats_count,
            current_lag: self.current_lag,
            achievement_timestamps: listed_map(self.achievement_timestamps@),
            session_start: self.session_start,
            last_action_time: self.last_action_time,
            last_stats_time: self.last_stats_time,
            latest_stats: self.latest_stats,
            recent_actions: self.recent_actions@,
        }
    }
}

impl TeamState {
    /// A team with nothing unlocked and no activity.
    pub fn new(team_name: String) -> (r: Self)
        ensures
            r@ == (TeamView {
                team_name: team_name@,
                achievements: Set::empty(),
                action_count: 0,
                stats_count: 0,
                current_lag: 0,
                achievement_timestamps: Map::empty(),
                session_start: None,
                last_action_time: None,
                last_stats_time: None,
                latest_stats: None,
                recent_actions: Seq::empty(),
            }),
    {
        let r = TeamState {
            team_name,
            achievements: Vec::new(),
            action_count: 0,
            stats_count: 0,
            current_lag: 0,
            achievement_timestamps: Vec::new(),
            session_start: None,
            last_action_time: None,
            last_stats_time: None,
            latest_stats: None,
            recent_actions: VecDeque::new(),
        };
        assert(r.achievements@.to_set() =~= Set::empty());
        assert(listed_map(r.achievement_timestamps@) =~= Map::empty());
        r
    }

    /// Record a stats message: one more stats message, stamped now, with
    /// `stats` as the latest statistics.
    pub fn record_stats_message(&mut self, stats: TeamStatsSnapshot)
        requires
            old(self).stats_count < u64::MAX,
        ensures
            final(self).last_stats_time is Some,
            final(self)@ == (TeamView {
                stats_count: (old(self).stats_count + 1) as u64,
                latest_stats: Some(stats),
                last_stats_time: final(self).last_stats_time,
                ..old(self)@
            }),
    {
        let now = instant_now();
        self.record_stats_message_at(stats, now);
    }

    /// Record a valid action produced at `now`: one more action, stamped
    /// `now`, and `now` added to the rolling window.
    pub fn record_action_at(&mut self, now: Instant)
        requires
            old(self).action_count < u64::MAX,
        ensures
            final(self)@ == (TeamView {
                action_count: (old(self).action_count + 1) as u64,
                last_action_time: Some(now),
                recent_actions: old(self)@.recent_actions.push(now),
                ..old(self)@
            }),
    {
        self.action_count = self.action_count + 1;
        self.last_action_time = Some(now);
        self.recent_actions.push_back(now);
    }

    /// Record a stats message received at `now`, with `stats` as the latest
    /// statistics.
    pub fn record_stats_message_at(&mut self, stats: TeamStatsSnapshot, now: Instant)
        requires
            old(self).stats_count < u64::MAX,
        ensures
            final(self)@ == (TeamView {
                stats_count: (old(self).stats_count + 1) as u64,
                latest_stats: Some(stats),
                last_stats_time: Some(now),
                ..old(self)@
            }),
    {
        self.stats_count = self.stats_count + 1;
        self.last_stats_time = Some(now);
        self.latest_stats = Some(stats);
    }

    /// Unlock an achievement; true when it was not unlocked before. A new
    /// achievement is stamped with the current time, and the session starts
    /// now if it had not started.
    pub fn unlock_achievement(&mut self, achievement: AchievementType) -> (r: bool)
        ensures
            r == !old(self)@.achievements.contains(achievement),
            exists|t1: i64, t2: i64| final(self)@ == old(self)@.unlocked(achievement, t1, t2),
    {
        let t1 = utc_now_millis();
        let t2 = utc_now_millis();
        self.unlock_achievement_at(achievement, t1, t2)
    }

    /// Unlock an achievement at the given times (milliseconds since the
    /// epoch); true when it was not unlocked before.
    pub fn unlock_achievement_at(&mut self, achievement: AchievementType, unlocked_at: i64, session_started_at: i64) -> (r: bool)
        ensures
            r == !old(self)@.achievements.contains(achievement),
            final(self)@ == old(self)@.unlocked(achievement, unlocked_at, session_started_at),
    {
        if self.has_achievement(achievement) {
            return false;
        }
        self.achievements.push(achievement);
        proof {
            old(self).achievements@.lemma_push_to_set_commute(achievement);
        }
        let ghost before = self.achievement_timestamps@;
        match self.timestamp_entry(achievement) {
            Some(i) => {
                self.achievement_timestamps.set(i, (achievement, unlocked_at));
                proof {
                    lemma_listed_overwrite(before, achievement, i as int, unlocked_at);
                }
            },
            None => {
                self.achievement_timestamps.push((achievement, unlocked_at));
                proof {
                    lemma_listed_append(before, achievement, unlocked_at);
                }
            },
        }
        if self.session_start.is_none() {
            self.session_start = Some(session_started_at);
        }
        true
    }

    fn timestamp_entry(&self, achievement: AchievementType) -> (r: Option<usize>)
        ensures
            match r {
                Some(i) => first_entry(self.achievement_timestamps@, achievement, i as int),
                None => listed(self.achievement_timestamps@, achievement) is None,
            },
    {
        let mut i: usize = 0;
        while i < self.achievement_timestamps.len()
            invariant
                i <= self.achievement_timestamps.len(),
                forall|j: int| 0 <= j < i ==> self.achievement_timestamps@[j].0 != achievement,
            decreases self.achievement_timestamps.len() - i,
        {
            if self.achievement_timestamps[i].0 == achievement {
                return Some(i);
            }
            i = i + 1;
        }
        proof {
            lemma_listed_absent(self.achievement_timestamps@, achievement);
        }
        None
    }

    /// When `achievement` was unlocked, if a time is recorded for it.
    pub fn unlock_time(&self, achievement: AchievementType) -> (r: Option<i64>)
        ensures
            r == (if self@.achievement_timestamps.contains_key(achievement) {
                Some(self@.achievement_timestamps[achievement])
            } else {
                None::<i64>
            }),
    {
        match self.timestamp_entry(achievement) {
            Some(i) => {
                proof {
                    lemma_listed_first(self.achievement_timestamps@, achievement, i as int);
                }
                Some(self.achievement_timestamps[i].1)
            },
            None => None,
        }
    }

    /// Whether the team holds a specific achievement.
    pub fn has_achievement(&self, achievement: AchievementType) -> (r: bool)
        ensures
            r == self@.achievements.contains(achievement),
    {
        let mut i: usize = 0;
        while i < self.achievements.len()
            invariant
                i <= self.achievements.len(),
                forall|j: int| 0 <= j < i ==> self.achievements@[j] != achievement,
            decreases self.achievements.len() - i,
        {
            if self.achievements[i] == achievement {
                assert(self.achievements@.contains(achievement));
                return true;
            }
            i = i + 1;
        }
        assert(!self.achievements@.contains(achievement));
        false
    }

    /// Count of step achievements earned (for sorting); every achievement
    /// is a step.
    pub fn step_count(&self) -> (r: usize)
        ensures
            r == self@.achievements.len(),
            r <= 4,
    {
        let steps = AchievementType::all_steps();
        let mut count: usize = 0;
        let mut i: usize = 0;
        let ghost mut found: Set<AchievementType> = Set::empty();
        while i < 4
            invariant
                i <= 4,
                steps@ == step_order(),
                found.finite(),
                count == found.len(),
                count <= i,
                forall|a: AchievementType| #[trigger] found.contains(a) <==> (exists|j: int|
                    0 <= j < i && step_order()[j] == a && self@.achievements.contains(a)),
            decreases 4 - i,
        {
            let s = steps[i];
            let has = self.has_achievement(s);
            proof {
                let old_found = found;
                if has {
                    assert(!found.contains(s)) by {
                        lemma_steps_complete(s);
                        if found.contains(s) {
                            let j = choose|j: int| 0 <= j < i && step_order()[j] == s && self@.achievements.contains(s);
                            assert(step_order()[j] != step_order()[i as int]);
                        }
                    }
                    found = found.insert(s);
                }
                assert forall|a: AchievementType| #[trigger] found.contains(a) <==> (exists|j: int|
                    0 <= j < i + 1 && step_order()[j] == a && self@.achievements.contains(a)) by {
                    if found.contains(a) && a != s {
                        assert(old_found.contains(a));
                    }
                    if a == s && has {
                        assert(step_order()[i as int] == a);
                    }
                    if exists|j: int| 0 <= j < i + 1 && step_order()[j] == a && self@.achievements.contains(a) {
                        let j = choose|j: int| 0 <= j < i + 1 && step_order()[j] == a && self@.achievements.contains(a);
                        if j < i {
                            assert(old_found.contains(a));
                        }
                    }
                }
            }
            if has {
                count = count + 1;
            }
            i = i + 1;
        }
        proof {
            assert forall|a: AchievementType| #[trigger] found.contains(a) <==> self@.achievements.contains(a) by {
                lemma_steps_complete(a);
                if self@.achievements.contains(a) {
                    let j = choose|j: int| 0 <= j < step_order().len() && step_order()[j] == a;
                    assert(step_order()[j] == a);
                }
            }
            assert(found =~= self@.achievements);
        }
        count
    }

    /// Update lag tracking.
    pub fn update_lag(&mut self, new_lag: i64)
        ensures
            final(self)@ == (TeamView { current_lag: new_lag, ..old(self)@ }),
    {
        self.current_lag = new_lag;
    }

    /// The session duration as text, measured up to now: see
    /// `session_duration_at`.
    pub fn session_duration_display(&self) -> (r: String)
        ensures
            exists|now_ms: i64| r@ == #[trigger] session_since_label(self.session_start, now_ms as int),
    {
        let now = utc_now_millis();
        self.session_duration_at(now)
    }

    /// The session duration up to `now_ms` (milliseconds since the epoch) as
    /// text: `"-"` before the session starts, else whole minutes as
    /// `minutes_label` shows them.
    pub fn session_duration_at(&self, now_ms: i64) -> (r: String)
        ensures
            r@ == session_since_label(self.session_start, now_ms as int),
    {
        match self.session_start {
            Some(start) => {
                let d: i128 = now_ms as i128 - start as i128;
                let mins: i128 = if d >= 0 {
                    d / 60000
                } else {
                    -((-d) / 60000)
                };
                minutes_text(mins as i64)
            },
            None => {
                let s = String::from_str("-");
                s
            },
        }
    }
}

/// The text of a session length in whole minutes.
pub fn minutes_text(mins: i64) -> (r: String)
    ensures
        r@ == minutes_label(mins as int),
{
    proof {
        reveal_strlit("m");
        reveal_strlit("h ");
    }
    if mins < 60 {
        let mut s = i64_decimal(mins);
        push_char(&mut s, 'm');
        assert(s@ =~= signed_decimal(mins as int) + "m"@);
        s
    } else {
        let mut s = u64_decimal((mins / 60) as u64);
        s.append("h ");
        s.append(u64_decimal((mins % 60) as u64).as_str());
        push_char(&mut s, 'm');
        assert(s@ =~= decimal((mins / 60) as nat) + "h "@ + decimal((mins % 60) as nat) + "m"@);
        s
    }
}

/// Consumer group status for a team.
#[derive(Debug, Clone)]
pub struct ConsumerGroupStatus {
    pub team_name: String,
    pub state: GroupState,
    pub members: u32,
    pub lag: i64,
}

/// Consumer group state of a team.
#[derive(Debug, Clone, Copy, PartialEq, Eq, Structural)]
pub enum GroupState {
    Active,
    Rebalancing,
    Empty,
    Unknown,
}

/// The label of a group state.
pub open spec fn group_label(s: GroupState) -> Seq<char> {
    match s {
        GroupState::Active => "Active"@,
        GroupState::Rebalancing => "Rebalancing"@,
        GroupState::Empty => "Empty"@,
        GroupState::Unknown => "Unknown"@,
    }
}

impl GroupState {
    /// The label of this state, as it is displayed.
    pub fn label(&self) -> (r: &'static str)
        ensures
            r@ == group_label(*self),
    {
        match self {
            GroupState::Active => "Active",
            GroupState::Rebalancing => "Rebalancing",
            GroupState::Empty => "Empty",
            GroupState::Unknown => "Unknown",
        }
    }
}

} // verus!
