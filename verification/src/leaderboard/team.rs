//! Per-team scoring state of the classroom leaderboard: unlocked
//! achievements, error counts and lag tracking.

use vstd::prelude::*;
use crate::assoc::{
    first_entry, lemma_listed_absent, lemma_listed_append, lemma_listed_first, lemma_listed_overwrite, listed,
    listed_map,
};
use crate::leaderboard::achievements::{
    AchievementType, champion_order, error_kind, every_achievement, lemma_groups_partition, step_kind,
    step_order,
};

verus! {

/// The count of `a` in a map of counts, zero when absent.
pub open spec fn count_or_zero(m: Map<AchievementType, u32>, a: AchievementType) -> nat {
    if m.contains_key(a) {
        m[a] as nat
    } else {
        0
    }
}

/// The sum of the counts of the given achievements.
pub open spec fn sum_counts(m: Map<AchievementType, u32>, keys: Seq<AchievementType>) -> nat
    decreases keys.len(),
{
    if keys.len() == 0 {
        0
    } else {
        sum_counts(m, keys.drop_last()) + count_or_zero(m, keys.last())
    }
}

/// The abstract state of a team.
pub struct TeamStateView {
    pub team_name: Seq<char>,
    pub achievements: Set<AchievementType>,
    pub action_count: u64,
    pub watchlist_count: u64,
    pub error_counts: Map<AchievementType, u32>,
    pub max_lag_seen: i64,
    pub current_lag: i64,
    pub messages_consumed: u64,
    pub clean_streak_count: u64,
}

/// Valid actions a team needs for HighThroughput.
pub const HIGH_THROUGHPUT_ACTIONS: u64 = 100;

/// Messages in a row without an error a team needs for CleanStreak.
pub const CLEAN_STREAK_MESSAGES: u64 = 50;

impl TeamStateView {
    /// The team's state after unlocking `a`.
    pub open spec fn unlocked(self, a: AchievementType) -> TeamStateView {
        TeamStateView { achievements: self.achievements.insert(a), ..self }
    }

    /// The team's state after recording an error of type `e`: an error
    /// also ends the team's clean streak.
    pub open spec fn error_recorded(self, e: AchievementType) -> TeamStateView {
        if error_kind(e) {
            TeamStateView {
                achievements: self.achievements.insert(e),
                error_counts: self.error_counts.insert(e, (count_or_zero(self.error_counts, e) + 1) as u32),
                clean_streak_count: 0,
                ..self
            }
        } else {
            self
        }
    }

    /// The team's state after one more of its messages was consumed.
    pub open spec fn consumed(self) -> TeamStateView {
        TeamStateView { messages_consumed: (self.messages_consumed + 1) as u64, ..self }
    }

    /// The team's state after one more message without an error.
    pub open spec fn streak_extended(self) -> TeamStateView {
        TeamStateView { clean_streak_count: (self.clean_streak_count + 1) as u64, ..self }
    }

    /// The team's state after a valid action: it counts as an action and
    /// extends the clean streak, unlocks the first load, HighThroughput at
    /// one hundred valid actions and CleanStreak at fifty messages in a row
    /// without an error.
    pub open spec fn valid_scored(self) -> TeamStateView {
        let t1 = TeamStateView { action_count: (self.action_count + 1) as u64, ..self }.streak_extended().unlocked(
            AchievementType::FirstLoad,
        );
        let t2 = if t1.action_count >= HIGH_THROUGHPUT_ACTIONS {
            t1.unlocked(AchievementType::HighThroughput)
        } else {
            t1
        };
        if t2.clean_streak_count >= CLEAN_STREAK_MESSAGES {
            t2.unlocked(AchievementType::CleanStreak)
        } else {
            t2
        }
    }

    /// The team's state after observing lag `lag`.
    pub open spec fn lag_updated(self, lag: i64) -> TeamStateView {
        TeamStateView {
            current_lag: lag,
            max_lag_seen: if lag > self.max_lag_seen { lag } else { self.max_lag_seen },
            ..self
        }
    }

    /// The step achievements the team holds.
    pub open spec fn steps_done(self) -> Set<AchievementType> {
        self.achievements.filter(|a: AchievementType| step_kind(a))
    }

    /// The total of the team's error counts.
    pub open spec fn error_total(self) -> nat {
        sum_counts(self.error_counts, every_achievement())
    }

    /// Whether the team had a lag of one hundred or more and has caught up.
    pub open spec fn lag_buster_ready(self) -> bool {
        self.max_lag_seen >= 100 && self.current_lag == 0
    }

    /// Whether the team holds every achievement Champion asks for.
    pub open spec fn champion_ready(self) -> bool {
        forall|i: int| 0 <= i < champion_order().len() ==> self.achievements.contains(#[trigger] champion_order()[i])
    }
}

/// State for a single team.
#[derive(Debug, Clone)]
pub struct TeamState {
    pub team_name: String,
    /// Unlocked achievements; an achievement listed twice counts once.
    pub achievements: Vec<AchievementType>,
    /// Valid messages to the actions topic.
    pub action_count: u64,
    /// Messages to the watchlist topic.
    pub watchlist_count: u64,
    /// Counts of ParseError and MissingFields; the first entry for a type decides.
    pub error_counts: Vec<(AchievementType, u32)>,
    /// Peak lag ever observed (for LagBuster).
    pub max_lag_seen: i64,
    /// Current consumer lag.
    pub current_lag: i64,
    /// Messages of the team read from the actions topic, valid or not.
    pub messages_consumed: u64,
    /// Messages in a row without an error.
    pub clean_streak_count: u64,
}

impl View for TeamState {
    type V = TeamStateView;

    open spec fn view(&self) -> TeamStateView {
        TeamStateView {
            team_name: self.team_name@,
            achievements: self.achievements@.to_set(),
            action_count: self.action_count,
            watchlist_count: self.watchlist_count,
            error_counts: listed_map(self.error_counts@),
            max_lag_seen: self.max_lag_seen,
            current_lag: self.current_lag,
            messages_consumed: self.messages_consumed,
            clean_streak_count: self.clean_streak_count,
        }
    }
}

/// The counts are monotone in the list of keys summed over.
pub proof fn lemma_sum_counts_prefix(m: Map<AchievementType, u32>, keys: Seq<AchievementType>, i: int)
    requires
        0 <= i <= keys.len(),
    ensures
        sum_counts(m, keys.take(i)) <= sum_counts(m, keys),
    decreases keys.len() - i,
{
    if i < keys.len() {
        lemma_sum_counts_prefix(m, keys, i + 1);
        assert(keys.take(i + 1).drop_last() =~= keys.take(i));
    } else {
        assert(keys.take(i) =~= keys);
    }
}

impl TeamState {
    /// A team with nothing unlocked, no errors and no lag.
    pub fn new(team_name: String) -> (r: Self)
        ensures
            r@ == (TeamStateView {
                team_name: team_name@,
                achievements: Set::empty(),
                action_count: 0,
                watchlist_count: 0,
                error_counts: Map::empty(),
                max_lag_seen: 0,
                current_lag: 0,
                messages_consumed: 0,
                clean_streak_count: 0,
            }),
    {
        let r = TeamState {
            team_name,
            achievements: Vec::new(),
            action_count: 0,
            watchlist_count: 0,
            error_counts: Vec::new(),
            max_lag_seen: 0,
            current_lag: 0,
            messages_consumed: 0,
            clean_streak_count: 0,
        };
        assert(r.achievements@.to_set() =~= Set::empty());
        assert(listed_map(r.error_counts@) =~= Map::empty());
        r
    }

    /// Unlock an achievement; true when it was not unlocked before.
    pub fn unlock_achievement(&mut self, achievement: AchievementType) -> (r: bool)
        ensures
            r == !old(self)@.achievements.contains(achievement),
            final(self)@ == old(self)@.unlocked(achievement),
    {
        if self.has_achievement(achievement) {
            assert(self@.achievements.insert(achievement) =~= self@.achievements);
            false
        } else {
            self.achievements.push(achievement);
            proof {
                old(self).achievements@.lemma_push_to_set_commute(achievement);
            }
            assert(self.achievements@.to_set() =~= old(self).achievements@.to_set().insert(achievement));
            true
        }
    }

    /// Whether the team holds a specific achievement.
    pub fn has_achievement(&self, achievement: AchievementType) -> (r: bool)
        ensures
            r == self@.achievements.contains(achievement),
    {
        let mut i: usize = 0;
        while i < self.achievements.len()
            invariant
                i <= self.achievements.len(),
                forall|j: int| 0 <= j < i ==> self.achievements@[j] != achievement,
            decreases self.achievements.len() - i,
        {
            if self.achievements[i] == achievement {
                assert(self.achievements@.contains(achievement));
                return true;
            }
            i = i + 1;
        }
        assert(!self.achievements@.contains(achievement));
        false
    }

    fn error_entry(&self, error: AchievementType) -> (r: Option<usize>)
        ensures
            match r {
                Some(i) => first_entry(self.error_counts@, error, i as int)
                    && listed(self.error_counts@, error) == Some(self.error_counts@[i as int].1),
                None => listed(self.error_counts@, error) is None,
            },
    {
        let mut i: usize = 0;
        while i < self.error_counts.len()
            invariant
                i <= self.error_counts.len(),
                forall|j: int| 0 <= j < i ==> self.error_counts@[j].0 != error,
            decreases self.error_counts.len() - i,
        {
            if self.error_counts[i].0 == error {
                proof {
                    lemma_listed_first(self.error_counts@, error, i as int);
                }
                return Some(i);
            }
            i = i + 1;
        }
        proof {
            lemma_listed_absent(self.error_counts@, error);
        }
        None
    }

    /// Record an error: for an error indicator, increment its count and mark
    /// it as encountered; any other achievement type is ignored.
    pub fn record_error(&mut self, error: AchievementType)
        requires
            error_kind(error) ==> count_or_zero(old(self)@.error_counts, error) < u32::MAX,
        ensures
            final(self)@ == old(self)@.error_recorded(error),
    {
        if error.is_error() {
            let ghost before = self.error_counts@;
            match self.error_entry(error) {
                Some(i) => {
                    let c = self.error_counts[i].1;
                    self.error_counts.set(i, (error, c + 1));
                    proof {
                        lemma_listed_overwrite(before, error, i as int, (c + 1) as u32);
                    }
                },
                None => {
                    self.error_counts.push((error, 1));
                    proof {
                        lemma_listed_append(before, error, 1u32);
                    }
                },
            }
            self.unlock_achievement(error);
            self.clean_streak_count = 0;
            assert(self@ == old(self)@.error_recorded(error));
        }
    }

    /// The error count for a specific error type, zero when none was recorded.
    pub fn get_error_count(&self, error: AchievementType) -> (r: u32)
        ensures
            r == count_or_zero(self@.error_counts, error),
    {
        match self.error_entry(error) {
            Some(i) => self.error_counts[i].1,
            None => 0,
        }
    }

    /// Count of step achievements earned (for sorting).
    pub fn step_count(&self) -> (r: usize)
        ensures
            r == self@.steps_done().len(),
            r <= 4,
    {
        let steps = AchievementType::all_steps();
        let mut count: usize = 0;
        let mut i: usize = 0;
        let ghost mut found: Set<AchievementType> = Set::empty();
        while i < 4
            invariant
                i <= 4,
                steps@ == step_order(),
                found.finite(),
                count == found.len(),
                count <= i,
                forall|a: AchievementType| #[trigger] found.contains(a) <==> (exists|j: int|
                    0 <= j < i && step_order()[j] == a && self@.achievements.contains(a)),
            decreases 4 - i,
        {
            let s = steps[i];
            if self.has_achievement(s) {
                proof {
                    assert(!found.contains(s)) by {
                        if found.contains(s) {
                            let j = choose|j: int| 0 <= j < i && step_order()[j] == s && self@.achievements.contains(s);
                            assert(step_order()[j] != step_order()[i as int]);
                        }
                    }
                    let old_found = found;
                    found = found.insert(s);
                    assert forall|a: AchievementType| #[trigger] found.contains(a) <==> (exists|j: int|
                        0 <= j < i + 1 && step_order()[j] == a && self@.achievements.contains(a)) by {
                        if found.contains(a) && a != s {
                            assert(old_found.contains(a));
                        }
                        if a == s {
                            assert(step_order()[i as int] == a);
                        }
                    }
                }
                count = count + 1;
            } else {
                proof {
                    assert forall|a: AchievementType| #[trigger] found.contains(a) <==> (exists|j: int|
                        0 <= j < i + 1 && step_order()[j] == a && self@.achievements.contains(a)) by {
                        if exists|j: int| 0 <= j < i + 1 && step_order()[j] == a && self@.achievements.contains(a) {
                            let j = choose|j: int| 0 <= j < i + 1 && step_order()[j] == a && self@.achievements.contains(a);
                            if j == i {
                                assert(a == s);
                            }
                        }
                    }
                }
            }
            i = i + 1;
        }
        proof {
            assert forall|a: AchievementType| #[trigger] found.contains(a) <==> self@.steps_done().contains(a) by {
                lemma_groups_partition(a);
                if self@.steps_done().contains(a) {
                    let j = choose|j: int| 0 <= j < step_order().len() && step_order()[j] == a;
                    assert(step_order()[j] == a);
                }
            }
            assert(found =~= self@.steps_done());
        }
        count
    }

    /// Total number of errors across all error types.
    pub fn total_errors(&self) -> (r: u32)
        requires
            self@.error_total() <= u32::MAX,
        ensures
            r == self@.error_total(),
    {
        let all = every_kind();
        let mut total: u32 = 0;
        let mut i: usize = 0;
        while i < 12
            invariant
                i <= 12,
                all@ == every_achievement(),
                total == sum_counts(self@.error_counts, every_achievement().take(i as int)),
                self@.error_total() <= u32::MAX,
            decreases 12 - i,
        {
            let c = self.get_error_count(all[i]);
            proof {
                assert(every_achievement().take(i + 1).drop_last() =~= every_achievement().take(i as int));
                lemma_sum_counts_prefix(self@.error_counts, every_achievement(), i + 1);
            }
            total = total + c;
            i = i + 1;
        }
        assert(every_achievement().take(12) =~= every_achievement());
        total
    }

    /// One more message without an error.
    pub fn increment_clean_streak(&mut self)
        requires
            old(self).clean_streak_count < u64::MAX,
        ensures
            final(self)@ == old(self)@.streak_extended(),
    {
        self.clean_streak_count = self.clean_streak_count + 1;
    }

    /// Update lag tracking; the peak lag rises to the new value when it is
    /// higher.
    pub fn update_lag(&mut self, new_lag: i64)
        ensures
            final(self)@ == old(self)@.lag_updated(new_lag),
    {
        self.current_lag = new_lag;
        if new_lag > self.max_lag_seen {
            self.max_lag_seen = new_lag;
        }
    }

    /// Whether the team qualifies for LagBuster (had 100+ lag, now at 0).
    pub fn qualifies_for_lag_buster(&self) -> (r: bool)
        ensures
            r == self@.lag_buster_ready(),
    {
        self.max_lag_seen >= 100 && self.current_lag == 0
    }

    /// Whether the team holds every achievement required for Champion.
    pub fn has_all_champion_requirements(&self) -> (r: bool)
        ensures
            r == self@.champion_ready(),
    {
        let reqs = AchievementType::champion_requirements();
        let mut i: usize = 0;
        while i < 9
            invariant
                i <= 9,
                reqs@ == champion_order(),
                forall|j: int| 0 <= j < i ==> self@.achievements.contains(#[trigger] champion_order()[j]),
            decreases 9 - i,
        {
            if !self.has_achievement(reqs[i]) {
                return false;
            }
            i = i + 1;
        }
        true
    }
}

impl TeamState {
    /// A copy of this team's state.
    pub fn duplicate(&self) -> (r: Self)
        ensures
            r@ == self@,
            r.achievements@ == self.achievements@,
            r.error_counts@ == self.error_counts@,
    {
        let mut achievements: Vec<AchievementType> = Vec::new();
        let mut i: usize = 0;
        while i < self.achievements.len()
            invariant
                i <= self.achievements.len(),
                achievements@ == self.achievements@.take(i as int),
            decreases self.achievements.len() - i,
        {
            achievements.push(self.achievements[i]);
            assert(self.achievements@.take(i + 1) =~= self.achievements@.take(i as int).push(self.achievements@[i as int]));
            i = i + 1;
        }
        let mut error_counts: Vec<(AchievementType, u32)> = Vec::new();
        let mut j: usize = 0;
        while j < self.error_counts.len()
            invariant
                j <= self.error_counts.len(),
                error_counts@ == self.error_counts@.take(j as int),
            decreases self.error_counts.len() - j,
        {
            let (a, n) = self.error_counts[j];
            error_counts.push((a, n));
            assert(self.error_counts@.take(j + 1) =~= self.error_counts@.take(j as int).push(self.error_counts@[j as int]));
            j = j + 1;
        }
        assert(achievements@ =~= self.achievements@);
        assert(error_counts@ =~= self.error_counts@);
        TeamState {
            team_name: self.team_name.clone(),
            achievements,
            action_count: self.action_count,
            watchlist_count: self.watchlist_count,
            error_counts,
            max_lag_seen: self.max_lag_seen,
            current_lag: self.current_lag,
            messages_consumed: self.messages_consumed,
            clean_streak_count: self.clean_streak_count,
        }
    }
}

/// Every achievement type as an array, in declaration order.
pub fn every_kind() -> (r: [AchievementType; 12])
    ensures
        r@ == every_achievement(),
{
    let r = [
        AchievementType::Connected,
        AchievementType::FirstLoad,
        AchievementType::Scaled,
        AchievementType::WatchlistDone,
        AchievementType::ParseError,
        AchievementType::MissingFields,
        AchievementType::PartitionExplorer,
        AchievementType::HighThroughput,
        AchievementType::CleanStreak,
        AchievementType::FirstBlood,
        AchievementType::LagBuster,
        AchievementType::Champion,
    ];
    assert(r@ =~= every_achievement());
    r
}

/// Consumer group state of a team.
#[derive(Debug, Clone, Copy, PartialEq, Eq, Structural)]
pub enum GroupState {
    Active,
    Rebalancing,
    Empty,
    Unknown,
}

/// The label of a group state.
pub open spec fn group_label(s: GroupState) -> Seq<char> {
    match s {
        GroupState::Active => "Active"@,
        GroupState::Rebalancing => "Rebalancing"@,
        GroupState::Empty => "Empty"@,
        GroupState::Unknown => "Unknown"@,
    }
}

impl GroupState {
    /// The label of this state, as it is displayed.
    pub fn label(&self) -> (r: &'static str)
        ensures
            r@ == group_label(*self),
    {
        match self {
            GroupState::Active => "Active",
            GroupState::Rebalancing => "Rebalancing",
            GroupState::Empty => "Empty",
            GroupState::Unknown => "Unknown",
        }
    }
}

/// Consumer group status for a team.
#[derive(Debug, Clone)]
pub struct ConsumerGroupStatus {
    pub team_name: String,
    pub state: GroupState,
    pub members: u32,
    pub lag: i64,
}

} // verus!
