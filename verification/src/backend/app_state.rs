//! Shared state of the scoreboard: the teams, their consumer groups and the
//! celebrations of recently unlocked achievements.

use vstd::prelude::*;
use std::time::Instant;
use crate::backend::achievements::AchievementType;
use crate::assoc::{find_named, lemma_slot_found, lemma_slot_missing, named_map, names_distinct, set_named, slot_of};
use crate::backend::team::{GroupState, TeamState, TeamStatsSnapshot, TeamView};
use crate::clock::{elapsed_secs, instant_now};
use crate::roster::{lemma_team_names_distinct, team_label, team_name_of};

verus! {

/// A celebration of an achievement unlock.
#[derive(Debug, Clone)]
pub struct Celebration {
    pub team_name: String,
    pub achievement: AchievementType,
    pub unlocked_at: Instant,
}

/// Data needed for rendering the footer.
pub struct FooterData<'a> {
    pub selected_team: Option<&'a str>,
    pub show_detail_panel: bool,
    pub active_celebration: Option<&'a Celebration>,
}

/// A celebration shows for three seconds.
pub open spec fn shows_after(elapsed_secs: nat) -> bool {
    elapsed_secs < 3
}

/// A celebration is kept for ten seconds.
pub open spec fn kept_after(elapsed_secs: nat) -> bool {
    elapsed_secs < 10
}

impl Celebration {
    /// Whether the celebration is still showing (three second display). The
    /// answer depends on the clock, so nothing is promised of it here;
    /// `celebration_showing` decides from the seconds read.
    pub fn is_active(&self) -> bool {
        celebration_showing(elapsed_secs(&self.unlocked_at))
    }
}

/// Whether a celebration unlocked `elapsed` whole seconds ago still shows.
pub fn celebration_showing(elapsed: u64) -> (r: bool)
    ensures
        r == shows_after(elapsed as nat),
{
    elapsed < 3
}

/// The celebrations whose ages allow them to be kept, in order.
pub open spec fn recent_celebrations(cs: Seq<Celebration>, ages: Seq<u64>) -> Seq<Celebration>
    decreases cs.len(),
{
    if cs.len() == 0 || ages.len() != cs.len() {
        Seq::empty()
    } else {
        let rest = recent_celebrations(cs.drop_last(), ages.drop_last());
        if kept_after(ages.last() as nat) {
            rest.push(cs.last())
        } else {
            rest
        }
    }
}

/// The position of the last celebration that still shows, given the ages of
/// all celebrations in seconds.
pub open spec fn last_showing(ages: Seq<u64>) -> Option<int>
    decreases ages.len(),
{
    if ages.len() == 0 {
        None
    } else if shows_after(ages.last() as nat) {
        Some(ages.len() - 1)
    } else {
        last_showing(ages.drop_last())
    }
}

/// The last celebration that shows is one of them, and does show.
pub proof fn lemma_last_showing_bounds(ages: Seq<u64>)
    ensures
        match last_showing(ages) {
            Some(i) => 0 <= i < ages.len() && shows_after(ages[i] as nat),
            None => forall|j: int| 0 <= j < ages.len() ==> !shows_after(#[trigger] ages[j] as nat),
        },
    decreases ages.len(),
{
    if ages.len() > 0 && !shows_after(ages.last() as nat) {
        lemma_last_showing_bounds(ages.drop_last());
        assert forall|j: int| 0 <= j < ages.len() - 1 implies ages.drop_last()[j] == ages[j] by {}
    }
}

/// Keep the celebrations whose age (`ages[i]` seconds) is below ten.
pub fn keep_recent(cs: Vec<Celebration>, ages: &Vec<u64>) -> (r: Vec<Celebration>)
    requires
        ages.len() == cs.len(),
    ensures
        r@ == recent_celebrations(cs@, ages@),
{
    let ghost orig = cs@;
    let mut rest = cs;
    let mut r: Vec<Celebration> = Vec::new();
    let mut i: usize = 0;
    let n = rest.len();
    while i < n
        invariant
            n == orig.len(),
            ages.len() == n,
            i <= n,
            rest@ == orig.skip(i as int),
            r@ == recent_celebrations(orig.take(i as int), ages@.take(i as int)),
        decreases n - i,
    {
        proof {
            assert(orig.take(i + 1).drop_last() =~= orig.take(i as int));
            assert(ages@.take(i + 1).drop_last() =~= ages@.take(i as int));
        }
        let c = rest.remove(0);
        assert(rest@ =~= orig.skip(i + 1));
        if ages[i] < 10 {
            r.push(c);
        }
        i = i + 1;
    }
    assert(orig.take(n as int) =~= orig);
    assert(ages@.take(n as int) =~= ages@);
    r
}

/// The position of the last celebration that still shows, given the age of
/// each celebration in whole seconds.
pub fn last_showing_index(ages: &Vec<u64>) -> (r: Option<usize>)
    ensures
        r == (match last_showing(ages@) {
            Some(i) => Some(i as usize),
            None => None::<usize>,
        }),
{
    let mut k: usize = ages.len();
    assert(ages@.take(k as int) =~= ages@);
    while k > 0
        invariant
            k <= ages.len(),
            last_showing(ages@) == last_showing(ages@.take(k as int)),
        decreases k,
    {
        assert(ages@.take(k as int).drop_last() =~= ages@.take(k - 1));
        if ages[k - 1] < 3 {
            return Some(k - 1);
        }
        k = k - 1;
    }
    None
}

/// The state of a team that has done nothing yet.
pub open spec fn fresh_team(name: Seq<char>) -> TeamView {
    TeamView {
        team_name: name,
        achievements: Set::empty(),
        action_count: 0,
        stats_count: 0,
        current_lag: 0,
        achievement_timestamps: Map::empty(),
        session_start: None,
        last_action_time: None,
        last_stats_time: None,
        latest_stats: None,
        recent_actions: Seq::empty(),
    }
}

/// The entries of `after` are those of `before`, but for entry `i`, whose
/// name is unchanged and whose team is `changed`.
pub open spec fn only_team_changed(
    before: Seq<(String, TeamState)>,
    after: Seq<(String, TeamState)>,
    i: int,
    changed: TeamView,
) -> bool {
    &&& after.len() == before.len()
    &&& 0 <= i < before.len()
    &&& after[i].0 == before[i].0
    &&& after[i].1@ == changed
    &&& forall|j: int| 0 <= j < before.len() && j != i ==> #[trigger] after[j] == before[j]
}

/// A team's state after its group's status was read: it takes the lag when
/// one was read, is connected when the group is active and has scaled when
/// at least `scaled_members` consumers are in it.
pub open spec fn status_applied(
    before: TeamView,
    state: GroupState,
    members: u32,
    lag: Option<i64>,
    scaled_members: u32,
    unlocked_at: i64,
    session_started_at: i64,
) -> TeamView {
    let lagged = match lag {
        Some(l) => TeamView { current_lag: l, ..before },
        None => before,
    };
    let connected = if state == GroupState::Active {
        lagged.unlocked(AchievementType::Connected, unlocked_at, session_started_at)
    } else {
        lagged
    };
    if members >= scaled_members {
        connected.unlocked(AchievementType::Scaled, unlocked_at, session_started_at)
    } else {
        connected
    }
}

/// The steps that a group status unlocks for a team, in order: Connected
/// for an active group, then Scaled for enough members, each only when the
/// team did not hold it.
pub open spec fn status_unlocks(before: TeamView, state: GroupState, members: u32, scaled_members: u32) -> Seq<
    AchievementType,
> {
    (if state == GroupState::Active && !before.achievements.contains(AchievementType::Connected) {
        seq![AchievementType::Connected]
    } else {
        Seq::<AchievementType>::empty()
    }) + (if members >= scaled_members && !before.achievements.contains(AchievementType::Scaled) {
        seq![AchievementType::Scaled]
    } else {
        Seq::<AchievementType>::empty()
    })
}

/// Shared application state.
pub struct AppState {
    /// The teams, keyed by name; the first entry for a name decides.
    pub teams: Vec<(String, TeamState)>,
    /// Consumer count of each team's group.
    pub consumer_counts: Vec<(String, u32)>,
    /// State of each team's consumer group.
    pub group_states: Vec<(String, GroupState)>,
    pub celebrations: Vec<Celebration>,
    pub session_start: Instant,
    pub last_data_update: Option<Instant>,
}

impl AppState {
    /// All fifteen teams, `team-1` to `team-15` in that order, with nothing
    /// done; no consumer data and no celebrations.
    pub fn new() -> (r: Self)
        ensures
            r.teams@.len() == 15,
            names_distinct(r.teams@),
            forall|i: int| 0 <= i < 15 ==> {
                &&& (#[trigger] r.teams@[i]).0@ == team_name_of((i + 1) as nat)
                &&& r.teams@[i].1@ == fresh_team(team_name_of((i + 1) as nat))
            },
            r.consumer_counts@.len() == 0,
            r.group_states@.len() == 0,
            r.celebrations@.len() == 0,
            r.last_data_update is None,
    {
        let mut teams: Vec<(String, TeamState)> = Vec::new();
        let mut n: u32 = 1;
        while n <= 15
            invariant
                1 <= n <= 16,
                teams@.len() == n - 1,
                names_distinct(teams@),
                forall|i: int| 0 <= i < n - 1 ==> {
                    &&& (#[trigger] teams@[i]).0@ == team_name_of((i + 1) as nat)
                    &&& teams@[i].1@ == fresh_team(team_name_of((i + 1) as nat))
                },
            decreases 16 - n,
        {
            let name = team_label(n);
            let team = TeamState::new(team_label(n));
            proof {
                assert forall|i: int| 0 <= i < teams@.len() implies teams@[i].0@ != name@ by {
                    if teams@[i].0@ == name@ {
                        lemma_team_names_distinct((i + 1) as nat, n as nat);
                    }
                }
            }
            teams.push((name, team));
            n = n + 1;
        }
        AppState {
            teams,
            consumer_counts: Vec::new(),
            group_states: Vec::new(),
            celebrations: Vec::new(),
            session_start: instant_now(),
            last_data_update: None,
        }
    }

    /// The most recent celebration that still shows, if any. Which one that
    /// is depends on the time: see `last_showing_index`.
    pub fn active_celebration(&self) -> (r: Option<&Celebration>)
        ensures
            exists|ages: Seq<u64>| {
                &&& ages.len() == self.celebrations@.len()
                &&& match #[trigger] last_showing(ages) {
                    Some(i) => r == Some(&self.celebrations@[i]),
                    None => r is None,
                }
            },
    {
        let ages = self.celebration_ages();
        proof {
            lemma_last_showing_bounds(ages@);
        }
        match last_showing_index(&ages) {
            Some(i) => Some(&self.celebrations[i]),
            None => None,
        }
    }

    /// The age of each celebration in whole seconds, read from the clock.
    fn celebration_ages(&self) -> (ages: Vec<u64>)
        ensures
            ages@.len() == self.celebrations@.len(),
    {
        let mut ages: Vec<u64> = Vec::new();
        let mut i: usize = 0;
        while i < self.celebrations.len()
            invariant
                i <= self.celebrations.len(),
                ages@.len() == i,
            decreases self.celebrations.len() - i,
        {
            ages.push(elapsed_secs(&self.celebrations[i].unlocked_at));
            i = i + 1;
        }
        ages
    }

    /// Add a celebration of `achievement` by `team_name`, stamped now, and
    /// keep only the celebrations younger than ten seconds (by the clock).
    pub fn add_celebration(&mut self, team_name: String, achievement: AchievementType)
        ensures
            exists|now: Instant, ages: Seq<u64>| {
                &&& ages.len() == old(self).celebrations@.len() + 1
                &&& final(self).celebrations@ == #[trigger] recent_celebrations(
                    old(self).celebrations@.push(Celebration { team_name, achievement, unlocked_at: now }),
                    ages,
                )
            },
            final(self).teams == old(self).teams,
            final(self).consumer_counts == old(self).consumer_counts,
            final(self).group_states == old(self).group_states,
            final(self).session_start == old(self).session_start,
            final(self).last_data_update == old(self).last_data_update,
    {
        let now = instant_now();
        self.celebrations.push(Celebration { team_name, achievement, unlocked_at: now });
        let ages = self.celebration_ages();
        let mut cs: Vec<Celebration> = Vec::new();
        std::mem::swap(&mut cs, &mut self.celebrations);
        self.celebrations = keep_recent(cs, &ages);
    }

    /// Note that data arrived at `now`.
    pub fn mark_update(&mut self, now: Instant)
        ensures
            final(self).last_data_update == Some(now),
            final(self).teams == old(self).teams,
            final(self).consumer_counts == old(self).consumer_counts,
            final(self).group_states == old(self).group_states,
            final(self).celebrations == old(self).celebrations,
            final(self).session_start == old(self).session_start,
    {
        self.last_data_update = Some(now);
    }

    /// Put `team` under `team_name`, replacing the team of that name.
    pub fn insert_team(&mut self, team_name: String, team: TeamState)
        ensures
            named_map(final(self).teams@) == named_map(old(self).teams@).insert(team_name@, team),
            names_distinct(old(self).teams@) ==> names_distinct(final(self).teams@),
            final(self).consumer_counts == old(self).consumer_counts,
            final(self).group_states == old(self).group_states,
            final(self).celebrations == old(self).celebrations,
            final(self).last_data_update == old(self).last_data_update,
    {
        set_named(&mut self.teams, team_name, team);
    }

    /// A valid action of `team_name` arrived at `now`: the team counts it
    /// and unlocks its first load, stamped `unlocked_at` (and its session
    /// starting at `session_started_at` if it had not). True when the first
    /// load was unlocked by this action. A name that is no team's changes
    /// nothing.
    pub fn record_valid_action_at(
        &mut self,
        team_name: &str,
        now: Instant,
        unlocked_at: i64,
        session_started_at: i64,
    ) -> (first_load: bool)
        requires
            slot_of(old(self).teams@, team_name@) matches Some(i) ==> old(self).teams@[i].1.action_count < u64::MAX,
        ensures
            match slot_of(old(self).teams@, team_name@) {
                Some(i) => {
                    let before = old(self).teams@[i].1@;
                    let counted = TeamView {
                        action_count: (before.action_count + 1) as u64,
                        last_action_time: Some(now),
                        recent_actions: before.recent_actions.push(now),
                        ..before
                    };
                    &&& only_team_changed(
                        old(self).teams@,
                        final(self).teams@,
                        i,
                        counted.unlocked(AchievementType::FirstLoad, unlocked_at, session_started_at),
                    )
                    &&& first_load == !before.achievements.contains(AchievementType::FirstLoad)
                },
                None => final(self).teams == old(self).teams && !first_load,
            },
            final(self).last_data_update == Some(now),
            final(self).consumer_counts == old(self).consumer_counts,
            final(self).group_states == old(self).group_states,
            final(self).celebrations == old(self).celebrations,
    {
        self.last_data_update = Some(now);
        match find_named(&self.teams, team_name) {
            Some(i) => {
                proof {
                    lemma_slot_found(old(self).teams@, team_name@, i as int);
                }
                let team = &mut self.teams[i].1;
                team.record_action_at(now);
                team.unlock_achievement_at(AchievementType::FirstLoad, unlocked_at, session_started_at)
            },
            None => {
                proof {
                    lemma_slot_missing(old(self).teams@, team_name@);
                }
                false
            },
        }
    }

    /// A stats message of `team_name` arrived at `now`: the team counts it,
    /// keeps `stats` as its latest statistics and unlocks its stats step,
    /// stamped `unlocked_at` (and its session starting at
    /// `session_started_at` if it had not). True when the step was unlocked
    /// by this message. A name that is no team's changes nothing.
    pub fn record_team_stats_at(
        &mut self,
        team_name: &str,
        stats: TeamStatsSnapshot,
        now: Instant,
        unlocked_at: i64,
        session_started_at: i64,
    ) -> (stats_done: bool)
        requires
            slot_of(old(self).teams@, team_name@) matches Some(i) ==> old(self).teams@[i].1.stats_count < u64::MAX,
        ensures
            match slot_of(old(self).teams@, team_name@) {
                Some(i) => {
                    let before = old(self).teams@[i].1@;
                    let counted = TeamView {
                        stats_count: (before.stats_count + 1) as u64,
                        latest_stats: Some(stats),
                        last_stats_time: Some(now),
                        ..before
                    };
                    &&& only_team_changed(
                        old(self).teams@,
                        final(self).teams@,
                        i,
                        counted.unlocked(AchievementType::StatsDone, unlocked_at, session_started_at),
                    )
                    &&& stats_done == !before.achievements.contains(AchievementType::StatsDone)
                },
                None => final(self).teams == old(self).teams && !stats_done,
            },
            final(self).last_data_update == Some(now),
            final(self).consumer_counts == old(self).consumer_counts,
            final(self).group_states == old(self).group_states,
            final(self).celebrations == old(self).celebrations,
    {
        self.last_data_update = Some(now);
        match find_named(&self.teams, team_name) {
            Some(i) => {
                proof {
                    lemma_slot_found(old(self).teams@, team_name@, i as int);
                }
                let team = &mut self.teams[i].1;
                team.record_stats_message_at(stats, now);
                team.unlock_achievement_at(AchievementType::StatsDone, unlocked_at, session_started_at)
            },
            None => {
                proof {
                    lemma_slot_missing(old(self).teams@, team_name@);
                }
                false
            },
        }
    }

    /// The status of `team_name`'s consumer group was read: `members`
    /// consumers in state `state`, and its lag if it could be read. The
    /// counts and states are recorded; the team takes the lag, is connected
    /// when its group is active, and has scaled when at least
    /// `scaled_members` consumers are in it; each new step is stamped
    /// `unlocked_at` (the session starting at `session_started_at` if it had
    /// not). Returns the steps unlocked, in that order.
    pub fn apply_group_status_at(
        &mut self,
        team_name: &str,
        state: GroupState,
        members: u32,
        lag: Option<i64>,
        scaled_members: u32,
        unlocked_at: i64,
        session_started_at: i64,
    ) -> (unlocked: Vec<AchievementType>)
        ensures
            named_map(final(self).consumer_counts@) == named_map(old(self).consumer_counts@).insert(team_name@, members),
            named_map(final(self).group_states@) == named_map(old(self).group_states@).insert(team_name@, state),
            names_distinct(old(self).consumer_counts@) ==> names_distinct(final(self).consumer_counts@),
            names_distinct(old(self).group_states@) ==> names_distinct(final(self).group_states@),
            match slot_of(old(self).teams@, team_name@) {
                Some(i) => {
                    let before = old(self).teams@[i].1@;
                    &&& only_team_changed(
                        old(self).teams@,
                        final(self).teams@,
                        i,
                        status_applied(before, state, members, lag, scaled_members, unlocked_at, session_started_at),
                    )
                    &&& unlocked@ == status_unlocks(before, state, members, scaled_members)
                },
                None => final(self).teams == old(self).teams && unlocked@.len() == 0,
            },
            final(self).celebrations == old(self).celebrations,
            final(self).last_data_update == old(self).last_data_update,
    {
        set_named(&mut self.consumer_counts, team_name.to_owned(), members);
        set_named(&mut self.group_states, team_name.to_owned(), state);
        let mut unlocked: Vec<AchievementType> = Vec::new();
        match find_named(&self.teams, team_name) {
            Some(i) => {
                proof {
                    lemma_slot_found(old(self).teams@, team_name@, i as int);
                }
                let team = &mut self.teams[i].1;
                match lag {
                    Some(l) => team.update_lag(l),
                    None => {},
                }
                if state == GroupState::Active
                    && team.unlock_achievement_at(AchievementType::Connected, unlocked_at, session_started_at) {
                    unlocked.push(AchievementType::Connected);
                }
                if members >= scaled_members
                    && team.unlock_achievement_at(AchievementType::Scaled, unlocked_at, session_started_at) {
                    unlocked.push(AchievementType::Scaled);
                }
                proof {
                    let before = old(self).teams@[i as int].1@;
                    if !(state == GroupState::Active && !before.achievements.contains(AchievementType::Connected)) {
                        assert(unlocked@ =~= (if members >= scaled_members && !before.achievements.contains(AchievementType::Scaled) {
                            seq![AchievementType::Scaled]
                        } else {
                            Seq::<AchievementType>::empty()
                        }));
                    }
                }
            },
            None => {
                proof {
                    lemma_slot_missing(old(self).teams@, team_name@);
                }
            },
        }
        unlocked
    }
}

} // verus!
