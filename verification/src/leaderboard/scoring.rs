//! The leaderboard's scoring of consumer group statuses: connecting, the
//! first connection of the class, scaling out, catching up on lag and the
//! champion of the class.

use vstd::prelude::*;
use crate::assoc::{find_named, first_entry, key_views, lemma_first_entry_unique, lemma_listed_first, listed};
use crate::leaderboard::achievements::AchievementType;
use crate::leaderboard::app::AppState;
use crate::leaderboard::team::{ConsumerGroupStatus, GroupState, TeamStateView};

verus! {

/// Consumers a group needs for Scaled.
pub const SCALED_MEMBERS: u32 = 2;

/// Consumers a group needs for PartitionExplorer.
pub const EXPLORER_MEMBERS: u32 = 3;

/// The scoring state of the class: each team's state, in order, whether
/// FirstBlood and Champion have been given, and the high watermark of the
/// topic the teams consume.
pub struct ClassBoard {
    pub teams: Seq<(Seq<char>, TeamStateView)>,
    pub first_blood_awarded: bool,
    pub champion_awarded: bool,
    pub topic_high_watermark: i64,
}

/// The scoring state of an application state.
pub open spec fn board_of(s: AppState) -> ClassBoard {
    ClassBoard {
        teams: s.teams@.map_values(|p: (String, crate::leaderboard::team::TeamState)| (p.0@, p.1@)),
        first_blood_awarded: s.first_blood_awarded,
        champion_awarded: s.champion_awarded,
        topic_high_watermark: s.topic_high_watermark,
    }
}

/// The lag of a team that consumed `consumed` messages of a topic whose
/// high watermark is `high_watermark`: what is left to read, never below
/// zero.
pub open spec fn estimated_lag(high_watermark: i64, consumed: u64) -> i64 {
    if consumed >= high_watermark {
        0
    } else {
        (high_watermark - consumed) as i64
    }
}

/// A team's lag is what it has left to read: with fewer messages consumed
/// than the high watermark, the lag and the messages consumed add up to the
/// watermark; with as many or more, the lag is zero. It is never negative.
pub proof fn lemma_lag_is_what_is_left(high_watermark: i64, consumed: u64)
    ensures
        consumed < high_watermark ==> estimated_lag(high_watermark, consumed) + consumed == high_watermark,
        consumed >= high_watermark ==> estimated_lag(high_watermark, consumed) == 0,
        estimated_lag(high_watermark, consumed) >= 0,
{
}

/// The lag of a team that consumed `messages_consumed` messages of a topic
/// whose high watermark is `high_watermark`.
pub fn estimate_team_lag(high_watermark: i64, messages_consumed: u64) -> (r: i64)
    ensures
        r == estimated_lag(high_watermark, messages_consumed),
        0 <= r,
        r <= high_watermark || r == 0,
{
    if high_watermark <= 0 || messages_consumed >= high_watermark as u64 {
        0
    } else {
        high_watermark - messages_consumed as i64
    }
}

/// The position of the first team named `n`.
pub open spec fn team_slot(teams: Seq<(Seq<char>, TeamStateView)>, n: Seq<char>) -> Option<int> {
    if exists|i: int| first_entry(teams, n, i) {
        Some(choose|i: int| first_entry(teams, n, i))
    } else {
        None
    }
}

/// A connected team's state after its group was seen active with `members`
/// consumers while the topic's high watermark was `high_watermark`: it has
/// scaled with at least `scaled_members` and explored partitions with at
/// least `explorer_members`, its lag is what it has left to read, and it
/// has busted its lag when it caught up after a lag of a hundred or more.
pub open spec fn active_team(
    t: TeamStateView,
    members: u32,
    scaled_members: u32,
    explorer_members: u32,
    high_watermark: i64,
) -> TeamStateView {
    let t2 = if members >= scaled_members { t.unlocked(AchievementType::Scaled) } else { t };
    let t3 = if members >= explorer_members { t2.unlocked(AchievementType::PartitionExplorer) } else { t2 };
    let t4 = t3.lag_updated(estimated_lag(high_watermark, t3.messages_consumed));
    if t4.lag_buster_ready() { t4.unlocked(AchievementType::LagBuster) } else { t4 }
}

/// The class after one group status was seen. A status of a team whose
/// group is active scores that team: the first team of the class to connect
/// also gets FirstBlood, and the first team to hold every requirement gets
/// Champion. Any other status changes nothing.
pub open spec fn status_step(
    b: ClassBoard,
    status: ConsumerGroupStatus,
    scaled_members: u32,
    explorer_members: u32,
) -> ClassBoard {
    match team_slot(b.teams, status.team_name@) {
        Some(i) => if status.state == GroupState::Active {
            let t = b.teams[i].1;
            let newly_connected = !t.achievements.contains(AchievementType::Connected);
            let first_blood = newly_connected && !b.first_blood_awarded;
            let t1 = t.unlocked(AchievementType::Connected);
            let t2 = if first_blood { t1.unlocked(AchievementType::FirstBlood) } else { t1 };
            let t3 = active_team(t2, status.members, scaled_members, explorer_members, b.topic_high_watermark);
            let crowned = !b.champion_awarded && t3.champion_ready() && !t3.achievements.contains(
                AchievementType::Champion,
            );
            let t4 = if !b.champion_awarded && t3.champion_ready() { t3.unlocked(AchievementType::Champion) } else { t3 };
            ClassBoard {
                teams: b.teams.update(i, (b.teams[i].0, t4)),
                first_blood_awarded: b.first_blood_awarded || first_blood,
                champion_awarded: b.champion_awarded || crowned,
                topic_high_watermark: b.topic_high_watermark,
            }
        } else {
            b
        },
        None => b,
    }
}

/// The class after the statuses were seen in order.
pub open spec fn statuses_seen(
    b: ClassBoard,
    statuses: Seq<ConsumerGroupStatus>,
    scaled_members: u32,
    explorer_members: u32,
) -> ClassBoard
    decreases statuses.len(),
{
    if statuses.len() == 0 {
        b
    } else {
        status_step(
            statuses_seen(b, statuses.drop_last(), scaled_members, explorer_members),
            statuses.last(),
            scaled_members,
            explorer_members,
        )
    }
}

/// Whether at most one of the teams holds `a`, and a team holds it only
/// if it was given (`given`).
pub open spec fn held_once(teams: Seq<(Seq<char>, TeamStateView)>, a: AchievementType, given: bool) -> bool {
    &&& forall|i: int, j: int|
        0 <= i < j < teams.len() && #[trigger] teams[i].1.achievements.contains(a)
            ==> !#[trigger] teams[j].1.achievements.contains(a)
    &&& forall|i: int| 0 <= i < teams.len() && #[trigger] teams[i].1.achievements.contains(a) ==> given
}

/// Whether FirstBlood and Champion are each held by at most one team, and
/// only once given.
pub open spec fn awards_sound(b: ClassBoard) -> bool {
    &&& held_once(b.teams, AchievementType::FirstBlood, b.first_blood_awarded)
    &&& held_once(b.teams, AchievementType::Champion, b.champion_awarded)
}

/// One status keeps FirstBlood and Champion with at most one team each.
proof fn lemma_step_keeps_awards_sound(b: ClassBoard, status: ConsumerGroupStatus, scaled_members: u32, explorer_members: u32)
    requires
        awards_sound(b),
    ensures
        awards_sound(status_step(b, status, scaled_members, explorer_members)),
        status_step(b, status, scaled_members, explorer_members).teams.len() == b.teams.len(),
{
    let after = status_step(b, status, scaled_members, explorer_members);
    match team_slot(b.teams, status.team_name@) {
        Some(_) => {
            if status.state == GroupState::Active {
                let k = choose|i: int| first_entry(b.teams, status.team_name@, i);
                assert(0 <= k < b.teams.len());
                assert forall|j: int| 0 <= j < b.teams.len() && j != k implies #[trigger] after.teams[j] == b.teams[j] by {}
                let ta = after.teams[k].1.achievements;
                let tb = b.teams[k].1.achievements;
                // Only FirstBlood and Champion can be new to the team among the two.
                assert(ta.contains(AchievementType::FirstBlood) && !tb.contains(AchievementType::FirstBlood)
                    ==> !b.first_blood_awarded && after.first_blood_awarded);
                assert(ta.contains(AchievementType::Champion) && !tb.contains(AchievementType::Champion)
                    ==> !b.champion_awarded && after.champion_awarded);
                assert(tb.contains(AchievementType::Champion) ==> ta.contains(AchievementType::Champion));
                assert(tb.contains(AchievementType::FirstBlood) ==> ta.contains(AchievementType::FirstBlood));
            }
        },
        None => {},
    }
}

/// FirstBlood and Champion each go to at most one team: if at most one team
/// held each when the statuses began to be read, and only once given, the
/// same holds after any sequence of statuses.
pub proof fn lemma_awards_held_once(
    b: ClassBoard,
    statuses: Seq<ConsumerGroupStatus>,
    scaled_members: u32,
    explorer_members: u32,
)
    requires
        awards_sound(b),
    ensures
        awards_sound(statuses_seen(b, statuses, scaled_members, explorer_members)),
        statuses_seen(b, statuses, scaled_members, explorer_members).teams.len() == b.teams.len(),
    decreases statuses.len(),
{
    if statuses.len() > 0 {
        lemma_awards_held_once(b, statuses.drop_last(), scaled_members, explorer_members);
        lemma_step_keeps_awards_sound(
            statuses_seen(b, statuses.drop_last(), scaled_members, explorer_members),
            statuses.last(),
            scaled_members,
            explorer_members,
        );
    }
}

/// What one status does to the team it names, in terms of the status: a
/// group that is not active changes nothing; an active group connects its
/// team, which gets FirstBlood when it is the first of the class to
/// connect; it scales with at least `scaled_members` consumers and explores
/// partitions with at least `explorer_members`, and gets neither with
/// fewer; its lag becomes what it has left to read of the topic; LagBuster
/// comes only with a peak lag of a hundred or more caught up to zero;
/// Champion only with every other badge but the error indicators. No other
/// team changes.
pub proof fn lemma_status_scores_its_team(
    b: ClassBoard,
    status: ConsumerGroupStatus,
    scaled_members: u32,
    explorer_members: u32,
    i: int,
)
    requires
        first_entry(b.teams, status.team_name@, i),
    ensures
        ({
            let after = status_step(b, status, scaled_members, explorer_members);
            let t = b.teams[i].1;
            let u = after.teams[i].1;
            &&& after.teams.len() == b.teams.len()
            &&& forall|j: int| 0 <= j < b.teams.len() && j != i ==> #[trigger] after.teams[j] == b.teams[j]
            &&& after.teams[i].0 == b.teams[i].0
            &&& status.state != GroupState::Active ==> after == b
            &&& status.state == GroupState::Active ==> {
                &&& u.achievements.contains(AchievementType::Connected)
                &&& (!t.achievements.contains(AchievementType::Connected) && !b.first_blood_awarded)
                    ==> u.achievements.contains(AchievementType::FirstBlood)
                &&& status.members >= scaled_members ==> u.achievements.contains(AchievementType::Scaled)
                &&& status.members >= explorer_members ==> u.achievements.contains(AchievementType::PartitionExplorer)
                &&& u.messages_consumed == t.messages_consumed
                &&& (t.messages_consumed < b.topic_high_watermark ==> u.current_lag + t.messages_consumed
                    == b.topic_high_watermark)
                &&& (t.messages_consumed >= b.topic_high_watermark ==> u.current_lag == 0)
                &&& u.max_lag_seen >= t.max_lag_seen && u.max_lag_seen >= u.current_lag
            }
            &&& (status.members < scaled_members && !t.achievements.contains(AchievementType::Scaled))
                ==> !u.achievements.contains(AchievementType::Scaled)
            &&& (status.members < explorer_members && !t.achievements.contains(AchievementType::PartitionExplorer))
                ==> !u.achievements.contains(AchievementType::PartitionExplorer)
            &&& (!t.achievements.contains(AchievementType::FirstBlood) && (b.first_blood_awarded
                || t.achievements.contains(AchievementType::Connected)))
                ==> !u.achievements.contains(AchievementType::FirstBlood)
            &&& (!t.achievements.contains(AchievementType::LagBuster) && (u.max_lag_seen < 100 || u.current_lag != 0))
                ==> !u.achievements.contains(AchievementType::LagBuster)
            &&& (!t.achievements.contains(AchievementType::Champion) && u.achievements.contains(
                AchievementType::Champion,
            )) ==> {
                &&& !b.champion_awarded
                &&& u.achievements.contains(AchievementType::Connected)
                &&& u.achievements.contains(AchievementType::FirstLoad)
                &&& u.achievements.contains(AchievementType::Scaled)
                &&& u.achievements.contains(AchievementType::WatchlistDone)
                &&& u.achievements.contains(AchievementType::PartitionExplorer)
                &&& u.achievements.contains(AchievementType::HighThroughput)
                &&& u.achievements.contains(AchievementType::CleanStreak)
                &&& u.achievements.contains(AchievementType::FirstBlood)
                &&& u.achievements.contains(AchievementType::LagBuster)
            }
            &&& t.achievements.subset_of(u.achievements)
        }),
{
    let k = choose|k: int| first_entry(b.teams, status.team_name@, k);
    lemma_first_entry_unique(b.teams, status.team_name@, i, k);
    assert(team_slot(b.teams, status.team_name@) == Some(i));
    let after = status_step(b, status, scaled_members, explorer_members);
    if status.state == GroupState::Active {
        let u = after.teams[i].1;
        if !b.teams[i].1.achievements.contains(AchievementType::Champion) && u.achievements.contains(
            AchievementType::Champion,
        ) {
            let cs = crate::leaderboard::achievements::champion_order();
            assert(cs[0] == AchievementType::Connected);
            assert(cs[1] == AchievementType::FirstLoad);
            assert(cs[2] == AchievementType::Scaled);
            assert(cs[3] == AchievementType::WatchlistDone);
            assert(cs[4] == AchievementType::PartitionExplorer);
            assert(cs[5] == AchievementType::HighThroughput);
            assert(cs[6] == AchievementType::CleanStreak);
            assert(cs[7] == AchievementType::FirstBlood);
            assert(cs[8] == AchievementType::LagBuster);
        }
    }
}

/// The first team named `n` is at the same position in the application
/// state and in its scoring state.
proof fn lemma_same_slots(s: AppState, n: Seq<char>, i: int)
    ensures
        first_entry(key_views(s.teams@), n, i) <==> first_entry(board_of(s).teams, n, i),
{
    let kv = key_views(s.teams@);
    let bt = board_of(s).teams;
    assert(kv.len() == bt.len());
    assert forall|j: int| 0 <= j < kv.len() implies kv[j].0 == bt[j].0 by {}
    if first_entry(kv, n, i) {
        assert forall|j: int| 0 <= j < i implies bt[j].0 != n by {
            assert(kv[j].0 != n);
        }
    }
    if first_entry(bt, n, i) {
        assert forall|j: int| 0 <= j < i implies kv[j].0 != n by {
            assert(bt[j].0 != n);
        }
    }
}

impl AppState {
    /// A team's consumer group status was read. A team whose group is active
    /// is connected (the first in the class to connect also gets FirstBlood),
    /// has scaled with at least `scaled_members` consumers and explored
    /// partitions with at least `explorer_members`; its lag becomes what it
    /// has left to read of the topic, up to the high watermark; it busts its
    /// lag when it caught up after a lag of a hundred or more, and becomes
    /// Champion when it is the first to hold every requirement.
    pub fn apply_group_status(&mut self, status: &ConsumerGroupStatus, scaled_members: u32, explorer_members: u32)
        ensures
            board_of(*final(self)) == status_step(board_of(*old(self)), *status, scaled_members, explorer_members),
            final(self).consumer_groups == old(self).consumer_groups,
            final(self).topic_high_watermark == old(self).topic_high_watermark,
    {
        let ghost before = board_of(*self);
        match find_named(&self.teams, status.team_name.as_str()) {
            Some(i) => {
                proof {
                    lemma_same_slots(*self, status.team_name@, i as int);
                    assert(first_entry(before.teams, status.team_name@, i as int));
                    let k = choose|k: int| first_entry(before.teams, status.team_name@, k);
                    lemma_first_entry_unique(before.teams, status.team_name@, i as int, k);
                }
                if status.state != GroupState::Active {
                    return;
                }
                let first_blood_awarded = self.first_blood_awarded;
                let champion_awarded = self.champion_awarded;
                let high_watermark = self.topic_high_watermark;
                let team = &mut self.teams[i].1;
                let newly_connected = team.unlock_achievement(AchievementType::Connected);
                let first_blood = newly_connected && !first_blood_awarded;
                if first_blood {
                    team.unlock_achievement(AchievementType::FirstBlood);
                }
                if status.members >= scaled_members {
                    team.unlock_achievement(AchievementType::Scaled);
                }
                if status.members >= explorer_members {
                    team.unlock_achievement(AchievementType::PartitionExplorer);
                }
                let lag = estimate_team_lag(high_watermark, team.messages_consumed);
                team.update_lag(lag);
                if team.qualifies_for_lag_buster() {
                    team.unlock_achievement(AchievementType::LagBuster);
                }
                let mut crowned = false;
                if !champion_awarded && team.has_all_champion_requirements() {
                    crowned = team.unlock_achievement(AchievementType::Champion);
                }
                if first_blood {
                    self.first_blood_awarded = true;
                }
                if crowned {
                    self.champion_awarded = true;
                }
                proof {
                    let after = board_of(*self);
                    let expected = status_step(before, *status, scaled_members, explorer_members);
                    assert(after.teams[i as int] == expected.teams[i as int]);
                    assert(after.teams =~= expected.teams);
                }
            },
            None => {
                proof {
                    if exists|k: int| first_entry(before.teams, status.team_name@, k) {
                        let k = choose|k: int| first_entry(before.teams, status.team_name@, k);
                        lemma_same_slots(*self, status.team_name@, k);
                        assert(first_entry(key_views(self.teams@), status.team_name@, k));
                        lemma_listed_first(key_views(self.teams@), status.team_name@, k);
                    }
                }
            },
        }
    }

    /// Several statuses were read; they are seen in order.
    pub fn apply_group_statuses(
        &mut self,
        statuses: &Vec<ConsumerGroupStatus>,
        scaled_members: u32,
        explorer_members: u32,
    )
        ensures
            board_of(*final(self)) == statuses_seen(board_of(*old(self)), statuses@, scaled_members, explorer_members),
            final(self).consumer_groups == old(self).consumer_groups,
    {
        let mut k: usize = 0;
        while k < statuses.len()
            invariant
                k <= statuses.len(),
                board_of(*self) == statuses_seen(board_of(*old(self)), statuses@.take(k as int), scaled_members, explorer_members),
                self.consumer_groups == old(self).consumer_groups,
            decreases statuses.len() - k,
        {
            assert(statuses@.take(k + 1).drop_last() =~= statuses@.take(k as int));
            self.apply_group_status(&statuses[k], scaled_members, explorer_members);
            k = k + 1;
        }
        assert(statuses@.take(k as int) =~= statuses@);
    }
}

} // verus!
