//! What holds of a leaderboard team over any sequence of updates.

use vstd::prelude::*;
use crate::leaderboard::achievements::{AchievementType, error_kind, error_order, step_kind};
use crate::leaderboard::widgets::{consumer_map, error_entry, errors_text, freshness_label, position_label};
use crate::leaderboard::team::ConsumerGroupStatus;
use crate::text::decimal;
use crate::leaderboard::team::{TeamStateView, count_or_zero};

verus! {

/// Unlocking is idempotent: unlocking an achievement a second time changes
/// nothing, and the achievement is then held.
pub proof fn lemma_unlock_idempotent(t: TeamStateView, a: AchievementType)
    ensures
        t.unlocked(a).unlocked(a) == t.unlocked(a),
        t.unlocked(a).achievements.contains(a),
{
    assert(t.unlocked(a).unlocked(a).achievements =~= t.unlocked(a).achievements);
}

/// Unlocking keeps every achievement held before, and adds only the one
/// unlocked.
pub proof fn lemma_unlock_keeps_others(t: TeamStateView, a: AchievementType, b: AchievementType)
    ensures
        t.unlocked(a).achievements.contains(b) == (t.achievements.contains(b) || a == b),
{
}

/// Recording an error of an error kind raises its count by one, marks it as
/// encountered, and leaves the other counts and the steps as they were.
pub proof fn lemma_error_counted(t: TeamStateView, e: AchievementType, other: AchievementType)
    requires
        error_kind(e),
        count_or_zero(t.error_counts, e) < u32::MAX,
        other != e,
    ensures
        count_or_zero(t.error_recorded(e).error_counts, e) == count_or_zero(t.error_counts, e) + 1,
        count_or_zero(t.error_recorded(e).error_counts, other) == count_or_zero(t.error_counts, other),
        t.error_recorded(e).achievements.contains(e),
        t.error_recorded(e).steps_done() == t.steps_done(),
{
    assert(t.error_recorded(e).steps_done() =~= t.steps_done());
}

/// The peak lag never falls: after any lag update it is at least what it was
/// and at least the new lag.
pub proof fn lemma_peak_lag_never_falls(t: TeamStateView, lag: i64)
    ensures
        t.lag_updated(lag).max_lag_seen >= t.max_lag_seen,
        t.lag_updated(lag).max_lag_seen >= lag,
        t.lag_updated(lag).current_lag == lag,
{
}

/// A team that once had a lag of one hundred or more qualifies for LagBuster
/// as soon as its lag is back to zero, whatever came between.
pub proof fn lemma_lag_buster_after_catch_up(t: TeamStateView, peak: i64, between: i64)
    requires
        peak >= 100,
    ensures
        t.lag_updated(peak).lag_updated(between).lag_updated(0).lag_buster_ready(),
{
}

/// Unlocking an achievement that is not a step leaves the steps as they
/// were; unlocking a step adds it to them.
pub proof fn lemma_steps_count_only_steps(t: TeamStateView, a: AchievementType)
    ensures
        !step_kind(a) ==> t.unlocked(a).steps_done() == t.steps_done(),
        step_kind(a) ==> t.unlocked(a).steps_done() == t.steps_done().insert(a),
{
    assert(!step_kind(a) ==> t.unlocked(a).steps_done() =~= t.steps_done());
    assert(step_kind(a) ==> t.unlocked(a).steps_done() =~= t.steps_done().insert(a));
}

/// A valid action counts one more action and one more message of the clean
/// streak; HighThroughput is held as soon as a hundred actions are counted
/// and CleanStreak as soon as the streak reaches fifty. An error ends the
/// streak. Neither takes away an achievement held before.
pub proof fn lemma_badges_follow_counts(t: TeamStateView, e: AchievementType)
    requires
        t.action_count < u64::MAX,
        t.clean_streak_count < u64::MAX,
        error_kind(e),
        count_or_zero(t.error_counts, e) < u32::MAX,
    ensures
        t.valid_scored().action_count == t.action_count + 1,
        t.valid_scored().clean_streak_count == t.clean_streak_count + 1,
        t.valid_scored().action_count >= 100 ==> t.valid_scored().achievements.contains(
            AchievementType::HighThroughput,
        ),
        (t.valid_scored().action_count < 100 && !t.achievements.contains(AchievementType::HighThroughput))
            ==> !t.valid_scored().achievements.contains(AchievementType::HighThroughput),
        t.valid_scored().clean_streak_count >= 50 ==> t.valid_scored().achievements.contains(
            AchievementType::CleanStreak,
        ),
        (t.valid_scored().clean_streak_count < 50 && !t.achievements.contains(AchievementType::CleanStreak))
            ==> !t.valid_scored().achievements.contains(AchievementType::CleanStreak),
        t.valid_scored().achievements.contains(AchievementType::FirstLoad),
        t.valid_scored().achievements.subset_of(t.achievements.insert(AchievementType::FirstLoad).insert(
            AchievementType::HighThroughput,
        ).insert(AchievementType::CleanStreak)),
        t.achievements.subset_of(t.valid_scored().achievements),
        t.error_recorded(e).clean_streak_count == 0,
        t.achievements.subset_of(t.error_recorded(e).achievements),
{
}

/// LagBuster asks for both a peak lag of one hundred or more and a current
/// lag of zero: a team whose peak stayed below one hundred, or that still
/// has something left to read, does not qualify, and one with both does.
pub proof fn lemma_lag_buster_needs_peak_and_catch_up(t: TeamStateView)
    ensures
        t.max_lag_seen < 100 ==> !t.lag_buster_ready(),
        t.current_lag != 0 ==> !t.lag_buster_ready(),
        (t.max_lag_seen >= 100 && t.current_lag == 0) ==> t.lag_buster_ready(),
{
}

/// The four steps are Connected, FirstLoad, Scaled and WatchlistDone; the
/// two error indicators are ParseError and MissingFields; a team's steps
/// are the steps it holds.
pub proof fn lemma_groups_of_achievements(t: TeamStateView, a: AchievementType)
    ensures
        step_kind(a) == (a == AchievementType::Connected || a == AchievementType::FirstLoad || a
            == AchievementType::Scaled || a == AchievementType::WatchlistDone),
        error_kind(a) == (a == AchievementType::ParseError || a == AchievementType::MissingFields),
        t.steps_done().contains(a) == (step_kind(a) && t.achievements.contains(a)),
{
}

/// Champion asks for every badge but itself and the error indicators: a
/// team holding all nine is ready, and one missing any of them is not.
pub proof fn lemma_champion_asks_for_nine(t: TeamStateView)
    ensures
        t.champion_ready() == ({
            &&& t.achievements.contains(AchievementType::Connected)
            &&& t.achievements.contains(AchievementType::FirstLoad)
            &&& t.achievements.contains(AchievementType::Scaled)
            &&& t.achievements.contains(AchievementType::WatchlistDone)
            &&& t.achievements.contains(AchievementType::PartitionExplorer)
            &&& t.achievements.contains(AchievementType::HighThroughput)
            &&& t.achievements.contains(AchievementType::CleanStreak)
            &&& t.achievements.contains(AchievementType::FirstBlood)
            &&& t.achievements.contains(AchievementType::LagBuster)
        }),
{
    let cs = crate::leaderboard::achievements::champion_order();
    assert(cs[0] == AchievementType::Connected);
    assert(cs[1] == AchievementType::FirstLoad);
    assert(cs[2] == AchievementType::Scaled);
    assert(cs[3] == AchievementType::WatchlistDone);
    assert(cs[4] == AchievementType::PartitionExplorer);
    assert(cs[5] == AchievementType::HighThroughput);
    assert(cs[6] == AchievementType::CleanStreak);
    assert(cs[7] == AchievementType::FirstBlood);
    assert(cs[8] == AchievementType::LagBuster);
    assert(cs.len() == 9);
}

/// The errors cell lists each error kind that occurred, parse errors first,
/// and shows nothing for a team without errors.
pub proof fn lemma_errors_cell(counts: Map<AchievementType, u32>)
    ensures
        (count_or_zero(counts, AchievementType::ParseError) == 0 && count_or_zero(counts, AchievementType::MissingFields)
            == 0) ==> errors_text(counts, error_order()).len() == 0,
        (count_or_zero(counts, AchievementType::ParseError) > 0 && count_or_zero(counts, AchievementType::MissingFields)
            == 0) ==> errors_text(counts, error_order()) == error_entry(
            AchievementType::ParseError,
            count_or_zero(counts, AchievementType::ParseError),
        ),
        (count_or_zero(counts, AchievementType::ParseError) == 0 && count_or_zero(counts, AchievementType::MissingFields)
            > 0) ==> errors_text(counts, error_order()) == error_entry(
            AchievementType::MissingFields,
            count_or_zero(counts, AchievementType::MissingFields),
        ),
        (count_or_zero(counts, AchievementType::ParseError) > 0 && count_or_zero(counts, AchievementType::MissingFields)
            > 0) ==> errors_text(counts, error_order()) == error_entry(
            AchievementType::ParseError,
            count_or_zero(counts, AchievementType::ParseError),
        ) + " "@ + error_entry(AchievementType::MissingFields, count_or_zero(counts, AchievementType::MissingFields)),
{
    let keys = error_order();
    assert(keys.drop_last().drop_last() =~= Seq::<AchievementType>::empty());
    assert(keys.drop_last() =~= seq![AchievementType::ParseError]);
    reveal_with_fuel(errors_text, 3);
}

/// The member count shown for a team is that of its latest status; a
/// status leaves the counts of other teams as they were.
pub proof fn lemma_latest_status_counts(statuses: Seq<ConsumerGroupStatus>, st: ConsumerGroupStatus, n: Seq<char>)
    ensures
        consumer_map(statuses.push(st)).contains_key(st.team_name@),
        consumer_map(statuses.push(st))[st.team_name@] == st.members,
        n != st.team_name@ ==> consumer_map(statuses.push(st)).contains_key(n) == consumer_map(statuses).contains_key(n),
        (n != st.team_name@ && consumer_map(statuses).contains_key(n)) ==> consumer_map(statuses.push(st))[n]
            == consumer_map(statuses)[n],
        consumer_map(Seq::<ConsumerGroupStatus>::empty()).dom().len() == 0,
{
    assert(statuses.push(st).drop_last() =~= statuses);
}

/// Data younger than two seconds is live; younger than a minute shows its
/// seconds, older its minutes; before any data the table is connecting. The
/// position counts from one, with a dash when nothing is selected.
pub proof fn lemma_freshness_and_position(age: u64, i: usize, total: usize)
    ensures
        age < 2 ==> freshness_label(Some(age)) == "LIVE"@,
        (2 <= age && age < 60) ==> freshness_label(Some(age)) == decimal(age as nat) + "s ago"@,
        age >= 60 ==> freshness_label(Some(age)) == decimal((age / 60) as nat) + "m ago"@,
        freshness_label(None) == "Connecting..."@,
        position_label(Some(i), total) == decimal((i + 1) as nat) + "/"@ + decimal(total as nat),
        position_label(None, total) == "-/"@ + decimal(total as nat),
{
}

/// Every message a team sends counts once as consumed, whatever it held,
/// and counting it changes nothing else.
pub proof fn lemma_each_message_consumed_once(t: TeamStateView)
    requires
        t.messages_consumed < u64::MAX,
    ensures
        t.consumed().messages_consumed == t.messages_consumed + 1,
        t.consumed().achievements == t.achievements,
        t.consumed().action_count == t.action_count,
        t.consumed().clean_streak_count == t.clean_streak_count,
        t.consumed().error_counts == t.error_counts,
        t.valid_scored().messages_consumed == t.messages_consumed,
{
}

} // verus!
