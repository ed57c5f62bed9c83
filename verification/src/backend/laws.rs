//! What holds of the scoreboard's teams over any sequence of updates.

use vstd::prelude::*;
use crate::backend::achievements::AchievementType;
use crate::backend::app_state::{
    Celebration, kept_after, last_showing, recent_celebrations, shows_after, status_applied, status_unlocks,
};
use crate::backend::board::{RowColor, count_active, count_with_steps, live_after, row_color_for, sum_actions};
use crate::backend::monitor::state_named;
use crate::backend::ui_state::{KeyEffect, last_row, moved_down, moved_up, normal_key};
use crate::keys::Key;
use crate::backend::team::{GroupState, TeamState, TeamView, minutes_between, minutes_label};
use crate::backend::board::{progress_text, session_label, step_mark, unlock_age_label};
use crate::backend::achievements::{STEP_INCOMPLETE, emoji_text};
use crate::event_buffer::age_label;
use crate::text::{decimal, signed_decimal};

verus! {

/// Unlocking is idempotent and the first unlock time stays: unlocking an
/// achievement again, at any time, changes nothing.
pub proof fn lemma_unlock_keeps_first_time(
    t: TeamView,
    a: AchievementType,
    at1: i64,
    start1: i64,
    at2: i64,
    start2: i64,
)
    ensures
        t.unlocked(a, at1, start1).unlocked(a, at2, start2) == t.unlocked(a, at1, start1),
        t.unlocked(a, at1, start1).achievements.contains(a),
        !t.achievements.contains(a) ==> t.unlocked(a, at1, start1).achievement_timestamps[a] == at1,
{
}

/// A session, once started, keeps its start: no unlock moves it.
pub proof fn lemma_session_start_stays(t: TeamView, a: AchievementType, at: i64, start: i64)
    requires
        t.session_start is Some,
    ensures
        t.unlocked(a, at, start).session_start == t.session_start,
{
}

/// The first unlock of a team starts its session.
pub proof fn lemma_first_unlock_starts_session(t: TeamView, a: AchievementType, at: i64, start: i64)
    requires
        t.session_start is None,
        !t.achievements.contains(a),
    ensures
        t.unlocked(a, at, start).session_start == Some(start),
{
}

/// A group status unlocks each step once: read again, the same status
/// unlocks nothing more and leaves the team as it was.
pub proof fn lemma_status_unlocks_once(
    t: TeamView,
    state: GroupState,
    members: u32,
    lag: Option<i64>,
    scaled_members: u32,
    at1: i64,
    start1: i64,
    at2: i64,
    start2: i64,
)
    ensures
        status_unlocks(status_applied(t, state, members, lag, scaled_members, at1, start1), state, members, scaled_members).len()
            == 0,
        status_applied(
            status_applied(t, state, members, lag, scaled_members, at1, start1),
            state,
            members,
            lag,
            scaled_members,
            at2,
            start2,
        ) == status_applied(t, state, members, lag, scaled_members, at1, start1),
{
    let once = status_applied(t, state, members, lag, scaled_members, at1, start1);
    assert(status_unlocks(once, state, members, scaled_members) =~= Seq::<AchievementType>::empty());
}

/// A team whose group is active holds the Connected step afterwards, and one
/// whose group has at least the required members holds the Scaled step.
pub proof fn lemma_status_grants_steps(
    t: TeamView,
    state: GroupState,
    members: u32,
    lag: Option<i64>,
    scaled_members: u32,
    at: i64,
    start: i64,
)
    ensures
        state == GroupState::Active ==> status_applied(t, state, members, lag, scaled_members, at, start).achievements.contains(
            AchievementType::Connected,
        ),
        members >= scaled_members ==> status_applied(t, state, members, lag, scaled_members, at, start).achievements.contains(
            AchievementType::Scaled,
        ),
        status_applied(t, state, members, lag, scaled_members, at, start).achievements.subset_of(
            t.achievements.insert(AchievementType::Connected).insert(AchievementType::Scaled),
        ),
        t.achievements.subset_of(status_applied(t, state, members, lag, scaled_members, at, start).achievements),
{
}

/// Only an active group counts as active: one more group raises the count
/// of active groups by one when it is active, and leaves it as it was when
/// it is rebalancing, empty or unknown.
pub proof fn lemma_only_active_groups_count(s: Seq<(String, GroupState)>, n: String)
    ensures
        count_active(s.push((n, GroupState::Active))) == count_active(s) + 1,
        count_active(s.push((n, GroupState::Rebalancing))) == count_active(s),
        count_active(s.push((n, GroupState::Empty))) == count_active(s),
        count_active(s.push((n, GroupState::Unknown))) == count_active(s),
        count_active(Seq::<(String, GroupState)>::empty()) == 0,
{
    assert(s.push((n, GroupState::Active)).drop_last() =~= s);
    assert(s.push((n, GroupState::Rebalancing)).drop_last() =~= s);
    assert(s.push((n, GroupState::Empty)).drop_last() =~= s);
    assert(s.push((n, GroupState::Unknown)).drop_last() =~= s);
}

/// No more groups are active than there are groups, and all are when every
/// group is active.
pub proof fn lemma_active_count_bounds(s: Seq<(String, GroupState)>)
    ensures
        count_active(s) <= s.len(),
        (forall|i: int| 0 <= i < s.len() ==> (#[trigger] s[i]).1 == GroupState::Active) ==> count_active(s) == s.len(),
        (forall|i: int| 0 <= i < s.len() ==> (#[trigger] s[i]).1 != GroupState::Active) ==> count_active(s) == 0,
    decreases s.len(),
{
    if s.len() > 0 {
        lemma_active_count_bounds(s.drop_last());
        assert(forall|i: int| 0 <= i < s.drop_last().len() ==> s.drop_last()[i] == s[i]);
    }
}

/// The total of actions adds each team's valid actions once: one more team
/// adds its own count.
pub proof fn lemma_actions_add_up(teams: Seq<(String, TeamState)>, n: String, t: TeamState)
    ensures
        sum_actions(teams.push((n, t))) == sum_actions(teams) + t.action_count,
        sum_actions(Seq::<(String, TeamState)>::empty()) == 0,
{
    assert(teams.push((n, t)).drop_last() =~= teams);
}

/// One more team counts among the teams with `k` steps exactly when it
/// holds `k` achievements.
pub proof fn lemma_step_distribution_counts(teams: Seq<(String, TeamState)>, n: String, t: TeamState, k: nat)
    ensures
        t@.achievements.len() == k ==> count_with_steps(teams.push((n, t)), k) == count_with_steps(teams, k) + 1,
        t@.achievements.len() != k ==> count_with_steps(teams.push((n, t)), k) == count_with_steps(teams, k),
{
    assert(teams.push((n, t)).drop_last() =~= teams);
}

/// A status that is not active connects no team, one with fewer than the
/// required members scales none, and the status's lag, when one was read,
/// becomes the team's lag; the status touches nothing else the team counts.
pub proof fn lemma_status_grants_only_what_it_shows(
    t: TeamView,
    state: GroupState,
    members: u32,
    lag: Option<i64>,
    scaled_members: u32,
    at: i64,
    start: i64,
)
    ensures
        (state != GroupState::Active && !t.achievements.contains(AchievementType::Connected))
            ==> !status_applied(t, state, members, lag, scaled_members, at, start).achievements.contains(
            AchievementType::Connected,
        ),
        (members < scaled_members && !t.achievements.contains(AchievementType::Scaled))
            ==> !status_applied(t, state, members, lag, scaled_members, at, start).achievements.contains(
            AchievementType::Scaled,
        ),
        lag matches Some(l) ==> status_applied(t, state, members, lag, scaled_members, at, start).current_lag == l,
        lag is None ==> status_applied(t, state, members, lag, scaled_members, at, start).current_lag
            == t.current_lag,
        status_applied(t, state, members, lag, scaled_members, at, start).action_count == t.action_count,
        status_applied(t, state, members, lag, scaled_members, at, start).stats_count == t.stats_count,
        (state == GroupState::Active && !t.achievements.contains(AchievementType::Connected)) == status_unlocks(
            t,
            state,
            members,
            scaled_members,
        ).contains(AchievementType::Connected),
        (members >= scaled_members && !t.achievements.contains(AchievementType::Scaled)) == status_unlocks(
            t,
            state,
            members,
            scaled_members,
        ).contains(AchievementType::Scaled),
{
    let u = status_unlocks(t, state, members, scaled_members);
    if state == GroupState::Active && !t.achievements.contains(AchievementType::Connected) {
        assert(u[0] == AchievementType::Connected);
    }
    if members >= scaled_members && !t.achievements.contains(AchievementType::Scaled) {
        assert(u[u.len() - 1] == AchievementType::Scaled);
    }
}

/// A celebration shows for its first three seconds and is kept for ten, so
/// one that shows is kept; data is live for five seconds.
pub proof fn lemma_display_times(secs: nat)
    ensures
        secs < 3 ==> shows_after(secs),
        secs >= 3 ==> !shows_after(secs),
        secs < 10 ==> kept_after(secs),
        secs >= 10 ==> !kept_after(secs),
        shows_after(secs) ==> kept_after(secs),
        secs < 5 ==> live_after(secs),
        secs >= 5 ==> !live_after(secs),
{
}

/// Each number of completed steps from none to four has a colour of its
/// own, green is for a team with all four steps only, and a count beyond
/// four is shown as none.
pub proof fn lemma_row_colors_tell_steps_apart(a: nat, b: nat)
    ensures
        (a <= 4 && b <= 4 && a != b) ==> row_color_for(a) != row_color_for(b),
        (row_color_for(a) == RowColor::Green) == (a == 4),
        (row_color_for(a) == RowColor::DarkGray) == (a == 0 || a > 4),
{
}

/// Only a group reported stable is active; a group preparing or completing
/// a rebalance is rebalancing; an empty or dead group is empty; any other
/// report is unknown.
pub proof fn lemma_group_states_named(s: Seq<char>)
    ensures
        (state_named(s) == GroupState::Active) == (s == "stable"@),
        (state_named(s) == GroupState::Rebalancing) == (s == "preparingrebalance"@ || s == "completingrebalance"@),
        (state_named(s) == GroupState::Empty) == (s == "empty"@ || s == "dead"@),
{
    reveal_strlit("stable");
    reveal_strlit("preparingrebalance");
    reveal_strlit("completingrebalance");
    reveal_strlit("empty");
    reveal_strlit("dead");
    assert("stable"@.len() == 6);
    assert("preparingrebalance"@.len() == 18);
    assert("completingrebalance"@.len() == 19);
    assert("empty"@.len() == 5);
    assert("dead"@.len() == 4);
}

/// Moving up goes `count` rows towards the first row and stops there;
/// moving down goes `count` rows towards the last row and stops there; from
/// the first row nothing moves up, from the last nothing moves down.
pub proof fn lemma_moves_go_by_count(sel: nat, max: nat, count: nat)
    ensures
        sel >= count ==> moved_up(sel, count) == sel - count,
        sel < count ==> moved_up(sel, count) == 0,
        (sel < last_row(max) && sel + count <= last_row(max)) ==> moved_down(sel, max, count) == sel + count,
        (sel < last_row(max) && sel + count > last_row(max)) ==> moved_down(sel, max, count) == last_row(max),
        sel >= last_row(max) ==> moved_down(sel, max, count) == sel,
        max >= 1 ==> last_row(max) + 1 == max,
        max == 0 ==> last_row(max) == 0,
{
}

/// The keys come in opposite pairs: each key that moves up has a partner
/// that moves down as far, and the pairs for one row and for a page differ
/// only in how far they move; the quit keys and the help keys do nothing
/// else.
pub proof fn lemma_keys_pair_up()
    ensures
        normal_key(Key::Up) == KeyEffect::Up(1) && normal_key(Key::Down) == KeyEffect::Down(1),
        normal_key(Key::Char('k')) == normal_key(Key::Up) && normal_key(Key::Char('j')) == normal_key(Key::Down),
        normal_key(Key::Char('[')) == normal_key(Key::Up) && normal_key(Key::Char(']')) == normal_key(Key::Down),
        normal_key(Key::Char('<')) == normal_key(Key::Up) && normal_key(Key::Char('>')) == normal_key(Key::Down),
        normal_key(Key::PageUp) == KeyEffect::Up(5) && normal_key(Key::PageDown) == KeyEffect::Down(5),
        normal_key(Key::Home) == KeyEffect::ToStart && normal_key(Key::Char('g')) == KeyEffect::ToStart,
        normal_key(Key::End) == KeyEffect::ToEnd && normal_key(Key::Char('G')) == KeyEffect::ToEnd,
        normal_key(Key::Char('q')) == KeyEffect::Quit && normal_key(Key::Esc) == KeyEffect::Quit,
        normal_key(Key::Char('h')) == KeyEffect::ShowHelp && normal_key(Key::Char('?')) == KeyEffect::ShowHelp,
        normal_key(Key::Enter) == KeyEffect::ToggleDetail && normal_key(Key::Char('d')) == KeyEffect::ToggleDetail,
        normal_key(Key::Char('f')) == KeyEffect::ToggleFullscreen,
        normal_key(Key::Other) == KeyEffect::Nothing && normal_key(Key::Backspace) == KeyEffect::Nothing,
{
}

/// Celebrations are kept by age alone, in order: all of them when each is
/// younger than ten seconds, none when each is older, and never more than
/// there were.
pub proof fn lemma_celebrations_kept_by_age(cs: Seq<Celebration>, ages: Seq<u64>)
    requires
        cs.len() == ages.len(),
    ensures
        (forall|i: int| 0 <= i < ages.len() ==> #[trigger] ages[i] < 10) ==> recent_celebrations(cs, ages) == cs,
        (forall|i: int| 0 <= i < ages.len() ==> #[trigger] ages[i] >= 10) ==> recent_celebrations(cs, ages).len() == 0,
        recent_celebrations(cs, ages).len() <= cs.len(),
    decreases cs.len(),
{
    if cs.len() > 0 {
        lemma_celebrations_kept_by_age(cs.drop_last(), ages.drop_last());
        assert(forall|i: int| 0 <= i < ages.len() - 1 ==> ages.drop_last()[i] == ages[i]);
        assert(ages.last() == ages[ages.len() - 1]);
        if forall|i: int| 0 <= i < ages.len() ==> #[trigger] ages[i] < 10 {
            assert(cs.drop_last().push(cs.last()) =~= cs);
        }
    }
}

/// The celebration shown is the latest one younger than three seconds: it
/// is that young, every later one is older, and when none shows every one
/// is older.
pub proof fn lemma_latest_young_celebration_shows(ages: Seq<u64>)
    ensures
        match last_showing(ages) {
            Some(i) => 0 <= i < ages.len() && ages[i] < 3 && forall|j: int| i < j < ages.len() ==> #[trigger] ages[j] >= 3,
            None => forall|j: int| 0 <= j < ages.len() ==> #[trigger] ages[j] >= 3,
        },
    decreases ages.len(),
{
    if ages.len() > 0 && ages.last() >= 3 {
        lemma_latest_young_celebration_shows(ages.drop_last());
        assert(forall|j: int| 0 <= j < ages.len() - 1 ==> ages.drop_last()[j] == ages[j]);
        assert(ages.last() == ages[ages.len() - 1]);
    }
}

/// Whole minutes between two instants are the elapsed milliseconds over
/// sixty thousand, rounded toward zero, and change sign with the order of
/// the instants.
pub proof fn lemma_minutes_between(now: int, start: int)
    ensures
        now >= start ==> minutes_between(now, start) * 60000 <= now - start < (minutes_between(now, start) + 1)
            * 60000,
        minutes_between(now, start) == -minutes_between(start, now),
        now >= start ==> minutes_between(now, start) >= 0,
{
}

/// The texts of times: under an hour a session shows its minutes, from an
/// hour on its hours and minutes; an event's age shows seconds under a
/// minute, minutes under five minutes, then "5m+"; an unlock shows minutes
/// under an hour, then hours.
pub proof fn lemma_time_texts(mins: int, secs: nat, now_ms: int, at_ms: int)
    ensures
        mins < 60 ==> minutes_label(mins) == signed_decimal(mins) + "m"@,
        mins >= 60 ==> minutes_label(mins) == decimal((mins / 60) as nat) + "h "@ + decimal((mins % 60) as nat)
            + "m"@,
        secs < 60 ==> age_label(secs) == decimal(secs) + "s"@,
        (60 <= secs && secs < 300) ==> age_label(secs) == decimal(secs / 60) + "m"@,
        secs >= 300 ==> age_label(secs) == "5m+"@,
        secs < 3600 ==> session_label(secs) == decimal(secs / 60) + "m"@,
        minutes_between(now_ms, at_ms) < 60 ==> unlock_age_label(now_ms, at_ms) == signed_decimal(
            minutes_between(now_ms, at_ms),
        ) + "m"@,
        minutes_between(now_ms, at_ms) >= 60 ==> unlock_age_label(now_ms, at_ms) == decimal(
            (minutes_between(now_ms, at_ms) / 60) as nat,
        ) + "h"@,
{
}

/// The progress cell shows the four steps in order, Connected, FirstLoad,
/// Scaled and StatsDone, each by its emoji when held and by the incomplete
/// mark when not.
pub proof fn lemma_progress_marks(held: Set<AchievementType>, a: AchievementType)
    ensures
        held.contains(a) ==> step_mark(held, a) == emoji_text(a),
        !held.contains(a) ==> step_mark(held, a) == STEP_INCOMPLETE@,
        progress_text(held) == step_mark(held, AchievementType::Connected) + step_mark(held, AchievementType::FirstLoad)
            + step_mark(held, AchievementType::Scaled) + step_mark(held, AchievementType::StatsDone),
{
}

} // verus!
