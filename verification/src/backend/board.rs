//! What the scoreboard shows: the team order, progress marks, row colours,
//! the header's counts and texts, and truncated cells.

use vstd::prelude::*;
use std::time::Instant;
use crate::backend::achievements::{AchievementType, STEP_INCOMPLETE, emoji_text};
use crate::backend::team::{GroupState, TeamState, minutes_between};
use crate::clock::elapsed_secs;
use crate::ranking::{RankKey, is_permutation, key_of, rank_order, ranks_no_later};
use crate::text::{decimal, i64_decimal, push_char, signed_decimal, u64_decimal};
use vstd::utf8::{decode_utf8, encode_utf8, encode_utf8_valid_utf8, is_char_boundary};

verus! {

/// What a team is ranked by: its steps, its valid actions and its name.
pub open spec fn team_rank(t: (String, TeamState)) -> (nat, nat, Seq<char>) {
    (t.1@.achievements.len(), t.1.action_count as nat, t.0@)
}

/// `names` holds the names of `teams` in leaderboard order: more steps
/// first, then more actions, then names in ascending order.
pub open spec fn sorted_names(teams: Seq<(String, TeamState)>, names: Seq<String>) -> bool {
    exists|order: Seq<usize>| {
        &&& #[trigger] is_permutation(order, teams.len())
        &&& names.len() == teams.len()
        &&& forall|k: int| 0 <= k < names.len() ==> #[trigger] names[k]@ == teams[order[k] as int].0@
        &&& forall|i: int, j: int|
            0 <= i < j < order.len() ==> #[trigger] ranks_no_later(
                team_rank(teams[order[i] as int]),
                team_rank(teams[order[j] as int]),
            )
    }
}

/// The team names in leaderboard order (by progress, then action count,
/// then name).
pub fn get_sorted_teams(teams: &Vec<(String, TeamState)>) -> (r: Vec<String>)
    ensures
        sorted_names(teams@, r@),
{
    let mut keys: Vec<RankKey> = Vec::new();
    let mut i: usize = 0;
    while i < teams.len()
        invariant
            i <= teams.len(),
            keys@.len() == i,
            forall|k: int| 0 <= k < i ==> #[trigger] key_of(keys@[k]) == team_rank(teams@[k]),
        decreases teams.len() - i,
    {
        let steps = teams[i].1.step_count();
        keys.push(RankKey { steps, actions: teams[i].1.action_count, name: teams[i].0.clone() });
        i = i + 1;
    }
    let order = rank_order(&keys);
    let mut names: Vec<String> = Vec::new();
    let mut k: usize = 0;
    while k < order.len()
        invariant
            is_permutation(order@, teams.len() as nat),
            keys@.len() == teams.len(),
            k <= order.len(),
            names@.len() == k,
            forall|m: int| 0 <= m < k ==> #[trigger] names@[m]@ == teams@[order@[m] as int].0@,
        decreases order.len() - k,
    {
        names.push(teams[order[k]].0.clone());
        k = k + 1;
    }
    proof {
        assert forall|a: int, b: int| 0 <= a < b < order@.len() implies #[trigger] ranks_no_later(
            team_rank(teams@[order@[a] as int]),
            team_rank(teams@[order@[b] as int]),
        ) by {
            assert(ranks_no_later(key_of(keys@[order@[a] as int]), key_of(keys@[order@[b] as int])));
        }
        assert(is_permutation(order@, teams@.len()));
    }
    names
}

/// The progress mark of one step: its emoji when unlocked.
pub open spec fn step_mark(achievements: Set<AchievementType>, a: AchievementType) -> Seq<char> {
    if achievements.contains(a) {
        emoji_text(a)
    } else {
        STEP_INCOMPLETE@
    }
}

/// The progress marks of all four steps in display order.
pub open spec fn progress_text(achievements: Set<AchievementType>) -> Seq<char> {
    step_mark(achievements, AchievementType::Connected) + step_mark(achievements, AchievementType::FirstLoad)
        + step_mark(achievements, AchievementType::Scaled) + step_mark(achievements, AchievementType::StatsDone)
}

/// The progress emojis of a team.
pub fn get_progress_emojis(state: &TeamState) -> (r: String)
    ensures
        r@ == progress_text(state@.achievements),
{
    let steps = AchievementType::all_steps();
    let mut progress = String::new();
    let mut i: usize = 0;
    while i < 4
        invariant
            i <= 4,
            steps@ == crate::backend::achievements::step_order(),
            progress@ == (if i == 0 {
                Seq::<char>::empty()
            } else if i == 1 {
                step_mark(state@.achievements, AchievementType::Connected)
            } else if i == 2 {
                step_mark(state@.achievements, AchievementType::Connected) + step_mark(
                    state@.achievements,
                    AchievementType::FirstLoad,
                )
            } else if i == 3 {
                step_mark(state@.achievements, AchievementType::Connected) + step_mark(
                    state@.achievements,
                    AchievementType::FirstLoad,
                ) + step_mark(state@.achievements, AchievementType::Scaled)
            } else {
                progress_text(state@.achievements)
            }),
        decreases 4 - i,
    {
        let step = steps[i];
        if state.has_achievement(step) {
            progress.append(step.emoji());
        } else {
            progress.append(STEP_INCOMPLETE);
        }
        i = i + 1;
    }
    progress
}

/// Colour of a table row.
#[derive(Debug, Clone, Copy, PartialEq, Eq, Structural)]
pub enum RowColor {
    Green,
    Yellow,
    Cyan,
    LightBlue,
    DarkGray,
}

/// The row colour for a number of completed steps.
pub open spec fn row_color_for(step_count: nat) -> RowColor {
    if step_count == 4 {
        RowColor::Green
    } else if step_count == 3 {
        RowColor::Yellow
    } else if step_count == 2 {
        RowColor::Cyan
    } else if step_count == 1 {
        RowColor::LightBlue
    } else {
        RowColor::DarkGray
    }
}

/// The row colour based on step progress.
pub fn get_row_color(step_count: usize) -> (r: RowColor)
    ensures
        r == row_color_for(step_count as nat),
{
    match step_count {
        4 => RowColor::Green,
        3 => RowColor::Yellow,
        2 => RowColor::Cyan,
        1 => RowColor::LightBlue,
        _ => RowColor::DarkGray,
    }
}

/// The text of `s` cut to fit `max_len` bytes: a string longer than that
/// keeps its first `max_len - 3` bytes (none when `max_len` is below 3)
/// followed by "...".
pub open spec fn truncated(s: Seq<char>, max_len: usize) -> Seq<char> {
    if (encode_utf8(s).len() as usize) > max_len {
        decode_utf8(encode_utf8(s).subrange(0, if max_len >= 3 { max_len - 3 } else { 0 })) + "..."@
    } else {
        s
    }
}

/// Cut `s` to fit `max_len` bytes, marking the cut with "...". The cut must
/// fall between two characters.
pub fn truncate(s: &str, max_len: usize) -> (r: String)
    requires
        s.len() > max_len ==> is_char_boundary(encode_utf8(s@), max_len.saturating_sub(3) as int),
    ensures
        r@ == truncated(s@, max_len),
{
    proof {
        encode_utf8_valid_utf8(s@);
    }
    if s.len() > max_len {
        let cut = max_len.saturating_sub(3);
        assert(cut == if max_len >= 3 { max_len - 3 } else { 0 });
        let (head, _tail) = s.split_at(cut);
        proof {
            vstd::utf8::encode_utf8_decode_utf8(head@);
            assert(encode_utf8(head@) =~= encode_utf8(s@).subrange(0, cut as int));
        }
        let mut r = head.to_owned();
        r.append("...");
        assert(r@ =~= head@ + "..."@);
        r
    } else {
        s.to_owned()
    }
}

/// Number of entries whose group is active.
pub open spec fn count_active(states: Seq<(String, GroupState)>) -> nat
    decreases states.len(),
{
    if states.len() == 0 {
        0
    } else {
        count_active(states.drop_last()) + if states.last().1 == GroupState::Active {
            1nat
        } else {
            0nat
        }
    }
}

/// Number of teams that have completed exactly `k` steps.
pub open spec fn count_with_steps(teams: Seq<(String, TeamState)>, k: nat) -> nat
    decreases teams.len(),
{
    if teams.len() == 0 {
        0
    } else {
        count_with_steps(teams.drop_last(), k) + if teams.last().1@.achievements.len() == k {
            1nat
        } else {
            0nat
        }
    }
}

/// The valid actions of all teams together.
pub open spec fn sum_actions(teams: Seq<(String, TeamState)>) -> nat
    decreases teams.len(),
{
    if teams.len() == 0 {
        0
    } else {
        sum_actions(teams.drop_last()) + teams.last().1.action_count as nat
    }
}

/// A session length in whole seconds as the header shows it: `"{m}m"` under
/// an hour, `"{h}h{mm}m"` with two minute digits from an hour on.
pub open spec fn session_label(secs: nat) -> Seq<char> {
    let mins = secs / 60;
    let hours = mins / 60;
    let m = mins % 60;
    if hours > 0 {
        decimal(hours) + "h"@ + (if m < 10 { "0"@ + decimal(m) } else { decimal(m) }) + "m"@
    } else {
        decimal(m) + "m"@
    }
}

/// The text of a session length in whole seconds.
pub fn session_text(secs: u64) -> (r: String)
    ensures
        r@ == session_label(secs as nat),
{
    proof {
        reveal_strlit("h");
        reveal_strlit("0");
        reveal_strlit("m");
    }
    let mins = secs / 60;
    let hours = mins / 60;
    let m = mins % 60;
    if hours > 0 {
        let mut s = u64_decimal(hours);
        push_char(&mut s, 'h');
        if m < 10 {
            push_char(&mut s, '0');
        }
        s.append(u64_decimal(m).as_str());
        push_char(&mut s, 'm');
        assert(s@ =~= session_label(secs as nat));
        s
    } else {
        let mut s = u64_decimal(m);
        push_char(&mut s, 'm');
        assert(s@ =~= session_label(secs as nat));
        s
    }
}

/// Data that arrived `secs` whole seconds ago is live.
pub open spec fn live_after(secs: nat) -> bool {
    secs < 5
}

/// Data needed for rendering the header.
pub struct HeaderData<'a> {
    pub teams: &'a Vec<(String, TeamState)>,
    pub group_states: &'a Vec<(String, GroupState)>,
    pub session_start: Instant,
    pub last_data_update: Option<Instant>,
}

impl<'a> HeaderData<'a> {
    /// Count of the groups in the active state.
    pub fn active_count(&self) -> (r: usize)
        ensures
            r == count_active(self.group_states@),
    {
        let mut count: usize = 0;
        let mut i: usize = 0;
        while i < self.group_states.len()
            invariant
                i <= self.group_states.len(),
                count == count_active(self.group_states@.take(i as int)),
                count <= i,
            decreases self.group_states.len() - i,
        {
            assert(self.group_states@.take(i + 1).drop_last() =~= self.group_states@.take(i as int));
            if self.group_states[i].1 == GroupState::Active {
                count = count + 1;
            }
            i = i + 1;
        }
        assert(self.group_states@.take(i as int) =~= self.group_states@);
        count
    }

    /// The session duration as text; the duration is read from the clock
    /// and shown as `session_text` shows it.
    pub fn session_duration(&self) -> (r: String)
        ensures
            exists|secs: u64| r@ == #[trigger] session_label(secs as nat),
    {
        session_text(elapsed_secs(&self.session_start))
    }

    /// Whether data arrived within the last five seconds (by the clock):
    /// never before any data arrived; after that the answer depends on the
    /// clock, which `live_after` decides from the seconds read.
    pub fn is_live(&self) -> (r: bool)
        ensures
            self.last_data_update is None ==> !r,
    {
        match self.last_data_update {
            Some(t) => {
                let secs = elapsed_secs(&t);
                assert(live_after(secs as nat) == (secs < 5));
                secs < 5
            },
            None => false,
        }
    }

    /// How many teams have completed each number of steps, from none to
    /// all four.
    pub fn step_distribution(&self) -> (r: [usize; 5])
        ensures
            forall|k: int| 0 <= k < 5 ==> r@[k] == count_with_steps(self.teams@, k as nat),
    {
        let mut dist: [usize; 5] = [0, 0, 0, 0, 0];
        let mut i: usize = 0;
        while i < self.teams.len()
            invariant
                i <= self.teams.len(),
                forall|k: int| 0 <= k < 5 ==> dist@[k] == count_with_steps(self.teams@.take(i as int), k as nat),
                forall|k: int| 0 <= k < 5 ==> dist@[k] <= i,
            decreases self.teams.len() - i,
        {
            assert(self.teams@.take(i + 1).drop_last() =~= self.teams@.take(i as int));
            let steps = self.teams[i].1.step_count();
            if steps <= 4 {
                dist[steps] = dist[steps] + 1;
            }
            i = i + 1;
        }
        assert(self.teams@.take(i as int) =~= self.teams@);
        dist
    }

    /// The valid actions of all teams together.
    pub fn total_actions(&self) -> (r: u64)
        requires
            sum_actions(self.teams@) <= u64::MAX,
        ensures
            r == sum_actions(self.teams@),
    {
        let mut total: u64 = 0;
        let mut i: usize = 0;
        while i < self.teams.len()
            invariant
                i <= self.teams.len(),
                sum_actions(self.teams@) <= u64::MAX,
                total == sum_actions(self.teams@.take(i as int)),
            decreases self.teams.len() - i,
        {
            assert(self.teams@.take(i + 1).drop_last() =~= self.teams@.take(i as int));
            proof {
                lemma_sum_actions_prefix(self.teams@, i + 1);
            }
            total = total + self.teams[i].1.action_count;
            i = i + 1;
        }
        assert(self.teams@.take(i as int) =~= self.teams@);
        total
    }
}

/// A prefix of the teams has no more actions than all of them.
pub proof fn lemma_sum_actions_prefix(teams: Seq<(String, TeamState)>, n: int)
    requires
        0 <= n <= teams.len(),
    ensures
        sum_actions(teams.take(n)) <= sum_actions(teams),
    decreases teams.len() - n,
{
    if n < teams.len() {
        lemma_sum_actions_prefix(teams, n + 1);
        assert(teams.take(n + 1).drop_last() =~= teams.take(n));
    } else {
        assert(teams.take(n) =~= teams);
    }
}

/// How long ago an achievement was unlocked, from the time of the unlock and
/// the time now (milliseconds since the epoch): whole minutes under an hour,
/// whole hours from an hour on.
pub open spec fn unlock_age_label(now_ms: int, at_ms: int) -> Seq<char> {
    let mins = minutes_between(now_ms, at_ms);
    if mins < 60 {
        signed_decimal(mins) + "m"@
    } else {
        decimal((mins / 60) as nat) + "h"@
    }
}

/// The text of how long ago an achievement was unlocked.
pub fn unlock_age_text(now_ms: i64, at_ms: i64) -> (r: String)
    ensures
        r@ == unlock_age_label(now_ms as int, at_ms as int),
{
    proof {
        reveal_strlit("m");
        reveal_strlit("h");
    }
    let d: i128 = now_ms as i128 - at_ms as i128;
    let mins: i128 = if d >= 0 {
        d / 60000
    } else {
        -((-d) / 60000)
    };
    if mins < 60 {
        let mut s = i64_decimal(mins as i64);
        push_char(&mut s, 'm');
        assert(s@ =~= signed_decimal(mins as int) + "m"@);
        s
    } else {
        let mut s = u64_decimal((mins / 60) as u64);
        push_char(&mut s, 'h');
        assert(s@ =~= decimal((mins / 60) as nat) + "h"@);
        s
    }
}

/// `s` right-aligned in `width` columns: spaces before it up to that width.
pub open spec fn right_aligned(s: Seq<char>, width: nat) -> Seq<char> {
    if s.len() >= width {
        s
    } else {
        Seq::new((width - s.len()) as nat, |i: int| ' ') + s
    }
}

/// The rank cell of a row: `>` and the rank on the selected row, otherwise
/// the rank right-aligned in two columns.
pub open spec fn rank_label(rank: nat, selected: bool) -> Seq<char> {
    if selected {
        seq!['>'] + decimal(rank)
    } else {
        right_aligned(decimal(rank), 2)
    }
}

/// A number has one decimal digit exactly when it is below ten.
proof fn lemma_one_digit(n: nat)
    ensures
        (decimal(n).len() == 1) == (n < 10),
        decimal(n).len() >= 1,
{
    reveal_with_fuel(decimal, 2);
}

/// The text of a row's rank cell.
pub fn rank_text(rank: u64, selected: bool) -> (r: String)
    ensures
        r@ == rank_label(rank as nat, selected),
{
    proof {
        lemma_one_digit(rank as nat);
    }
    let digits = u64_decimal(rank);
    let mut s = String::new();
    if selected {
        push_char(&mut s, '>');
    } else if rank < 10 {
        push_char(&mut s, ' ');
    }
    s.append(digits.as_str());
    assert(s@ =~= rank_label(rank as nat, selected));
    s
}

/// A count cell: the count, or `-` when there is nothing counted.
pub open spec fn count_label(n: nat) -> Seq<char> {
    if n > 0 {
        decimal(n)
    } else {
        seq!['-']
    }
}

/// The text of a count cell.
pub fn count_text(n: u64) -> (r: String)
    ensures
        r@ == count_label(n as nat),
{
    if n > 0 {
        u64_decimal(n)
    } else {
        let mut s = String::new();
        push_char(&mut s, '-');
        s
    }
}

} // verus!
