//! Navigation and shared state of the leaderboard: tabs, view modes, the
//! selected row, the teams and the event buffers of the topics.

use vstd::prelude::*;
use crate::assoc::{find_named, lemma_slot_found, lemma_slot_missing, names_distinct, set_named, slot_of};
use crate::event_buffer::EventBuffer;
use crate::keys::Key;
use crate::leaderboard::config::Settings;
use crate::leaderboard::events::BufferedEvent;
use crate::leaderboard::achievements::AchievementType;
use crate::leaderboard::team::{
    CLEAN_STREAK_MESSAGES, ConsumerGroupStatus, HIGH_THROUGHPUT_ACTIONS, TeamState, TeamStateView, count_or_zero,
};
use crate::leaderboard::scoring::{awards_sound, board_of};
use crate::leaderboard::validation::SimpleValidationResult;
use crate::ranking::{RankKey, is_permutation, key_of, rank_order, ranks_no_later};
use crate::roster::{lemma_team_names_distinct, team_label, team_name_of};

verus! {

/// Current view mode for the UI.
#[derive(Debug, Clone, Copy, PartialEq, Eq, Structural)]
pub enum ViewMode {
    Leaderboard,
    TeamDetail,
    Help,
}

/// Current tab selection.
#[derive(Debug, Clone, Copy, PartialEq, Eq, Structural)]
pub enum TopicTab {
    Leaderboard,
    NewUsers,
    Actions,
    Watchlist,
}

impl Default for TopicTab {
    fn default() -> (r: Self)
        ensures
            r == TopicTab::Leaderboard,
    {
        TopicTab::Leaderboard
    }
}

/// The title of a tab.
pub open spec fn tab_title(t: TopicTab) -> Seq<char> {
    match t {
        TopicTab::Leaderboard => "1: Leaderboard"@,
        TopicTab::NewUsers => "2: new_users"@,
        TopicTab::Actions => "3: actions"@,
        TopicTab::Watchlist => "4: watchlist"@,
    }
}

impl TopicTab {
    /// The title of this tab.
    pub fn title(&self) -> (r: &'static str)
        ensures
            r@ == tab_title(*self),
    {
        match self {
            TopicTab::Leaderboard => "1: Leaderboard",
            TopicTab::NewUsers => "2: new_users",
            TopicTab::Actions => "3: actions",
            TopicTab::Watchlist => "4: watchlist",
        }
    }

    /// All tabs in display order.
    pub fn all() -> (r: [TopicTab; 4])
        ensures
            r@ == seq![TopicTab::Leaderboard, TopicTab::NewUsers, TopicTab::Actions, TopicTab::Watchlist],
    {
        let r = [TopicTab::Leaderboard, TopicTab::NewUsers, TopicTab::Actions, TopicTab::Watchlist];
        assert(r@ =~= seq![TopicTab::Leaderboard, TopicTab::NewUsers, TopicTab::Actions, TopicTab::Watchlist]);
        r
    }
}

/// The row selected after moving up in a table of `max` rows: from the
/// first row to the last, from no row to the first.
pub open spec fn wrapped_up(sel: Option<usize>, max: usize) -> Option<usize> {
    if max == 0 {
        sel
    } else {
        match sel {
            Some(i) => if i > 0 { Some((i - 1) as usize) } else { Some((max - 1) as usize) },
            None => Some(0),
        }
    }
}

/// The row selected after moving down in a table of `max` rows: from the
/// last row (or beyond) to the first, from no row to the first.
pub open spec fn wrapped_down(sel: Option<usize>, max: usize) -> Option<usize> {
    if max == 0 {
        sel
    } else {
        match sel {
            Some(i) => if i < max - 1 { Some((i + 1) as usize) } else { Some(0) },
            None => Some(0),
        }
    }
}

/// UI state for navigation and display modes. The table widget's selection
/// follows `selected_row`; the time of the last data update is kept by the
/// caller.
pub struct UiState {
    /// Currently selected row.
    pub selected_row: Option<usize>,
    /// Current view mode.
    pub view_mode: ViewMode,
    /// Currently selected tab.
    pub current_tab: TopicTab,
    /// Scroll offset for event views (lines from the bottom).
    pub event_scroll: usize,
}

impl UiState {
    /// No row selected, the leaderboard view on its tab, no scrolling.
    pub fn new() -> (r: Self)
        ensures
            r.selected_row is None,
            r.view_mode == ViewMode::Leaderboard,
            r.current_tab == TopicTab::Leaderboard,
            r.event_scroll == 0,
    {
        UiState {
            selected_row: None,
            view_mode: ViewMode::Leaderboard,
            current_tab: TopicTab::default(),
            event_scroll: 0,
        }
    }

    /// Move the selection up, wrapping from the first row to the last.
    pub fn move_selection_up(&mut self, max: usize)
        ensures
            final(self).selected_row == wrapped_up(old(self).selected_row, max),
            final(self).view_mode == old(self).view_mode,
            final(self).current_tab == old(self).current_tab,
            final(self).event_scroll == old(self).event_scroll,
    {
        if max == 0 {
            return;
        }
        let new_index = match self.selected_row {
            Some(i) => if i > 0 { i - 1 } else { max - 1 },
            None => 0,
        };
        self.selected_row = Some(new_index);
    }

    /// Move the selection down, wrapping from the last row to the first.
    pub fn move_selection_down(&mut self, max: usize)
        ensures
            final(self).selected_row == wrapped_down(old(self).selected_row, max),
            final(self).view_mode == old(self).view_mode,
            final(self).current_tab == old(self).current_tab,
            final(self).event_scroll == old(self).event_scroll,
    {
        if max == 0 {
            return;
        }
        let new_index = match self.selected_row {
            Some(i) => if i < max - 1 { i + 1 } else { 0 },
            None => 0,
        };
        self.selected_row = Some(new_index);
    }

    /// Select the first row.
    pub fn select_first(&mut self)
        ensures
            final(self).selected_row == Some(0usize),
            final(self).view_mode == old(self).view_mode,
            final(self).current_tab == old(self).current_tab,
            final(self).event_scroll == old(self).event_scroll,
    {
        self.selected_row = Some(0);
    }

    /// Select the last row of a table of `max` rows; an empty table changes
    /// nothing.
    pub fn select_last(&mut self, max: usize)
        ensures
            final(self).selected_row == (if max > 0 { Some((max - 1) as usize) } else { old(self).selected_row }),
            final(self).view_mode == old(self).view_mode,
            final(self).current_tab == old(self).current_tab,
            final(self).event_scroll == old(self).event_scroll,
    {
        if max > 0 {
            self.selected_row = Some(max - 1);
        }
    }
}

/// The tab a key switches to.
pub open spec fn tab_for_key(key: Key) -> Option<TopicTab> {
    match key {
        Key::Char('1') => Some(TopicTab::Leaderboard),
        Key::Char('2') => Some(TopicTab::NewUsers),
        Key::Char('3') => Some(TopicTab::Actions),
        Key::Char('4') => Some(TopicTab::Watchlist),
        _ => None,
    }
}

/// The scroll offset one line further back in a buffer of `len` events.
pub open spec fn scrolled_back(scroll: usize, len: usize) -> usize {
    let up: int = if scroll + 1 > usize::MAX { usize::MAX as int } else { scroll + 1 };
    let last: int = if len >= 1 { len - 1 } else { 0 };
    (if up < last { up } else { last }) as usize
}

/// The UI state after a key press, given the number of teams and the number
/// of events of the current tab, and whether the key quits.
pub open spec fn after_key(s: UiState, key: Key, team_count: usize, buffer_len: usize) -> (UiState, bool) {
    match s.view_mode {
        ViewMode::TeamDetail => (
            if key == Key::Esc || key == Key::Backspace || key == Key::Char('q') {
                UiState { view_mode: ViewMode::Leaderboard, ..s }
            } else {
                s
            },
            false,
        ),
        ViewMode::Help => (
            if key == Key::Esc || key == Key::Char('h') || key == Key::Char('?') || key == Key::Char('q') {
                UiState { view_mode: ViewMode::Leaderboard, ..s }
            } else {
                s
            },
            false,
        ),
        ViewMode::Leaderboard => if key == Key::Char('q') || key == Key::Esc {
            (s, true)
        } else {
            let t = match tab_for_key(key) {
                Some(tab) => UiState { current_tab: tab, event_scroll: 0, ..s },
                None => s,
            };
            let u = if t.current_tab == TopicTab::Leaderboard {
                if key == Key::Up || key == Key::Char('k') {
                    UiState { selected_row: wrapped_up(t.selected_row, team_count), ..t }
                } else if key == Key::Down || key == Key::Char('j') {
                    UiState { selected_row: wrapped_down(t.selected_row, team_count), ..t }
                } else if key == Key::Enter {
                    if t.selected_row is Some { UiState { view_mode: ViewMode::TeamDetail, ..t } } else { t }
                } else if key == Key::Char('h') || key == Key::Char('?') {
                    UiState { view_mode: ViewMode::Help, ..t }
                } else if key == Key::Home {
                    UiState { selected_row: Some(0), ..t }
                } else if key == Key::End {
                    if team_count > 0 { UiState { selected_row: Some((team_count - 1) as usize), ..t } } else { t }
                } else {
                    t
                }
            } else {
                if key == Key::Up || key == Key::Char('k') {
                    UiState { event_scroll: scrolled_back(t.event_scroll, buffer_len), ..t }
                } else if key == Key::Down || key == Key::Char('j') {
                    UiState { event_scroll: if t.event_scroll >= 1 { (t.event_scroll - 1) as usize } else { 0 }, ..t }
                } else if key == Key::Home {
                    UiState { event_scroll: 0, ..t }
                } else if key == Key::End {
                    UiState { event_scroll: if buffer_len >= 1 { (buffer_len - 1) as usize } else { 0 }, ..t }
                } else if key == Key::Char('h') || key == Key::Char('?') {
                    UiState { view_mode: ViewMode::Help, ..t }
                } else {
                    t
                }
            };
            (u, false)
        },
    }
}

impl UiState {
    /// Handle a key press, given the number of teams and the number of events
    /// of the current tab; true when the key quits.
    pub fn handle_key(&mut self, key: Key, team_count: usize, buffer_len: usize) -> (quit: bool)
        ensures
            (*final(self), quit) == after_key(*old(self), key, team_count, buffer_len),
    {
        match self.view_mode {
            ViewMode::TeamDetail => {
                if key == Key::Esc || key == Key::Backspace || key == Key::Char('q') {
                    self.view_mode = ViewMode::Leaderboard;
                }
                return false;
            },
            ViewMode::Help => {
                if key == Key::Esc || key == Key::Char('h') || key == Key::Char('?') || key == Key::Char('q') {
                    self.view_mode = ViewMode::Leaderboard;
                }
                return false;
            },
            ViewMode::Leaderboard => {},
        }
        if key == Key::Char('q') || key == Key::Esc {
            return true;
        }
        let tab = match key {
            Key::Char('1') => Some(TopicTab::Leaderboard),
            Key::Char('2') => Some(TopicTab::NewUsers),
            Key::Char('3') => Some(TopicTab::Actions),
            Key::Char('4') => Some(TopicTab::Watchlist),
            _ => None,
        };
        match tab {
            Some(t) => {
                self.current_tab = t;
                self.event_scroll = 0;
            },
            None => {},
        }
        if self.current_tab == TopicTab::Leaderboard {
            if key == Key::Up || key == Key::Char('k') {
                self.move_selection_up(team_count);
            } else if key == Key::Down || key == Key::Char('j') {
                self.move_selection_down(team_count);
            } else if key == Key::Enter {
                if self.selected_row.is_some() {
                    self.view_mode = ViewMode::TeamDetail;
                }
            } else if key == Key::Char('h') || key == Key::Char('?') {
                self.view_mode = ViewMode::Help;
            } else if key == Key::Home {
                self.select_first();
            } else if key == Key::End {
                self.select_last(team_count);
            }
        } else {
            if key == Key::Up || key == Key::Char('k') {
                let up = self.event_scroll.saturating_add(1);
                let last = buffer_len.saturating_sub(1);
                self.event_scroll = if up < last { up } else { last };
            } else if key == Key::Down || key == Key::Char('j') {
                self.event_scroll = self.event_scroll.saturating_sub(1);
            } else if key == Key::Home {
                self.event_scroll = 0;
            } else if key == Key::End {
                self.event_scroll = buffer_len.saturating_sub(1);
            } else if key == Key::Char('h') || key == Key::Char('?') {
                self.view_mode = ViewMode::Help;
            }
        }
        false
    }
}

/// Moving up undoes moving down, and moving down undoes moving up, for a
/// selection on a row of a non-empty table.
pub proof fn lemma_wrapping_moves_undo(i: usize, max: usize)
    requires
        i < max,
    ensures
        wrapped_up(wrapped_down(Some(i), max), max) == Some(i),
        wrapped_down(wrapped_up(Some(i), max), max) == Some(i),
{
}

/// Only `q` and Esc quit, and only from the leaderboard view; the number
/// keys switch tabs from there and start the new tab at its newest event;
/// a pop-up closes with Esc and leaves the tab and the selection as they
/// were; moving down from a row moves one row further, wrapping to the
/// first at the end.
pub proof fn lemma_keys_of_the_leaderboard(s: UiState, key: Key, team_count: usize, buffer_len: usize, i: usize)
    ensures
        after_key(s, key, team_count, buffer_len).1 == (s.view_mode == ViewMode::Leaderboard && (key == Key::Char('q')
            || key == Key::Esc)),
        s.view_mode == ViewMode::Leaderboard ==> after_key(s, Key::Char('1'), team_count, buffer_len).0.current_tab
            == TopicTab::Leaderboard,
        s.view_mode == ViewMode::Leaderboard ==> after_key(s, Key::Char('2'), team_count, buffer_len).0.current_tab
            == TopicTab::NewUsers,
        s.view_mode == ViewMode::Leaderboard ==> after_key(s, Key::Char('3'), team_count, buffer_len).0.current_tab
            == TopicTab::Actions,
        s.view_mode == ViewMode::Leaderboard ==> after_key(s, Key::Char('4'), team_count, buffer_len).0.current_tab
            == TopicTab::Watchlist,
        s.view_mode == ViewMode::Leaderboard ==> after_key(s, Key::Char('3'), team_count, buffer_len).0.event_scroll
            == 0,
        s.view_mode != ViewMode::Leaderboard ==> ({
            let t = after_key(s, Key::Esc, team_count, buffer_len).0;
            &&& t.view_mode == ViewMode::Leaderboard
            &&& t.current_tab == s.current_tab
            &&& t.selected_row == s.selected_row
            &&& t.event_scroll == s.event_scroll
        }),
        (s.view_mode == ViewMode::Leaderboard && s.current_tab == TopicTab::Leaderboard && s.selected_row
            == Some(i) && i + 1 < team_count) ==> after_key(s, Key::Down, team_count, buffer_len).0.selected_row
            == Some((i + 1) as usize),
        (s.view_mode == ViewMode::Leaderboard && s.current_tab == TopicTab::Leaderboard && s.selected_row
            == Some(i) && i + 1 == team_count) ==> after_key(s, Key::Down, team_count, buffer_len).0.selected_row
            == Some(0usize),
{
}

/// In a non-empty table a move from no row or from one of its rows lands on
/// one of its rows; moving down always does.
pub proof fn lemma_wrapping_moves_in_table(sel: Option<usize>, max: usize)
    requires
        max > 0,
    ensures
        wrapped_down(sel, max) matches Some(i) && i < max,
        (sel matches Some(j) ==> j < max) ==> (wrapped_up(sel, max) matches Some(i) && i < max),
{
}

/// Application state shared between tasks.
pub struct AppState {
    /// The teams, keyed by name.
    pub teams: Vec<(String, TeamState)>,
    pub consumer_groups: Vec<ConsumerGroupStatus>,
    pub settings: Settings,
    /// Whether FirstBlood has been given.
    pub first_blood_awarded: bool,
    /// Whether Champion has been given.
    pub champion_awarded: bool,
    /// High watermark of the new_users topic.
    pub topic_high_watermark: i64,
    pub new_users_events: EventBuffer<BufferedEvent>,
    pub actions_events: EventBuffer<BufferedEvent>,
    pub watchlist_events: EventBuffer<BufferedEvent>,
}

/// The state of a team that has done nothing yet.
pub open spec fn fresh_team(name: Seq<char>) -> TeamStateView {
    TeamStateView {
        team_name: name,
        achievements: Set::empty(),
        action_count: 0,
        watchlist_count: 0,
        error_counts: Map::empty(),
        max_lag_seen: 0,
        current_lag: 0,
        messages_consumed: 0,
        clean_streak_count: 0,
    }
}

/// What a team is ranked by: its steps, its valid actions and its name.
pub open spec fn team_rank(t: TeamState) -> (nat, nat, Seq<char>) {
    (t@.steps_done().len(), t.action_count as nat, t.team_name@)
}

impl AppState {
    /// All fifteen teams, `team-1` to `team-15` in that order, with nothing
    /// done; no consumer groups and nothing awarded; each topic's buffer
    /// holds up to 150 events.
    pub fn new(settings: Settings) -> (r: Self)
        ensures
            r.teams@.len() == 15,
            names_distinct(r.teams@),
            forall|i: int| 0 <= i < 15 ==> {
                &&& (#[trigger] r.teams@[i]).0@ == team_name_of((i + 1) as nat)
                &&& r.teams@[i].1@ == fresh_team(team_name_of((i + 1) as nat))
            },
            r.consumer_groups@.len() == 0,
            !r.first_blood_awarded,
            !r.champion_awarded,
            r.topic_high_watermark == 0,
            awards_sound(board_of(r)),
            r.new_users_events@.len() == 0 && r.new_users_events.spec_capacity() == 150,
            r.actions_events@.len() == 0 && r.actions_events.spec_capacity() == 150,
            r.watchlist_events@.len() == 0 && r.watchlist_events.spec_capacity() == 150,
    {
        let mut teams: Vec<(String, TeamState)> = Vec::new();
        let mut n: u32 = 1;
        while n <= 15
            invariant
                1 <= n <= 16,
                teams@.len() == n - 1,
                names_distinct(teams@),
                forall|i: int| 0 <= i < n - 1 ==> {
                    &&& (#[trigger] teams@[i]).0@ == team_name_of((i + 1) as nat)
                    &&& teams@[i].1@ == fresh_team(team_name_of((i + 1) as nat))
                },
            decreases 16 - n,
        {
            let name = team_label(n);
            let team = TeamState::new(team_label(n));
            proof {
                assert forall|i: int| 0 <= i < teams@.len() implies teams@[i].0@ != name@ by {
                    if teams@[i].0@ == name@ {
                        lemma_team_names_distinct((i + 1) as nat, n as nat);
                    }
                }
            }
            teams.push((name, team));
            n = n + 1;
        }
        let r = AppState {
            teams,
            consumer_groups: Vec::new(),
            settings,
            first_blood_awarded: false,
            champion_awarded: false,
            topic_high_watermark: 0,
            new_users_events: EventBuffer::new(150),
            actions_events: EventBuffer::new(150),
            watchlist_events: EventBuffer::new(150),
        };
        assert forall|i: int| 0 <= i < board_of(r).teams.len() implies #[trigger] board_of(r).teams[i].1.achievements
            =~= Set::empty() by {}
        r
    }

    /// Copies of the teams in leaderboard order: more steps first, then more
    /// valid actions, then names in ascending order.
    pub fn get_sorted_teams(&self) -> (r: Vec<TeamState>)
        ensures
            exists|order: Seq<usize>| {
                &&& #[trigger] is_permutation(order, self.teams@.len())
                &&& r@.len() == self.teams@.len()
                &&& forall|k: int| 0 <= k < r@.len() ==> (#[trigger] r@[k])@ == self.teams@[order[k] as int].1@
                &&& forall|i: int, j: int|
                    0 <= i < j < order.len() ==> #[trigger] ranks_no_later(
                        team_rank(self.teams@[order[i] as int].1),
                        team_rank(self.teams@[order[j] as int].1),
                    )
            },
    {
        let mut keys: Vec<RankKey> = Vec::new();
        let mut i: usize = 0;
        while i < self.teams.len()
            invariant
                i <= self.teams.len(),
                keys@.len() == i,
                forall|k: int| 0 <= k < i ==> #[trigger] key_of(keys@[k]) == team_rank(self.teams@[k].1),
            decreases self.teams.len() - i,
        {
            let steps = self.teams[i].1.step_count();
            keys.push(RankKey {
                steps,
                actions: self.teams[i].1.action_count,
                name: self.teams[i].1.team_name.clone(),
            });
            i = i + 1;
        }
        let order = rank_order(&keys);
        let mut out: Vec<TeamState> = Vec::new();
        let mut k: usize = 0;
        while k < order.len()
            invariant
                is_permutation(order@, self.teams@.len() as nat),
                keys@.len() == self.teams@.len(),
                k <= order.len(),
                out@.len() == k,
                forall|m: int| 0 <= m < k ==> (#[trigger] out@[m])@ == self.teams@[order@[m] as int].1@,
            decreases order.len() - k,
        {
            out.push(self.teams[order[k]].1.duplicate());
            k = k + 1;
        }
        proof {
            assert forall|a: int, b: int| 0 <= a < b < order@.len() implies #[trigger] ranks_no_later(
                team_rank(self.teams@[order@[a] as int].1),
                team_rank(self.teams@[order@[b] as int].1),
            ) by {
                assert(ranks_no_later(key_of(keys@[order@[a] as int]), key_of(keys@[order@[b] as int])));
            }
            assert(is_permutation(order@, self.teams@.len()));
        }
        out
    }

    /// A valid action, an unreadable one or one with missing fields arrived
    /// (`extracted_team` is the team named by an unreadable message, if
    /// any). Each counts as a message consumed by its team. A valid action
    /// counts for its team and extends its clean streak, and unlocks its
    /// first load, HighThroughput at one hundred valid actions and
    /// CleanStreak at fifty messages in a row without an error; an
    /// unreadable one counts as a parse error of the team it names, one with
    /// missing fields as a missing-fields error of its team, and either
    /// error ends the clean streak. True when the team's state is to be
    /// persisted: after each valid action of a team.
    pub fn record_action_result(&mut self, result: &SimpleValidationResult, extracted_team: &Option<String>) -> (persist: bool)
        requires
            forall|i: int| 0 <= i < old(self).teams@.len() && result_team(*result, *extracted_team) == Some(
                (#[trigger] old(self).teams@[i]).0@,
            ) ==> {
                &&& old(self).teams@[i].1.action_count < u64::MAX
                &&& old(self).teams@[i].1.messages_consumed < u64::MAX
                &&& old(self).teams@[i].1.clean_streak_count < u64::MAX
                &&& count_or_zero(old(self).teams@[i].1@.error_counts, AchievementType::ParseError) < u32::MAX
                &&& count_or_zero(old(self).teams@[i].1@.error_counts, AchievementType::MissingFields) < u32::MAX
            },
        ensures
            ({
                let (name, change) = match *result {
                    SimpleValidationResult::Valid { team } => (Some(team@), 0int),
                    SimpleValidationResult::MissingFields { team } => (Some(team@), 2int),
                    SimpleValidationResult::InvalidJson => match *extracted_team {
                        Some(t) => (Some(t@), 1int),
                        None => (None::<Seq<char>>, 1int),
                    },
                };
                match name {
                    Some(n) => match slot_of(old(self).teams@, n) {
                        Some(i) => {
                            let before = old(self).teams@[i].1@.consumed();
                            let after = if change == 0 {
                                before.valid_scored()
                            } else if change == 1 {
                                before.error_recorded(AchievementType::ParseError)
                            } else {
                                before.error_recorded(AchievementType::MissingFields)
                            };
                            &&& final(self).teams@.len() == old(self).teams@.len()
                            &&& final(self).teams@[i].0 == old(self).teams@[i].0
                            &&& final(self).teams@[i].1@ == after
                            &&& forall|j: int| 0 <= j < old(self).teams@.len() && j != i ==> #[trigger] final(self).teams@[j]
                                == old(self).teams@[j]
                            &&& persist == (change == 0)
                        },
                        None => final(self).teams == old(self).teams && !persist,
                    },
                    None => final(self).teams == old(self).teams && !persist,
                }
            }),
            final(self).consumer_groups == old(self).consumer_groups,
            final(self).first_blood_awarded == old(self).first_blood_awarded,
            final(self).champion_awarded == old(self).champion_awarded,
    {
        let (name, change): (&str, u8) = match result {
            SimpleValidationResult::Valid { team } => (team.as_str(), 0),
            SimpleValidationResult::MissingFields { team } => (team.as_str(), 2),
            SimpleValidationResult::InvalidJson => match extracted_team {
                Some(t) => (t.as_str(), 1),
                None => return false,
            },
        };
        match find_named(&self.teams, name) {
            Some(i) => {
                proof {
                    lemma_slot_found(old(self).teams@, name@, i as int);
                }
                let team = &mut self.teams[i].1;
                team.messages_consumed = team.messages_consumed + 1;
                if change == 0 {
                    team.action_count = team.action_count + 1;
                    team.increment_clean_streak();
                    team.unlock_achievement(AchievementType::FirstLoad);
                    if team.action_count >= HIGH_THROUGHPUT_ACTIONS {
                        team.unlock_achievement(AchievementType::HighThroughput);
                    }
                    if team.clean_streak_count >= CLEAN_STREAK_MESSAGES {
                        team.unlock_achievement(AchievementType::CleanStreak);
                    }
                    true
                } else if change == 1 {
                    team.record_error(AchievementType::ParseError);
                    false
                } else {
                    team.record_error(AchievementType::MissingFields);
                    false
                }
            },
            None => {
                proof {
                    lemma_slot_missing(old(self).teams@, name@);
                }
                false
            },
        }
    }

    /// A team's persisted state was read back: it takes the place of the
    /// team of that name, or joins the class when there is none. A restored
    /// team that holds FirstBlood or Champion marks it as given.
    pub fn restore_team(&mut self, team: TeamState)
        ensures
            final(self).first_blood_awarded == (old(self).first_blood_awarded || team@.achievements.contains(
                AchievementType::FirstBlood,
            )),
            final(self).champion_awarded == (old(self).champion_awarded || team@.achievements.contains(
                AchievementType::Champion,
            )),
            match slot_of(old(self).teams@, team.team_name@) {
                Some(i) => final(self).teams@ == old(self).teams@.update(i, (team.team_name, team)),
                None => final(self).teams@ == old(self).teams@.push((team.team_name, team)),
            },
            names_distinct(old(self).teams@) ==> names_distinct(final(self).teams@),
            final(self).consumer_groups == old(self).consumer_groups,
            final(self).topic_high_watermark == old(self).topic_high_watermark,
    {
        if team.has_achievement(AchievementType::FirstBlood) {
            self.first_blood_awarded = true;
        }
        if team.has_achievement(AchievementType::Champion) {
            self.champion_awarded = true;
        }
        let name = team.team_name.clone();
        set_named(&mut self.teams, name, team);
    }

    /// A watchlist entry of `team_name` arrived: the team counts it and
    /// unlocks its watchlist step. True when the step was unlocked by this
    /// entry.
    pub fn record_watchlist_entry(&mut self, team_name: &str) -> (unlocked: bool)
        requires
            slot_of(old(self).teams@, team_name@) matches Some(i) ==> old(self).teams@[i].1.watchlist_count < u64::MAX,
        ensures
            match slot_of(old(self).teams@, team_name@) {
                Some(i) => {
                    let before = old(self).teams@[i].1@;
                    &&& final(self).teams@.len() == old(self).teams@.len()
                    &&& final(self).teams@[i].0 == old(self).teams@[i].0
                    &&& final(self).teams@[i].1@ == TeamStateView {
                        watchlist_count: (before.watchlist_count + 1) as u64,
                        ..before
                    }.unlocked(AchievementType::WatchlistDone)
                    &&& forall|j: int| 0 <= j < old(self).teams@.len() && j != i ==> #[trigger] final(self).teams@[j]
                        == old(self).teams@[j]
                    &&& unlocked == !before.achievements.contains(AchievementType::WatchlistDone)
                },
                None => final(self).teams == old(self).teams && !unlocked,
            },
            final(self).consumer_groups == old(self).consumer_groups,
    {
        match find_named(&self.teams, team_name) {
            Some(i) => {
                proof {
                    lemma_slot_found(old(self).teams@, team_name@, i as int);
                }
                let team = &mut self.teams[i].1;
                team.watchlist_count = team.watchlist_count + 1;
                team.unlock_achievement(AchievementType::WatchlistDone)
            },
            None => {
                proof {
                    lemma_slot_missing(old(self).teams@, team_name@);
                }
                false
            },
        }
    }
}

/// The name of the team an action result concerns.
pub open spec fn result_team(result: SimpleValidationResult, extracted_team: Option<String>) -> Option<Seq<char>> {
    match result {
        SimpleValidationResult::Valid { team } => Some(team@),
        SimpleValidationResult::MissingFields { team } => Some(team@),
        SimpleValidationResult::InvalidJson => match extracted_team {
            Some(t) => Some(t@),
            None => None,
        },
    }
}

/// The team an action event is shown under: the team of a readable action,
/// or the team that an unreadable message names.
pub fn event_team(result: &SimpleValidationResult, extracted_team: &Option<String>) -> (r: Option<String>)
    ensures
        r == (match *result {
            SimpleValidationResult::Valid { team } => Some(team),
            SimpleValidationResult::MissingFields { team } => Some(team),
            SimpleValidationResult::InvalidJson => *extracted_team,
        }),
{
    match result {
        SimpleValidationResult::Valid { team } => Some(team.clone()),
        SimpleValidationResult::MissingFields { team } => Some(team.clone()),
        SimpleValidationResult::InvalidJson => match extracted_team {
            Some(t) => Some(t.clone()),
            None => None,
        },
    }
}

} // verus!
