//! Navigation state of the scoreboard: the selected row, the view mode and
//! the panels shown.

use vstd::prelude::*;
use crate::keys::Key;

verus! {

/// View mode of the application.
#[derive(Debug, Clone, Copy, PartialEq, Eq, Structural)]
pub enum ViewMode {
    Normal,
    Help,
}

/// The row selected after moving up `count` rows from `sel`.
pub open spec fn moved_up(sel: nat, count: nat) -> nat {
    if sel > 0 {
        if sel >= count { (sel - count) as nat } else { 0 }
    } else {
        sel
    }
}

/// The last row of a table of `max` rows (0 for an empty table).
pub open spec fn last_row(max: nat) -> nat {
    if max >= 1 { (max - 1) as nat } else { 0 }
}

/// The row selected after moving down `count` rows from `sel` in a table of
/// `max` rows.
pub open spec fn moved_down(sel: nat, max: nat, count: nat) -> nat {
    if sel < last_row(max) {
        if sel + count < last_row(max) { sel + count } else { last_row(max) }
    } else {
        sel
    }
}

/// UI state for rendering. The table widget's selection follows
/// `selected_row`.
pub struct UiState {
    pub view_mode: ViewMode,
    pub selected_row: usize,
    pub sorted_teams: Vec<String>,
    pub show_detail_panel: bool,
    pub fullscreen_mode: bool,
}

impl UiState {
    /// Whether the detail and statistics panels stand beside the table:
    /// when the detail panel is on and the view is not fullscreen.
    pub fn shows_side_panels(&self) -> (r: bool)
        ensures
            r == (self.show_detail_panel && !self.fullscreen_mode),
    {
        self.show_detail_panel && !self.fullscreen_mode
    }

    /// The first row selected, the normal view, the detail panel shown and
    /// no team listed yet.
    pub fn new() -> (r: Self)
        ensures
            r.view_mode == ViewMode::Normal,
            r.selected_row == 0,
            r.sorted_teams@.len() == 0,
            r.show_detail_panel,
            !r.fullscreen_mode,
    {
        UiState {
            view_mode: ViewMode::Normal,
            selected_row: 0,
            sorted_teams: Vec::new(),
            show_detail_panel: true,
            fullscreen_mode: false,
        }
    }

    /// Move the selection up by `count` rows, stopping at the first.
    pub fn move_up(&mut self, count: usize)
        ensures
            final(self).selected_row == moved_up(old(self).selected_row as nat, count as nat),
            final(self).view_mode == old(self).view_mode,
            final(self).sorted_teams == old(self).sorted_teams,
            final(self).show_detail_panel == old(self).show_detail_panel,
            final(self).fullscreen_mode == old(self).fullscreen_mode,
    {
        if self.selected_row > 0 {
            self.selected_row = self.selected_row.saturating_sub(count);
        }
    }

    /// Move the selection down by `count` rows in a table of `max` rows,
    /// stopping at the last.
    pub fn move_down(&mut self, max: usize, count: usize)
        requires
            old(self).selected_row + count <= usize::MAX,
        ensures
            final(self).selected_row == moved_down(old(self).selected_row as nat, max as nat, count as nat),
            final(self).view_mode == old(self).view_mode,
            final(self).sorted_teams == old(self).sorted_teams,
            final(self).show_detail_panel == old(self).show_detail_panel,
            final(self).fullscreen_mode == old(self).fullscreen_mode,
    {
        let last = max.saturating_sub(1);
        if self.selected_row < last {
            let target = self.selected_row + count;
            self.selected_row = if target < last { target } else { last };
        }
    }

    /// Select the first row.
    pub fn go_to_start(&mut self)
        ensures
            final(self).selected_row == 0,
            final(self).view_mode == old(self).view_mode,
            final(self).sorted_teams == old(self).sorted_teams,
            final(self).show_detail_panel == old(self).show_detail_panel,
            final(self).fullscreen_mode == old(self).fullscreen_mode,
    {
        self.selected_row = 0;
    }

    /// Select the last row of a table of `max` rows.
    pub fn go_to_end(&mut self, max: usize)
        ensures
            final(self).selected_row == last_row(max as nat),
            final(self).view_mode == old(self).view_mode,
            final(self).sorted_teams == old(self).sorted_teams,
            final(self).show_detail_panel == old(self).show_detail_panel,
            final(self).fullscreen_mode == old(self).fullscreen_mode,
    {
        self.selected_row = max.saturating_sub(1);
    }

    /// The name of the selected team, if the selection is on a listed team.
    pub fn selected_team(&self) -> (r: Option<&String>)
        ensures
            r == (if self.selected_row < self.sorted_teams@.len() {
                Some(&self.sorted_teams@[self.selected_row as int])
            } else {
                None::<&String>
            }),
    {
        if self.selected_row < self.sorted_teams.len() {
            Some(&self.sorted_teams[self.selected_row])
        } else {
            None
        }
    }

    /// Show or hide the detail panel.
    pub fn toggle_detail_panel(&mut self)
        ensures
            final(self).show_detail_panel == !old(self).show_detail_panel,
            final(self).selected_row == old(self).selected_row,
            final(self).view_mode == old(self).view_mode,
            final(self).sorted_teams == old(self).sorted_teams,
            final(self).fullscreen_mode == old(self).fullscreen_mode,
    {
        self.show_detail_panel = !self.show_detail_panel;
    }

    /// Switch full-screen mode; entering it hides the detail panel.
    pub fn toggle_fullscreen(&mut self)
        ensures
            final(self).fullscreen_mode == !old(self).fullscreen_mode,
            final(self).show_detail_panel == (old(self).show_detail_panel && old(self).fullscreen_mode),
            final(self).selected_row == old(self).selected_row,
            final(self).view_mode == old(self).view_mode,
            final(self).sorted_teams == old(self).sorted_teams,
    {
        self.fullscreen_mode = !self.fullscreen_mode;
        if self.fullscreen_mode {
            self.show_detail_panel = false;
        }
    }
}

/// Moving keeps a selection inside the table: a selection on a row of a
/// table of `max` rows (or on row 0 of an empty one) stays so after moving
/// up or down by any count, and never moves the other way.
pub proof fn lemma_moves_stay_in_table(sel: nat, max: nat, count: nat)
    requires
        sel <= last_row(max),
    ensures
        moved_up(sel, count) <= last_row(max),
        moved_down(sel, max, count) <= last_row(max),
        moved_up(sel, count) <= sel,
        sel <= moved_down(sel, max, count),
{
}

/// Moving down one row and then up one row returns to the same row, unless
/// the selection was already on the last row.
pub proof fn lemma_down_then_up(sel: nat, max: nat)
    requires
        sel < last_row(max),
    ensures
        moved_up(moved_down(sel, max, 1), 1) == sel,
{
}

/// What a key does in the normal view.
#[derive(Debug, Clone, Copy, PartialEq, Eq, Structural)]
pub enum KeyEffect {
    Quit,
    ShowHelp,
    Up(usize),
    Down(usize),
    ToStart,
    ToEnd,
    ToggleDetail,
    ToggleFullscreen,
    Nothing,
}

/// The key bindings of the normal view.
pub open spec fn normal_key(key: Key) -> KeyEffect {
    match key {
        Key::Char('q') | Key::Esc => KeyEffect::Quit,
        Key::Char('?') | Key::Char('h') => KeyEffect::ShowHelp,
        Key::Up | Key::Char('k') | Key::Char('[') | Key::Char('<') => KeyEffect::Up(1),
        Key::Down | Key::Char('j') | Key::Char(']') | Key::Char('>') => KeyEffect::Down(1),
        Key::PageUp => KeyEffect::Up(5),
        Key::PageDown => KeyEffect::Down(5),
        Key::Home | Key::Char('g') => KeyEffect::ToStart,
        Key::End | Key::Char('G') => KeyEffect::ToEnd,
        Key::Enter | Key::Char('d') => KeyEffect::ToggleDetail,
        Key::Char('f') => KeyEffect::ToggleFullscreen,
        _ => KeyEffect::Nothing,
    }
}

/// The keys that close the help overlay.
pub open spec fn closes_help(key: Key) -> bool {
    key == Key::Esc || key == Key::Char('q') || key == Key::Char('?') || key == Key::Backspace
}

/// What a key does in the normal view.
pub fn key_effect(key: Key) -> (r: KeyEffect)
    ensures
        r == normal_key(key),
{
    match key {
        Key::Char('q') | Key::Esc => KeyEffect::Quit,
        Key::Char('?') | Key::Char('h') => KeyEffect::ShowHelp,
        Key::Up | Key::Char('k') | Key::Char('[') | Key::Char('<') => KeyEffect::Up(1),
        Key::Down | Key::Char('j') | Key::Char(']') | Key::Char('>') => KeyEffect::Down(1),
        Key::PageUp => KeyEffect::Up(5),
        Key::PageDown => KeyEffect::Down(5),
        Key::Home | Key::Char('g') => KeyEffect::ToStart,
        Key::End | Key::Char('G') => KeyEffect::ToEnd,
        Key::Enter | Key::Char('d') => KeyEffect::ToggleDetail,
        Key::Char('f') => KeyEffect::ToggleFullscreen,
        _ => KeyEffect::Nothing,
    }
}

impl UiState {
    /// Handle a key press in a table of `max_rows` rows; true when the key
    /// quits. In the normal view the bindings of `normal_key` apply; in the
    /// help view the keys of `closes_help` return to the normal view and
    /// every other key is ignored.
    pub fn handle_key(&mut self, key: Key, max_rows: usize) -> (quit: bool)
        requires
            old(self).view_mode == ViewMode::Normal ==> (normal_key(key) matches KeyEffect::Down(n)
                ==> old(self).selected_row + n <= usize::MAX),
        ensures
            final(self).sorted_teams == old(self).sorted_teams,
            old(self).view_mode == ViewMode::Help ==> {
                &&& !quit
                &&& final(self).view_mode == (if closes_help(key) { ViewMode::Normal } else { ViewMode::Help })
                &&& final(self).selected_row == old(self).selected_row
                &&& final(self).show_detail_panel == old(self).show_detail_panel
                &&& final(self).fullscreen_mode == old(self).fullscreen_mode
            },
            old(self).view_mode == ViewMode::Normal ==> {
                &&& quit == (normal_key(key) == KeyEffect::Quit)
                &&& final(self).view_mode == (if normal_key(key) == KeyEffect::ShowHelp {
                    ViewMode::Help
                } else {
                    ViewMode::Normal
                })
                &&& final(self).selected_row == match normal_key(key) {
                    KeyEffect::Up(n) => moved_up(old(self).selected_row as nat, n as nat),
                    KeyEffect::Down(n) => moved_down(old(self).selected_row as nat, max_rows as nat, n as nat),
                    KeyEffect::ToStart => 0,
                    KeyEffect::ToEnd => last_row(max_rows as nat),
                    _ => old(self).selected_row as nat,
                }
                &&& final(self).show_detail_panel == match normal_key(key) {
                    KeyEffect::ToggleDetail => !old(self).show_detail_panel,
                    KeyEffect::ToggleFullscreen => old(self).show_detail_panel && old(self).fullscreen_mode,
                    _ => old(self).show_detail_panel,
                }
                &&& final(self).fullscreen_mode == (if normal_key(key) == KeyEffect::ToggleFullscreen {
                    !old(self).fullscreen_mode
                } else {
                    old(self).fullscreen_mode
                })
            },
    {
        match self.view_mode {
            ViewMode::Help => {
                if key == Key::Esc || key == Key::Char('q') || key == Key::Char('?') || key == Key::Backspace {
                    self.view_mode = ViewMode::Normal;
                }
                false
            },
            ViewMode::Normal => {
                match key_effect(key) {
                    KeyEffect::Quit => {
                        return true;
                    },
                    KeyEffect::ShowHelp => {
                        self.view_mode = ViewMode::Help;
                    },
                    KeyEffect::Up(n) => self.move_up(n),
                    KeyEffect::Down(n) => self.move_down(max_rows, n),
                    KeyEffect::ToStart => self.go_to_start(),
                    KeyEffect::ToEnd => self.go_to_end(max_rows),
                    KeyEffect::ToggleDetail => self.toggle_detail_panel(),
                    KeyEffect::ToggleFullscreen => self.toggle_fullscreen(),
                    KeyEffect::Nothing => {},
                }
                false
            },
        }
    }
}

} // verus!
