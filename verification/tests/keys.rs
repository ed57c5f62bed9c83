use kafka_tutorial::backend::ui_state::{key_effect, KeyEffect, UiState as ScoreboardUi, ViewMode as ScoreboardView};
use kafka_tutorial::keys::Key;
use kafka_tutorial::leaderboard::app::{TopicTab, UiState, ViewMode};

#[test]
fn scoreboard_key_bindings() {
    assert_eq!(key_effect(Key::Char('q')), KeyEffect::Quit);
    assert_eq!(key_effect(Key::PageDown), KeyEffect::Down(5));
    assert_eq!(key_effect(Key::Char('<')), KeyEffect::Up(1));
    assert_eq!(key_effect(Key::Char('G')), KeyEffect::ToEnd);
    assert_eq!(key_effect(Key::Char('x')), KeyEffect::Nothing);

    let mut ui = ScoreboardUi::new();
    assert!(!ui.handle_key(Key::Char('j'), 15));
    assert_eq!(ui.selected_row, 1);
    ui.handle_key(Key::PageDown, 15);
    assert_eq!(ui.selected_row, 6);
    ui.handle_key(Key::End, 15);
    assert_eq!(ui.selected_row, 14);
    ui.handle_key(Key::PageUp, 15);
    assert_eq!(ui.selected_row, 9);
    ui.handle_key(Key::Char('g'), 15);
    assert_eq!(ui.selected_row, 0);
    ui.handle_key(Key::Enter, 15);
    assert!(!ui.show_detail_panel);
    ui.handle_key(Key::Char('f'), 15);
    assert!(ui.fullscreen_mode);
    ui.handle_key(Key::Char('?'), 15);
    assert_eq!(ui.view_mode, ScoreboardView::Help);
    assert!(!ui.handle_key(Key::Char('q'), 15));
    assert_eq!(ui.view_mode, ScoreboardView::Normal);
    assert!(ui.handle_key(Key::Esc, 15));
}

#[test]
fn leaderboard_key_bindings() {
    let mut ui = UiState::new();
    assert!(!ui.handle_key(Key::Down, 15, 0));
    assert_eq!(ui.selected_row, Some(0));
    ui.handle_key(Key::Char('k'), 15, 0);
    assert_eq!(ui.selected_row, Some(14));
    ui.handle_key(Key::Enter, 15, 0);
    assert_eq!(ui.view_mode, ViewMode::TeamDetail);
    assert!(!ui.handle_key(Key::Char('q'), 15, 0));
    assert_eq!(ui.view_mode, ViewMode::Leaderboard);

    ui.handle_key(Key::Char('3'), 15, 10);
    assert_eq!(ui.current_tab, TopicTab::Actions);
    assert_eq!(ui.event_scroll, 0);
    ui.handle_key(Key::Up, 15, 10);
    ui.handle_key(Key::Up, 15, 10);
    assert_eq!(ui.event_scroll, 2);
    ui.handle_key(Key::End, 15, 10);
    assert_eq!(ui.event_scroll, 9);
    ui.handle_key(Key::Up, 15, 10);
    assert_eq!(ui.event_scroll, 9);
    ui.handle_key(Key::Char('j'), 15, 10);
    assert_eq!(ui.event_scroll, 8);
    ui.handle_key(Key::Home, 15, 10);
    assert_eq!(ui.event_scroll, 0);
    ui.handle_key(Key::Char('?'), 15, 10);
    assert_eq!(ui.view_mode, ViewMode::Help);
    ui.handle_key(Key::Char('h'), 15, 10);
    assert_eq!(ui.view_mode, ViewMode::Leaderboard);
    ui.handle_key(Key::Char('1'), 15, 0);
    assert_eq!(ui.current_tab, TopicTab::Leaderboard);
    ui.handle_key(Key::End, 15, 0);
    assert_eq!(ui.selected_row, Some(14));
    assert!(ui.handle_key(Key::Char('q'), 15, 0));
}
