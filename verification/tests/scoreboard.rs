use std::time::Instant;

use kafka_tutorial::assoc::get_named;
use kafka_tutorial::backend::achievements::AchievementType;
use kafka_tutorial::backend::app_state::{celebration_showing, keep_recent, last_showing_index, AppState, Celebration};
use kafka_tutorial::backend::board::{
    count_text, rank_text,
    get_progress_emojis, get_row_color, get_sorted_teams, session_text, truncate, unlock_age_text, HeaderData,
    RowColor,
};
use kafka_tutorial::backend::config::{
    default_sasl_mechanism, default_scaled, default_security_protocol, AchievementSettings, KafkaSettings,
    ScoringSettings,
};
use kafka_tutorial::backend::events::{BufferedEvent, ParsedEventData};
use kafka_tutorial::backend::monitor::{
    group_state_from_lowercase, map_group_state, status_from_listing, total_lag, unknown_status, ListedGroup,
    PartitionOffsets,
};
use kafka_tutorial::backend::team::{GroupState, TeamState, TeamStatsSnapshot};
use kafka_tutorial::backend::ui_state::{UiState, ViewMode};
use kafka_tutorial::messages::{Action, WatchlistEntry};

fn team_of<'a>(state: &'a AppState, name: &str) -> &'a TeamState {
    &state.teams.iter().find(|(n, _)| n == name).unwrap().1
}

#[test]
fn new_state_lists_fifteen_teams() {
    let state = AppState::new();
    assert_eq!(state.teams.len(), 15);
    assert_eq!(state.teams[0].0, "team-1");
    assert_eq!(state.teams[14].0, "team-15");
    assert_eq!(state.teams[9].1.team_name, "team-10");
    assert!(state.consumer_counts.is_empty());
    assert!(state.last_data_update.is_none());
}

#[test]
fn first_valid_action_unlocks_first_load_once() {
    let mut state = AppState::new();
    let now = Instant::now();
    assert!(state.record_valid_action_at("team-3", now, 1_000, 1_000));
    assert!(!state.record_valid_action_at("team-3", now, 2_000, 2_000));
    let team = team_of(&state, "team-3");
    assert_eq!(team.action_count, 2);
    assert_eq!(team.recent_actions.len(), 2);
    assert!(team.has_achievement(AchievementType::FirstLoad));
    assert_eq!(team.unlock_time(AchievementType::FirstLoad), Some(1_000));
    assert!(!state.record_valid_action_at("team-99", now, 1, 1));
    assert_eq!(state.last_data_update, Some(now));
}

#[test]
fn stats_message_unlocks_stats_step() {
    let mut state = AppState::new();
    let snapshot = TeamStatsSnapshot { processed: 10, flagged: 4 };
    assert!(state.record_team_stats_at("team-2", snapshot, Instant::now(), 5, 5));
    assert!(!state.record_team_stats_at("team-2", snapshot, Instant::now(), 6, 6));
    let team = team_of(&state, "team-2");
    assert_eq!(team.stats_count, 2);
    assert_eq!(team.latest_stats, Some(snapshot));
    assert!(team.has_achievement(AchievementType::StatsDone));
}

#[test]
fn group_status_unlocks_connected_and_scaled_once() {
    let mut state = AppState::new();
    let unlocked = state.apply_group_status_at("team-4", GroupState::Active, 2, Some(7), 2, 10, 10);
    assert_eq!(unlocked, vec![AchievementType::Connected, AchievementType::Scaled]);
    let again = state.apply_group_status_at("team-4", GroupState::Active, 2, None, 2, 20, 20);
    assert!(again.is_empty());
    assert_eq!(team_of(&state, "team-4").current_lag, 7);
    assert_eq!(get_named(&state.consumer_counts, "team-4"), Some(2));
    assert_eq!(get_named(&state.group_states, "team-4"), Some(GroupState::Active));

    let idle = state.apply_group_status_at("team-5", GroupState::Empty, 1, None, 2, 10, 10);
    assert!(idle.is_empty());
    assert_eq!(team_of(&state, "team-5").step_count(), 0);
    let scaled_only = state.apply_group_status_at("team-6", GroupState::Rebalancing, 3, None, 2, 10, 10);
    assert_eq!(scaled_only, vec![AchievementType::Scaled]);
    assert_eq!(state.apply_group_status_at("nobody", GroupState::Active, 5, None, 2, 1, 1), vec![]);
    assert_eq!(get_named(&state.consumer_counts, "nobody"), Some(5));
}

#[test]
fn inserted_team_replaces_its_namesake() {
    let mut state = AppState::new();
    let mut restored = TeamState::new("team-1".to_string());
    restored.action_count = 42;
    state.insert_team("team-1".to_string(), restored);
    assert_eq!(state.teams.len(), 15);
    assert_eq!(team_of(&state, "team-1").action_count, 42);
    state.insert_team("team-16".to_string(), TeamState::new("team-16".to_string()));
    assert_eq!(state.teams.len(), 16);
}

#[test]
fn fresh_celebration_is_active() {
    let mut state = AppState::new();
    assert!(state.active_celebration().is_none());
    state.add_celebration("team-1".to_string(), AchievementType::Connected);
    state.add_celebration("team-2".to_string(), AchievementType::Scaled);
    assert_eq!(state.celebrations.len(), 2);
    let active = state.active_celebration().expect("a celebration shows");
    assert_eq!(active.team_name, "team-2");
    assert!(active.is_active());
}

#[test]
fn celebration_ages_decide() {
    assert!(celebration_showing(0));
    assert!(celebration_showing(2));
    assert!(!celebration_showing(3));
    assert_eq!(last_showing_index(&vec![1, 5, 2, 9]), Some(2));
    assert_eq!(last_showing_index(&vec![4, 5]), None);
    assert_eq!(last_showing_index(&vec![]), None);
    let now = Instant::now();
    let cs: Vec<Celebration> = (0..4)
        .map(|i| Celebration { team_name: format!("team-{}", i), achievement: AchievementType::Connected, unlocked_at: now })
        .collect();
    let kept = keep_recent(cs, &vec![12, 3, 10, 9]);
    let names: Vec<&str> = kept.iter().map(|c| c.team_name.as_str()).collect();
    assert_eq!(names, vec!["team-1", "team-3"]);
}

#[test]
fn teams_sort_by_steps_actions_then_name() {
    let mut state = AppState::new();
    state.apply_group_status_at("team-9", GroupState::Active, 2, None, 2, 1, 1);
    state.record_valid_action_at("team-12", Instant::now(), 1, 1);
    state.record_valid_action_at("team-12", Instant::now(), 1, 1);
    state.record_valid_action_at("team-2", Instant::now(), 1, 1);
    let sorted = get_sorted_teams(&state.teams);
    assert_eq!(sorted.len(), 15);
    assert_eq!(sorted[0], "team-9");
    assert_eq!(sorted[1], "team-12");
    assert_eq!(sorted[2], "team-2");
    assert_eq!(sorted[3], "team-1");
    assert_eq!(sorted[4], "team-10");
    assert_eq!(sorted[14], "team-8");
}

#[test]
fn progress_marks_and_colors() {
    let mut team = TeamState::new("team-1".to_string());
    assert_eq!(get_progress_emojis(&team), "⚪⚪⚪⚪");
    team.unlock_achievement(AchievementType::Scaled);
    team.unlock_achievement(AchievementType::Connected);
    assert_eq!(get_progress_emojis(&team), "🔌⚪⚖️⚪");
    assert_eq!(get_row_color(4), RowColor::Green);
    assert_eq!(get_row_color(3), RowColor::Yellow);
    assert_eq!(get_row_color(2), RowColor::Cyan);
    assert_eq!(get_row_color(1), RowColor::LightBlue);
    assert_eq!(get_row_color(0), RowColor::DarkGray);
    assert_eq!(get_row_color(7), RowColor::DarkGray);
}

#[test]
fn cells_are_cut_with_an_ellipsis() {
    assert_eq!(truncate("hello world", 8), "hello...");
    assert_eq!(truncate("hello", 8), "hello");
    assert_eq!(truncate("exactly8", 8), "exactly8");
    assert_eq!(truncate("abcdef", 2), "...");
}

#[test]
fn session_and_unlock_age_texts() {
    assert_eq!(session_text(59), "0m");
    assert_eq!(session_text(61 * 60), "1h01m");
    assert_eq!(session_text(2 * 3600 + 25 * 60 + 5), "2h25m");
    assert_eq!(session_text(45 * 60), "45m");
    assert_eq!(unlock_age_text(10 * 60_000, 0), "10m");
    assert_eq!(unlock_age_text(150 * 60_000, 0), "2h");
    assert_eq!(unlock_age_text(0, 120_000), "-2m");
}

#[test]
fn header_counts() {
    let mut state = AppState::new();
    state.apply_group_status_at("team-1", GroupState::Active, 1, None, 2, 1, 1);
    state.apply_group_status_at("team-2", GroupState::Active, 3, None, 2, 1, 1);
    state.apply_group_status_at("team-3", GroupState::Empty, 0, None, 2, 1, 1);
    state.record_valid_action_at("team-2", Instant::now(), 1, 1);
    state.mark_update(Instant::now());
    let header = HeaderData {
        teams: &state.teams,
        group_states: &state.group_states,
        session_start: state.session_start,
        last_data_update: state.last_data_update,
    };
    assert_eq!(header.active_count(), 2);
    assert_eq!(header.step_distribution(), [13, 1, 0, 1, 0]);
    assert_eq!(header.total_actions(), 1);
    assert!(header.is_live());
    assert_eq!(header.session_duration(), "0m");
}

#[test]
fn navigation_stays_in_table() {
    let mut ui = UiState::new();
    assert_eq!(ui.view_mode, ViewMode::Normal);
    assert!(ui.show_detail_panel);
    ui.move_up(1);
    assert_eq!(ui.selected_row, 0);
    ui.move_down(15, 5);
    assert_eq!(ui.selected_row, 5);
    ui.move_down(15, 100);
    assert_eq!(ui.selected_row, 14);
    ui.move_up(3);
    assert_eq!(ui.selected_row, 11);
    ui.move_up(50);
    assert_eq!(ui.selected_row, 0);
    ui.go_to_end(15);
    assert_eq!(ui.selected_row, 14);
    ui.go_to_end(0);
    assert_eq!(ui.selected_row, 0);
    ui.move_down(0, 1);
    assert_eq!(ui.selected_row, 0);
    ui.go_to_start();
    assert_eq!(ui.selected_team(), None);
    ui.sorted_teams = vec!["team-7".to_string(), "team-1".to_string()];
    ui.move_down(2, 1);
    assert_eq!(ui.selected_team().map(|s| s.as_str()), Some("team-1"));
    ui.move_down(2, 1);
    ui.move_up(1);
    assert_eq!(ui.selected_row, 0);
}

#[test]
fn panels_toggle() {
    let mut ui = UiState::new();
    ui.toggle_detail_panel();
    assert!(!ui.show_detail_panel);
    ui.toggle_detail_panel();
    ui.toggle_fullscreen();
    assert!(ui.fullscreen_mode);
    assert!(!ui.show_detail_panel);
    ui.toggle_fullscreen();
    assert!(!ui.fullscreen_mode);
    assert!(!ui.show_detail_panel);
}

#[test]
fn group_states_from_the_broker() {
    assert_eq!(map_group_state("Stable"), GroupState::Active);
    assert_eq!(map_group_state("PreparingRebalance"), GroupState::Rebalancing);
    assert_eq!(map_group_state("CompletingRebalance"), GroupState::Rebalancing);
    assert_eq!(map_group_state("EMPTY"), GroupState::Empty);
    assert_eq!(map_group_state("Dead"), GroupState::Empty);
    assert_eq!(map_group_state("Whatever"), GroupState::Unknown);
    assert_eq!(group_state_from_lowercase("Stable"), GroupState::Unknown);
    assert_eq!(GroupState::Rebalancing.label(), "Rebalancing");
}

#[test]
fn status_comes_from_the_named_group() {
    let groups = vec![
        ListedGroup { name: "team-10".to_string(), state: "Empty".to_string(), member_count: 0 },
        ListedGroup { name: "team-1".to_string(), state: "Stable".to_string(), member_count: 3 },
        ListedGroup { name: "team-1".to_string(), state: "Dead".to_string(), member_count: 9 },
    ];
    let status = status_from_listing("team-1", &groups);
    assert_eq!(status.team_name, "team-1");
    assert_eq!(status.state, GroupState::Active);
    assert_eq!(status.members, 3);
    assert_eq!(status.lag, 0);
    let missing = status_from_listing("team-2", &groups);
    assert_eq!(missing.state, GroupState::Unknown);
    assert_eq!(missing.members, 0);
    let unknown = unknown_status("team-3");
    assert_eq!((unknown.team_name.as_str(), unknown.state, unknown.members, unknown.lag), ("team-3", GroupState::Unknown, 0, 0));
}

#[test]
fn lag_adds_up_over_partitions() {
    assert_eq!(total_lag(&vec![]), None);
    let partitions = vec![
        PartitionOffsets { high_watermark: Some(100), committed: 40 },
        PartitionOffsets { high_watermark: Some(10), committed: 25 },
        PartitionOffsets { high_watermark: Some(7), committed: 0 },
    ];
    assert_eq!(total_lag(&partitions), Some(67));
    let unread = vec![
        PartitionOffsets { high_watermark: Some(100), committed: 40 },
        PartitionOffsets { high_watermark: None, committed: 0 },
    ];
    assert_eq!(total_lag(&unread), None);
    assert_eq!(total_lag(&vec![PartitionOffsets { high_watermark: None, committed: 3 }]), None);
}

#[test]
fn settings_defaults() {
    assert_eq!(default_security_protocol(), "SASL_PLAINTEXT");
    assert_eq!(default_sasl_mechanism(), "PLAIN");
    assert_eq!(default_scaled(), 2);
    assert_eq!(ScoringSettings::default().user_cache_max_size, 10000);
    assert_eq!(AchievementSettings::default().scaled_members, 2);
    assert_eq!(AchievementSettings::from_fields(Some(4)).scaled_members, 4);
    assert_eq!(AchievementSettings::from_fields(None).scaled_members, 2);
    let kafka = KafkaSettings::from_fields(
        "b:9092".to_string(),
        "u".to_string(),
        "p".to_string(),
        "g".to_string(),
        None,
        Some("SCRAM-SHA-256".to_string()),
    );
    assert_eq!(kafka.security_protocol, "SASL_PLAINTEXT");
    assert_eq!(kafka.sasl_mechanism, "SCRAM-SHA-256");
    assert_eq!(kafka.brokers, "b:9092");
}

#[test]
fn buffered_events_carry_their_team() {
    let action = Action::new("a@b.c", "CONTACT", "VIP", "team-8");
    let event = BufferedEvent::action("{}".to_string(), action, true);
    assert_eq!(event.team.as_deref(), Some("team-8"));
    assert!(matches!(event.parsed, Some(ParsedEventData::Action { is_valid: true, .. })));
    assert_eq!(event.relative_time(), "0s");
    let entry = WatchlistEntry { team: "team-2".to_string(), company: "Acme".to_string(), flag_count: 3 };
    let event = BufferedEvent::watchlist("{}".to_string(), entry);
    assert_eq!(event.team.as_deref(), Some("team-2"));
    let event = BufferedEvent::new_user("{}".to_string(), "{\n}".to_string());
    assert!(event.team.is_none());
    let event = BufferedEvent::invalid_action("x".to_string(), Some("team-1".to_string()));
    assert!(matches!(event.parsed, Some(ParsedEventData::Invalid)));
}

#[test]
fn table_cells_show_rank_and_counts() {
    assert_eq!(rank_text(3, false), " 3");
    assert_eq!(rank_text(3, true), ">3");
    assert_eq!(rank_text(12, false), "12");
    assert_eq!(rank_text(12, true), ">12");
    assert_eq!(count_text(0), "-");
    assert_eq!(count_text(42), "42");
}

#[test]
fn side_panels_stand_beside_the_table_unless_fullscreen() {
    let mut ui = UiState::new();
    assert!(ui.shows_side_panels());
    ui.fullscreen_mode = true;
    assert!(!ui.shows_side_panels());
    ui.fullscreen_mode = false;
    ui.show_detail_panel = false;
    assert!(!ui.shows_side_panels());
}
