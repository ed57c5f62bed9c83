use kafka_tutorial::assoc::get_named;
use kafka_tutorial::event_buffer::{age_text, EventBuffer};
use kafka_tutorial::leaderboard::achievements::AchievementType;
use kafka_tutorial::leaderboard::admin::fetch_consumer_group_statuses;
use kafka_tutorial::leaderboard::app::{event_team, AppState, TopicTab, UiState, ViewMode};
use kafka_tutorial::leaderboard::config::{KafkaSettings, ScoringSettings, Settings, TopicSettings};
use kafka_tutorial::leaderboard::events::BufferedEvent;
use kafka_tutorial::leaderboard::scoring::{estimate_team_lag, EXPLORER_MEMBERS, SCALED_MEMBERS};
use kafka_tutorial::leaderboard::team::{ConsumerGroupStatus, GroupState, TeamState};
use kafka_tutorial::leaderboard::validation::SimpleValidationResult;
use kafka_tutorial::leaderboard::widgets::{
    build_consumer_map, build_title, centered_rect, format_all_achievements, format_errors, freshness_text,
    members_text, position_text, status_icon, Area, ConsumerGroupsWidget, HelpTone, HelpWidget, WatchlistWidget,
};
use kafka_tutorial::messages::WatchlistEntry;

fn settings() -> Settings {
    Settings {
        kafka: KafkaSettings {
            brokers: "demo".to_string(),
            username: "demo".to_string(),
            password: "demo".to_string(),
            consumer_group: "demo".to_string(),
        },
        topics: TopicSettings {
            new_users: "new_users".to_string(),
            actions: "actions".to_string(),
            watchlist: "watchlist".to_string(),
            scorer_state: "scorer_state".to_string(),
        },
        scoring: ScoringSettings::default(),
    }
}

fn team<'a>(state: &'a AppState, name: &str) -> &'a TeamState {
    &state.teams.iter().find(|(n, _)| n == name).unwrap().1
}

#[test]
fn buffer_evicts_the_oldest_at_capacity() {
    let mut buffer: EventBuffer<u32> = EventBuffer::new(3);
    assert!(buffer.is_empty());
    for i in 1..=5 {
        buffer.push(i);
    }
    assert_eq!(buffer.len(), 3);
    assert_eq!(buffer.get_rev(0), Some(&5));
    assert_eq!(buffer.get_rev(2), Some(&3));
    assert_eq!(buffer.get_rev(3), None);
    assert_eq!(buffer.iter_rev(), vec![&5, &4, &3]);
}

#[test]
fn buffer_of_capacity_zero_keeps_the_newest() {
    let mut buffer: EventBuffer<&str> = EventBuffer::new(0);
    buffer.push("a");
    buffer.push("b");
    assert_eq!(buffer.len(), 1);
    assert_eq!(buffer.get_rev(0), Some(&"b"));
}

#[test]
fn ages_are_shown_in_seconds_then_minutes() {
    assert_eq!(age_text(0), "0s");
    assert_eq!(age_text(59), "59s");
    assert_eq!(age_text(60), "1m");
    assert_eq!(age_text(299), "4m");
    assert_eq!(age_text(300), "5m+");
    let event = BufferedEvent::new("{\"a\":1}".to_string(), Some("team-4".to_string()));
    assert_eq!(event.relative_time(), "0s");
    assert_eq!(event.team.as_deref(), Some("team-4"));
}

#[test]
fn tabs_have_titles() {
    assert_eq!(TopicTab::Leaderboard.title(), "1: Leaderboard");
    assert_eq!(TopicTab::Watchlist.title(), "4: watchlist");
    assert_eq!(
        TopicTab::all(),
        [TopicTab::Leaderboard, TopicTab::NewUsers, TopicTab::Actions, TopicTab::Watchlist]
    );
    assert_eq!(TopicTab::default(), TopicTab::Leaderboard);
}

#[test]
fn selection_wraps_around() {
    let mut ui = UiState::new();
    assert_eq!(ui.view_mode, ViewMode::Leaderboard);
    ui.move_selection_up(0);
    assert_eq!(ui.selected_row, None);
    ui.move_selection_up(3);
    assert_eq!(ui.selected_row, Some(0));
    ui.move_selection_up(3);
    assert_eq!(ui.selected_row, Some(2));
    ui.move_selection_down(3);
    assert_eq!(ui.selected_row, Some(0));
    ui.move_selection_down(3);
    assert_eq!(ui.selected_row, Some(1));
    ui.select_last(3);
    assert_eq!(ui.selected_row, Some(2));
    ui.select_last(0);
    assert_eq!(ui.selected_row, Some(2));
    ui.select_first();
    assert_eq!(ui.selected_row, Some(0));
    let mut fresh = UiState::new();
    fresh.move_selection_down(15);
    assert_eq!(fresh.selected_row, Some(0));
}

#[test]
fn new_leaderboard_state() {
    let state = AppState::new(settings());
    assert_eq!(state.teams.len(), 15);
    assert_eq!(state.teams[4].0, "team-5");
    assert!(!state.first_blood_awarded && !state.champion_awarded);
    assert_eq!(state.topic_high_watermark, 0);
    assert!(state.actions_events.is_empty());
    let statuses = fetch_consumer_group_statuses();
    assert_eq!(statuses.len(), 15);
    assert_eq!(statuses[14].team_name, "team-15");
    assert!(statuses.iter().all(|s| s.state == GroupState::Unknown && s.members == 0 && s.lag == 0));
}

#[test]
fn action_results_score_the_team() {
    let mut state = AppState::new(settings());
    let valid = SimpleValidationResult::Valid { team: "team-2".to_string() };
    assert!(state.record_action_result(&valid, &None));
    assert!(state.record_action_result(&valid, &None));
    assert_eq!(team(&state, "team-2").action_count, 2);
    assert!(team(&state, "team-2").has_achievement(AchievementType::FirstLoad));

    let missing = SimpleValidationResult::MissingFields { team: "team-3".to_string() };
    assert!(!state.record_action_result(&missing, &None));
    assert_eq!(team(&state, "team-3").get_error_count(AchievementType::MissingFields), 1);

    let unreadable = SimpleValidationResult::InvalidJson;
    assert!(!state.record_action_result(&unreadable, &Some("team-3".to_string())));
    assert_eq!(team(&state, "team-3").get_error_count(AchievementType::ParseError), 1);
    assert!(!state.record_action_result(&unreadable, &None));
    assert!(!state.record_action_result(&SimpleValidationResult::Valid { team: "team-77".to_string() }, &None));

    assert_eq!(event_team(&valid, &None), Some("team-2".to_string()));
    assert_eq!(event_team(&unreadable, &Some("team-9".to_string())), Some("team-9".to_string()));
    assert_eq!(event_team(&unreadable, &None), None);
}

#[test]
fn watchlist_entries_unlock_the_step_once() {
    let mut state = AppState::new(settings());
    assert!(state.record_watchlist_entry("team-6"));
    assert!(!state.record_watchlist_entry("team-6"));
    assert_eq!(team(&state, "team-6").watchlist_count, 2);
    assert!(!state.record_watchlist_entry("team-0"));
}

#[test]
fn leaderboard_sorts_copies() {
    let mut state = AppState::new(settings());
    state.record_action_result(&SimpleValidationResult::Valid { team: "team-4".to_string() }, &None);
    state.record_watchlist_entry("team-4");
    state.record_action_result(&SimpleValidationResult::Valid { team: "team-11".to_string() }, &None);
    state.record_action_result(&SimpleValidationResult::Valid { team: "team-11".to_string() }, &None);
    let sorted = state.get_sorted_teams();
    assert_eq!(sorted.len(), 15);
    assert_eq!(sorted[0].team_name, "team-4");
    assert_eq!(sorted[1].team_name, "team-11");
    assert_eq!(sorted[2].team_name, "team-1");
    assert_eq!(sorted[1].action_count, 2);
}

#[test]
fn achievement_and_error_cells() {
    let mut t = TeamState::new("team-1".to_string());
    assert_eq!(format_all_achievements(&t), "····");
    assert_eq!(format_errors(&t), "");
    t.unlock_achievement(AchievementType::Connected);
    t.unlock_achievement(AchievementType::Scaled);
    assert_eq!(format_all_achievements(&t), "1️⃣·4️⃣·");
    t.unlock_achievement(AchievementType::Champion);
    t.unlock_achievement(AchievementType::FirstBlood);
    assert_eq!(format_all_achievements(&t), "1️⃣·4️⃣· ⚔️🏆");
    t.record_error(AchievementType::MissingFields);
    assert_eq!(format_errors(&t), "❓x1");
    t.record_error(AchievementType::ParseError);
    t.record_error(AchievementType::ParseError);
    assert_eq!(format_errors(&t), "❌x2 ❓x1");
}

#[test]
fn consumer_map_takes_the_last_status() {
    let statuses = vec![
        ConsumerGroupStatus { team_name: "team-1".to_string(), state: GroupState::Active, members: 2, lag: 0 },
        ConsumerGroupStatus { team_name: "team-2".to_string(), state: GroupState::Empty, members: 0, lag: 0 },
        ConsumerGroupStatus { team_name: "team-1".to_string(), state: GroupState::Active, members: 5, lag: 3 },
    ];
    let map = build_consumer_map(&statuses);
    assert_eq!(get_named(&map, "team-1"), Some(5));
    assert_eq!(get_named(&map, "team-2"), Some(0));
    assert_eq!(get_named(&map, "team-3"), None);
    let widget = ConsumerGroupsWidget::new(&statuses);
    assert_eq!(widget.groups.len(), 3);
    let entries = vec![WatchlistEntry { team: "team-1".to_string(), company: "Acme".to_string(), flag_count: 3 }];
    assert_eq!(WatchlistWidget::new(&entries).entries[0].company, "Acme");
}

#[test]
fn popups_are_centred() {
    let area = Area { x: 0, y: 0, width: 100, height: 40 };
    assert_eq!(centered_rect(60, 80, area), Area { x: 20, y: 4, width: 60, height: 32 });
    let odd = Area { x: 3, y: 1, width: 81, height: 25 };
    assert_eq!(centered_rect(80, 85, odd), Area { x: 11, y: 3, width: 64, height: 21 });
}

#[test]
fn titles_and_labels() {
    assert_eq!(freshness_text(None), "Connecting...");
    assert_eq!(freshness_text(Some(1)), "LIVE");
    assert_eq!(freshness_text(Some(42)), "42s ago");
    assert_eq!(freshness_text(Some(130)), "2m ago");
    assert_eq!(position_text(Some(0), 15), "1/15");
    assert_eq!(position_text(None, 15), "-/15");
    assert_eq!(
        build_title(Some(2), 15, Some(5)),
        " KAFKA TUTORIAL - Steps: 🔗📤⚡👁 | Bonus: 🔬📈✨⚔🚀🏆 | 3/15 | 5s ago "
    );
    assert_eq!(members_text(0), "");
    assert_eq!(members_text(3), "(3)");
    assert_eq!(status_icon(GroupState::Active), "●");
    assert_eq!(status_icon(GroupState::Unknown), "?");
    assert_eq!(GroupState::Empty.label(), "Empty");
}

fn active(team: &str, members: u32) -> ConsumerGroupStatus {
    ConsumerGroupStatus { team_name: team.to_string(), state: GroupState::Active, members, lag: 0 }
}

#[test]
fn first_connection_of_the_class_gets_first_blood() {
    let mut state = AppState::new(settings());
    let statuses = vec![
        ConsumerGroupStatus { team_name: "team-1".to_string(), state: GroupState::Empty, members: 0, lag: 0 },
        active("team-2", 1),
        active("team-3", 3),
    ];
    state.apply_group_statuses(&statuses, SCALED_MEMBERS, EXPLORER_MEMBERS);
    assert!(state.first_blood_awarded);
    assert!(!team(&state, "team-1").has_achievement(AchievementType::Connected));
    assert!(team(&state, "team-2").has_achievement(AchievementType::FirstBlood));
    assert!(!team(&state, "team-2").has_achievement(AchievementType::Scaled));
    assert!(!team(&state, "team-3").has_achievement(AchievementType::FirstBlood));
    assert!(team(&state, "team-3").has_achievement(AchievementType::Scaled));
    assert!(team(&state, "team-3").has_achievement(AchievementType::PartitionExplorer));
    state.apply_group_statuses(&vec![active("team-1", 1)], SCALED_MEMBERS, EXPLORER_MEMBERS);
    assert!(!team(&state, "team-1").has_achievement(AchievementType::FirstBlood));
}

#[test]
fn champion_is_crowned_once() {
    let mut state = AppState::new(settings());
    for name in ["team-1", "team-2"] {
        let t = &mut state.teams.iter_mut().find(|(n, _)| n == name).unwrap().1;
        for a in AchievementType::champion_requirements() {
            t.unlock_achievement(a);
        }
    }
    state.apply_group_status(&active("team-2", 1), 2, 3);
    assert!(state.champion_awarded);
    assert!(team(&state, "team-2").has_achievement(AchievementType::Champion));
    state.apply_group_status(&active("team-1", 1), 2, 3);
    assert!(!team(&state, "team-1").has_achievement(AchievementType::Champion));
}

#[test]
fn caught_up_team_busts_its_lag() {
    let mut state = AppState::new(settings());
    {
        let t = &mut state.teams.iter_mut().find(|(n, _)| n == "team-8").unwrap().1;
        t.update_lag(120);
        t.update_lag(0);
    }
    state.apply_group_status(&active("team-8", 1), 2, 3);
    assert!(team(&state, "team-8").has_achievement(AchievementType::LagBuster));
    assert!(team(&state, "team-8").has_achievement(AchievementType::Connected));
}

fn valid(team: &str) -> SimpleValidationResult {
    SimpleValidationResult::Valid { team: team.to_string() }
}

#[test]
fn valid_actions_bring_high_throughput_and_clean_streak() {
    let mut state = AppState::new(settings());
    for _ in 0..49 {
        state.record_action_result(&valid("team-5"), &None);
    }
    assert_eq!(team(&state, "team-5").clean_streak_count, 49);
    assert!(!team(&state, "team-5").has_achievement(AchievementType::CleanStreak));
    state.record_action_result(&valid("team-5"), &None);
    assert!(team(&state, "team-5").has_achievement(AchievementType::CleanStreak));
    for _ in 0..49 {
        state.record_action_result(&valid("team-5"), &None);
    }
    assert_eq!(team(&state, "team-5").action_count, 99);
    assert!(!team(&state, "team-5").has_achievement(AchievementType::HighThroughput));
    state.record_action_result(&valid("team-5"), &None);
    assert_eq!(team(&state, "team-5").action_count, 100);
    assert_eq!(team(&state, "team-5").messages_consumed, 100);
    assert!(team(&state, "team-5").has_achievement(AchievementType::HighThroughput));
}

#[test]
fn an_error_ends_the_clean_streak() {
    let mut state = AppState::new(settings());
    for _ in 0..30 {
        state.record_action_result(&valid("team-6"), &None);
    }
    let missing = SimpleValidationResult::MissingFields { team: "team-6".to_string() };
    state.record_action_result(&missing, &None);
    assert_eq!(team(&state, "team-6").clean_streak_count, 0);
    assert_eq!(team(&state, "team-6").messages_consumed, 31);
    for _ in 0..49 {
        state.record_action_result(&valid("team-6"), &None);
    }
    assert!(!team(&state, "team-6").has_achievement(AchievementType::CleanStreak));
    state.record_action_result(&SimpleValidationResult::InvalidJson, &Some("team-6".to_string()));
    assert_eq!(team(&state, "team-6").clean_streak_count, 0);
    assert_eq!(team(&state, "team-6").messages_consumed, 81);
    for _ in 0..50 {
        state.record_action_result(&valid("team-6"), &None);
    }
    assert!(team(&state, "team-6").has_achievement(AchievementType::CleanStreak));
}

#[test]
fn lag_is_what_is_left_to_read() {
    assert_eq!(estimate_team_lag(150, 40), 110);
    assert_eq!(estimate_team_lag(150, 150), 0);
    assert_eq!(estimate_team_lag(10, 20), 0);
    assert_eq!(estimate_team_lag(-5, 0), 0);
    assert_eq!(estimate_team_lag(i64::MAX, 0), i64::MAX);
}

#[test]
fn a_team_busts_its_lag_from_live_statuses() {
    let mut state = AppState::new(settings());
    state.topic_high_watermark = 120;
    state.apply_group_status(&active("team-7", 1), 2, 3);
    assert_eq!(team(&state, "team-7").current_lag, 120);
    assert_eq!(team(&state, "team-7").max_lag_seen, 120);
    assert!(!team(&state, "team-7").has_achievement(AchievementType::LagBuster));
    for _ in 0..120 {
        state.record_action_result(&valid("team-7"), &None);
    }
    state.apply_group_status(&active("team-7", 1), 2, 3);
    assert_eq!(team(&state, "team-7").current_lag, 0);
    assert!(team(&state, "team-7").has_achievement(AchievementType::LagBuster));
}

#[test]
fn champion_can_be_won_live_and_only_once() {
    let mut state = AppState::new(settings());
    state.topic_high_watermark = 100;
    for name in ["team-1", "team-2"] {
        state.apply_group_status(&active(name, 3), SCALED_MEMBERS, EXPLORER_MEMBERS);
        for _ in 0..100 {
            state.record_action_result(&valid(name), &None);
        }
        state.record_watchlist_entry(name);
    }
    assert!(team(&state, "team-1").has_achievement(AchievementType::FirstBlood));
    assert!(!team(&state, "team-2").has_achievement(AchievementType::FirstBlood));
    state.apply_group_status(&active("team-1", 3), SCALED_MEMBERS, EXPLORER_MEMBERS);
    assert!(team(&state, "team-1").has_achievement(AchievementType::LagBuster));
    assert!(team(&state, "team-1").has_achievement(AchievementType::Champion));
    assert!(state.champion_awarded);
    state.apply_group_status(&active("team-2", 3), SCALED_MEMBERS, EXPLORER_MEMBERS);
    assert!(team(&state, "team-2").has_achievement(AchievementType::LagBuster));
    assert!(!team(&state, "team-2").has_achievement(AchievementType::Champion));
}

#[test]
fn restored_teams_mark_their_awards() {
    let mut state = AppState::new(settings());
    let mut restored = TeamState::new("team-3".to_string());
    restored.unlock_achievement(AchievementType::FirstBlood);
    restored.action_count = 7;
    state.restore_team(restored);
    assert!(state.first_blood_awarded);
    assert!(!state.champion_awarded);
    assert_eq!(team(&state, "team-3").action_count, 7);
    assert_eq!(state.teams.len(), 15);
    state.restore_team(TeamState::new("team-99".to_string()));
    assert_eq!(state.teams.len(), 16);
    assert_eq!(state.teams[15].0, "team-99");
    state.apply_group_status(&active("team-4", 1), 2, 3);
    assert!(team(&state, "team-4").has_achievement(AchievementType::Connected));
    assert!(!team(&state, "team-4").has_achievement(AchievementType::FirstBlood));
}

#[test]
fn help_lists_every_group_and_the_keys() {
    let lines = HelpWidget::build_help_content();
    assert_eq!(lines.len(), 46);
    assert_eq!(lines[0].text, "=== STEP ACHIEVEMENTS (Required) ===");
    assert!(lines[0].tone == HelpTone::StepHeading);
    assert_eq!(lines[2].text, "  1️⃣  Connected");
    assert!(lines[2].tone == HelpTone::Step);
    assert_eq!(lines[8].text, "=== ERROR INDICATORS ===");
    assert_eq!(lines[10].text, "  ❌  Parse Error");
    assert!(lines[10].tone == HelpTone::Error);
    assert_eq!(lines[20].text, "  🏆  Champion");
    assert!(lines[20].tone == HelpTone::Bonus);
    assert_eq!(lines[45].text, "  📤          - Valid action count");
}
