use kafka_tutorial::backend::achievements::AchievementType as StepAchievement;
use kafka_tutorial::backend::team::{TeamState as StepTeam, TeamStatsSnapshot};
use kafka_tutorial::leaderboard::achievements::AchievementType;
use kafka_tutorial::leaderboard::team::TeamState;

#[test]
fn team_test_unlock_achievement() {
    let mut state = StepTeam::new("team-1".to_string());
    assert!(state.unlock_achievement(StepAchievement::Connected));
    assert!(!state.unlock_achievement(StepAchievement::Connected));
}

#[test]
fn test_unlock_achievement() {
    let mut state = TeamState::new("team-1".to_string());
    assert!(state.unlock_achievement(AchievementType::Connected));
    assert!(!state.unlock_achievement(AchievementType::Connected));
}

#[test]
fn team_test_has_achievement() {
    let mut state = StepTeam::new("team-1".to_string());
    assert!(!state.has_achievement(StepAchievement::Connected));
    state.unlock_achievement(StepAchievement::Connected);
    assert!(state.has_achievement(StepAchievement::Connected));
}

#[test]
fn test_has_achievement() {
    let mut state = TeamState::new("team-1".to_string());
    assert!(!state.has_achievement(AchievementType::Connected));
    state.unlock_achievement(AchievementType::Connected);
    assert!(state.has_achievement(AchievementType::Connected));
}

#[test]
fn team_test_step_count() {
    let mut state = StepTeam::new("team-1".to_string());
    assert_eq!(state.step_count(), 0);
    state.unlock_achievement(StepAchievement::Connected);
    state.unlock_achievement(StepAchievement::FirstLoad);
    assert_eq!(state.step_count(), 2);
}

#[test]
fn test_step_count() {
    let mut state = TeamState::new("team-1".to_string());
    assert_eq!(state.step_count(), 0);
    state.unlock_achievement(AchievementType::Connected);
    state.unlock_achievement(AchievementType::FirstLoad);
    state.unlock_achievement(AchievementType::ParseError);
    assert_eq!(state.step_count(), 2);
}

#[test]
fn test_update_lag() {
    let mut state = StepTeam::new("team-1".to_string());
    assert_eq!(state.current_lag, 0);
    state.update_lag(50);
    assert_eq!(state.current_lag, 50);
    state.update_lag(150);
    assert_eq!(state.current_lag, 150);
}

#[test]
fn test_record_error() {
    let mut state = TeamState::new("team-1".to_string());
    state.record_error(AchievementType::ParseError);
    state.record_error(AchievementType::ParseError);
    assert_eq!(state.get_error_count(AchievementType::ParseError), 2);
    assert!(state.has_achievement(AchievementType::ParseError));
}

#[test]
fn test_total_errors() {
    let mut state = TeamState::new("team-1".to_string());
    assert_eq!(state.total_errors(), 0);
    state.record_error(AchievementType::ParseError);
    state.record_error(AchievementType::ParseError);
    state.record_error(AchievementType::MissingFields);
    assert_eq!(state.total_errors(), 3);
}

#[test]
fn test_lag_buster_qualification() {
    let mut state = TeamState::new("team-1".to_string());
    assert!(!state.qualifies_for_lag_buster());
    state.update_lag(50);
    assert!(!state.qualifies_for_lag_buster());
    state.update_lag(150);
    assert!(!state.qualifies_for_lag_buster());
    state.update_lag(0);
    assert!(state.qualifies_for_lag_buster());
}

#[test]
fn team_test_champion_requirements() {
    let mut state = TeamState::new("team-1".to_string());
    assert!(!state.has_all_champion_requirements());
    for achievement in AchievementType::champion_requirements() {
        state.unlock_achievement(achievement);
    }
    assert!(state.has_all_champion_requirements());
}

#[test]
fn peak_lag_is_kept() {
    let mut state = TeamState::new("team-2".to_string());
    state.update_lag(120);
    state.update_lag(30);
    assert_eq!(state.max_lag_seen, 120);
    assert_eq!(state.current_lag, 30);
}

#[test]
fn record_error_ignores_other_kinds() {
    let mut state = TeamState::new("team-3".to_string());
    state.record_error(AchievementType::Connected);
    assert_eq!(state.get_error_count(AchievementType::Connected), 0);
    assert!(!state.has_achievement(AchievementType::Connected));
}

#[test]
fn duplicate_keeps_everything() {
    let mut state = TeamState::new("team-4".to_string());
    state.unlock_achievement(AchievementType::Scaled);
    state.record_error(AchievementType::MissingFields);
    state.action_count = 7;
    let copy = state.duplicate();
    assert_eq!(copy.team_name, "team-4");
    assert!(copy.has_achievement(AchievementType::Scaled));
    assert_eq!(copy.get_error_count(AchievementType::MissingFields), 1);
    assert_eq!(copy.action_count, 7);
}

#[test]
fn unlock_stamps_time_and_session() {
    let mut state = StepTeam::new("team-5".to_string());
    assert_eq!(state.session_duration_at(0), "-");
    assert!(state.unlock_achievement_at(StepAchievement::Scaled, 1_000, 2_000));
    assert_eq!(state.unlock_time(StepAchievement::Scaled), Some(1_000));
    assert_eq!(state.session_start, Some(2_000));
    assert!(!state.unlock_achievement_at(StepAchievement::Scaled, 5_000, 6_000));
    assert_eq!(state.unlock_time(StepAchievement::Scaled), Some(1_000));
    assert!(state.unlock_achievement_at(StepAchievement::Connected, 7_000, 8_000));
    assert_eq!(state.session_start, Some(2_000));
    assert_eq!(state.unlock_time(StepAchievement::StatsDone), None);
}

#[test]
fn session_duration_texts() {
    let mut state = StepTeam::new("team-6".to_string());
    state.unlock_achievement_at(StepAchievement::Connected, 0, 0);
    assert_eq!(state.session_duration_at(59_999), "0m");
    assert_eq!(state.session_duration_at(5 * 60_000), "5m");
    assert_eq!(state.session_duration_at(125 * 60_000), "2h 5m");
    assert_eq!(state.session_duration_at(-60_000), "-1m");
}

#[test]
fn stats_message_is_recorded() {
    let mut state = StepTeam::new("team-7".to_string());
    let snapshot = TeamStatsSnapshot { processed: 500, flagged: 150 };
    state.record_stats_message(snapshot);
    assert_eq!(state.stats_count, 1);
    assert_eq!(state.latest_stats, Some(snapshot));
    assert!(state.last_stats_time.is_some());
    assert_eq!(TeamStatsSnapshot::default(), TeamStatsSnapshot { processed: 0, flagged: 0 });
}

#[test]
fn only_an_error_resets_the_clean_streak() {
    let mut state = TeamState::new("team-1".to_string());
    state.increment_clean_streak();
    state.increment_clean_streak();
    assert_eq!(state.clean_streak_count, 2);
    state.record_error(AchievementType::Connected);
    assert_eq!(state.clean_streak_count, 2);
    state.record_error(AchievementType::ParseError);
    assert_eq!(state.clean_streak_count, 0);
    assert_eq!(state.get_error_count(AchievementType::ParseError), 1);
}
