use kafka_tutorial::backend::achievements::AchievementType as StepAchievement;
use kafka_tutorial::leaderboard::achievements::AchievementType;

#[test]
fn achievements_test_is_step() {
    assert!(StepAchievement::Connected.is_step());
    assert!(StepAchievement::FirstLoad.is_step());
    assert!(StepAchievement::Scaled.is_step());
    assert!(StepAchievement::StatsDone.is_step());
}

#[test]
fn test_is_step() {
    assert!(AchievementType::Connected.is_step());
    assert!(AchievementType::FirstLoad.is_step());
    assert!(AchievementType::Scaled.is_step());
    assert!(AchievementType::WatchlistDone.is_step());
    assert!(!AchievementType::ParseError.is_step());
    assert!(!AchievementType::MissingFields.is_step());
    assert!(!AchievementType::PartitionExplorer.is_step());
}

#[test]
fn test_is_error() {
    assert!(AchievementType::ParseError.is_error());
    assert!(AchievementType::MissingFields.is_error());
    assert!(!AchievementType::Connected.is_error());
    assert!(!AchievementType::PartitionExplorer.is_error());
}

#[test]
fn achievements_test_all_steps_count() {
    assert_eq!(StepAchievement::all_steps().len(), 4);
}

#[test]
fn test_all_steps_count() {
    assert_eq!(AchievementType::all_steps().len(), 4);
}

#[test]
fn test_all_errors_count() {
    assert_eq!(AchievementType::all_errors().len(), 2);
}

#[test]
fn test_all_bonus_count() {
    assert_eq!(AchievementType::all_bonus().len(), 6);
}

#[test]
fn achievements_test_champion_requirements() {
    let reqs = AchievementType::champion_requirements();
    assert_eq!(reqs.len(), 9);
    assert!(!reqs.contains(&AchievementType::Champion));
}

#[test]
fn step_texts_are_exact() {
    assert_eq!(StepAchievement::Connected.emoji(), "🔌");
    assert_eq!(StepAchievement::StatsDone.name(), "Stats Published");
    assert_eq!(
        StepAchievement::Scaled.description(),
        "Run 2+ consumers in your group (teaches parallelism)"
    );
    assert_eq!(StepAchievement::FirstLoad.display_text(), "📤 First Load");
    assert_eq!(
        StepAchievement::all_steps(),
        [
            StepAchievement::Connected,
            StepAchievement::FirstLoad,
            StepAchievement::Scaled,
            StepAchievement::StatsDone
        ]
    );
}

#[test]
fn classroom_texts_are_exact() {
    assert_eq!(AchievementType::Champion.emoji(), "🏆");
    assert_eq!(AchievementType::LagBuster.name(), "Lag Buster");
    assert_eq!(AchievementType::ParseError.display_text(), "❌ Parse Error");
    assert_eq!(
        AchievementType::all_errors(),
        [AchievementType::ParseError, AchievementType::MissingFields]
    );
}

#[test]
fn groups_of_achievements_do_not_overlap() {
    for a in AchievementType::all_steps() {
        assert!(a.is_step() && !a.is_error());
    }
    for a in AchievementType::all_errors() {
        assert!(a.is_error() && !a.is_step());
    }
    for a in AchievementType::all_bonus() {
        assert!(!a.is_error() && !a.is_step());
    }
}
