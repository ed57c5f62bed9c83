//! The achievements of the classroom leaderboard: four progress steps, two
//! error indicators and six bonus badges.

use vstd::prelude::*;

verus! {

/// Achievement types tracked for each team.
#[derive(Debug, Clone, Copy, PartialEq, Eq, Structural, Hash)]
pub enum AchievementType {
    /// Step 1: the team's consumer group is active.
    Connected,
    /// Step 3: first valid message to the actions topic.
    FirstLoad,
    /// Step 4: two or more consumers in the group.
    Scaled,
    /// Step 5: a message to the watchlist topic.
    WatchlistDone,
    /// Error indicator: a message that is not valid JSON.
    ParseError,
    /// Error indicator: a message without its required fields.
    MissingFields,
    /// Bonus: three or more consumers (partitions bound parallelism).
    PartitionExplorer,
    /// Bonus: one hundred or more valid actions.
    HighThroughput,
    /// Bonus: fifty or more messages without an error.
    CleanStreak,
    /// Bonus: first team to get Connected.
    FirstBlood,
    /// Bonus: built up a lag of one hundred or more, then consumed it all.
    LagBuster,
    /// Bonus: first team to complete every other achievement.
    Champion,
}

/// Every achievement type, in declaration order.
pub open spec fn every_achievement() -> Seq<AchievementType> {
    seq![
        AchievementType::Connected,
        AchievementType::FirstLoad,
        AchievementType::Scaled,
        AchievementType::WatchlistDone,
        AchievementType::ParseError,
        AchievementType::MissingFields,
        AchievementType::PartitionExplorer,
        AchievementType::HighThroughput,
        AchievementType::CleanStreak,
        AchievementType::FirstBlood,
        AchievementType::LagBuster,
        AchievementType::Champion,
    ]
}

/// The step achievements, in display order.
pub open spec fn step_order() -> Seq<AchievementType> {
    seq![
        AchievementType::Connected,
        AchievementType::FirstLoad,
        AchievementType::Scaled,
        AchievementType::WatchlistDone,
    ]
}

/// The error indicators.
pub open spec fn error_order() -> Seq<AchievementType> {
    seq![AchievementType::ParseError, AchievementType::MissingFields]
}

/// The bonus achievements, in display order.
pub open spec fn bonus_order() -> Seq<AchievementType> {
    seq![
        AchievementType::PartitionExplorer,
        AchievementType::HighThroughput,
        AchievementType::CleanStreak,
        AchievementType::FirstBlood,
        AchievementType::LagBuster,
        AchievementType::Champion,
    ]
}

/// What Champion asks for: every step and bonus achievement but Champion.
pub open spec fn champion_order() -> Seq<AchievementType> {
    seq![
        AchievementType::Connected,
        AchievementType::FirstLoad,
        AchievementType::Scaled,
        AchievementType::WatchlistDone,
        AchievementType::PartitionExplorer,
        AchievementType::HighThroughput,
        AchievementType::CleanStreak,
        AchievementType::FirstBlood,
        AchievementType::LagBuster,
    ]
}

/// Whether an achievement is a progress step.
pub open spec fn step_kind(a: AchievementType) -> bool {
    a is Connected || a is FirstLoad || a is Scaled || a is WatchlistDone
}

/// Whether an achievement is an error indicator.
pub open spec fn error_kind(a: AchievementType) -> bool {
    a is ParseError || a is MissingFields
}

/// The emoji shown for an achievement.
pub open spec fn emoji_text(a: AchievementType) -> Seq<char> {
    match a {
        AchievementType::Connected => "1️⃣"@,
        AchievementType::FirstLoad => "3️⃣"@,
        AchievementType::Scaled => "4️⃣"@,
        AchievementType::WatchlistDone => "5️⃣"@,
        AchievementType::ParseError => "❌"@,
        AchievementType::MissingFields => "❓"@,
        AchievementType::PartitionExplorer => "🔬"@,
        AchievementType::HighThroughput => "📈"@,
        AchievementType::CleanStreak => "✨"@,
        AchievementType::FirstBlood => "⚔️"@,
        AchievementType::LagBuster => "🚀"@,
        AchievementType::Champion => "🏆"@,
    }
}

/// The display name of an achievement.
pub open spec fn name_text(a: AchievementType) -> Seq<char> {
    match a {
        AchievementType::Connected => "Connected"@,
        AchievementType::FirstLoad => "First Load"@,
        AchievementType::Scaled => "Scaled"@,
        AchievementType::WatchlistDone => "Watchlist"@,
        AchievementType::ParseError => "Parse Error"@,
        AchievementType::MissingFields => "Missing Fields"@,
        AchievementType::PartitionExplorer => "Partition Explorer"@,
        AchievementType::HighThroughput => "High Throughput"@,
        AchievementType::CleanStreak => "Clean Streak"@,
        AchievementType::FirstBlood => "First Blood"@,
        AchievementType::LagBuster => "Lag Buster"@,
        AchievementType::Champion => "Champion"@,
    }
}

impl AchievementType {
    /// The emoji for this achievement.
    pub fn emoji(&self) -> (r: &'static str)
        ensures
            r@ == emoji_text(*self),
    {
        match self {
            AchievementType::Connected => "1️⃣",
            AchievementType::FirstLoad => "3️⃣",
            AchievementType::Scaled => "4️⃣",
            AchievementType::WatchlistDone => "5️⃣",
            AchievementType::ParseError => "❌",
            AchievementType::MissingFields => "❓",
            AchievementType::PartitionExplorer => "🔬",
            AchievementType::HighThroughput => "📈",
            AchievementType::CleanStreak => "✨",
            AchievementType::FirstBlood => "⚔️",
            AchievementType::LagBuster => "🚀",
            AchievementType::Champion => "🏆",
        }
    }

    /// The name of this achievement.
    pub fn name(&self) -> (r: &'static str)
        ensures
            r@ == name_text(*self),
    {
        match self {
            AchievementType::Connected => "Connected",
            AchievementType::FirstLoad => "First Load",
            AchievementType::Scaled => "Scaled",
            AchievementType::WatchlistDone => "Watchlist",
            AchievementType::ParseError => "Parse Error",
            AchievementType::MissingFields => "Missing Fields",
            AchievementType::PartitionExplorer => "Partition Explorer",
            AchievementType::HighThroughput => "High Throughput",
            AchievementType::CleanStreak => "Clean Streak",
            AchievementType::FirstBlood => "First Blood",
            AchievementType::LagBuster => "Lag Buster",
            AchievementType::Champion => "Champion",
        }
    }

    /// Whether this is a step achievement (progress).
    pub fn is_step(&self) -> (r: bool)
        ensures
            r == step_kind(*self),
    {
        match self {
            AchievementType::Connected
            | AchievementType::FirstLoad
            | AchievementType::Scaled
            | AchievementType::WatchlistDone => true,
            _ => false,
        }
    }

    /// Whether this is an error achievement.
    pub fn is_error(&self) -> (r: bool)
        ensures
            r == error_kind(*self),
    {
        match self {
            AchievementType::ParseError | AchievementType::MissingFields => true,
            _ => false,
        }
    }

    /// All step achievements in display order.
    pub fn all_steps() -> (r: [AchievementType; 4])
        ensures
            r@ == step_order(),
    {
        let r = [
            AchievementType::Connected,
            AchievementType::FirstLoad,
            AchievementType::Scaled,
            AchievementType::WatchlistDone,
        ];
        assert(r@ =~= step_order());
        r
    }

    /// All error achievements.
    pub fn all_errors() -> (r: [AchievementType; 2])
        ensures
            r@ == error_order(),
    {
        let r = [AchievementType::ParseError, AchievementType::MissingFields];
        assert(r@ =~= error_order());
        r
    }

    /// All bonus achievements in display order.
    pub fn all_bonus() -> (r: [AchievementType; 6])
        ensures
            r@ == bonus_order(),
    {
        let r = [
            AchievementType::PartitionExplorer,
            AchievementType::HighThroughput,
            AchievementType::CleanStreak,
            AchievementType::FirstBlood,
            AchievementType::LagBuster,
            AchievementType::Champion,
        ];
        assert(r@ =~= bonus_order());
        r
    }

    /// All achievements required for Champion (all but Champion itself).
    pub fn champion_requirements() -> (r: [AchievementType; 9])
        ensures
            r@ == champion_order(),
    {
        let r = [
            AchievementType::Connected,
            AchievementType::FirstLoad,
            AchievementType::Scaled,
            AchievementType::WatchlistDone,
            AchievementType::PartitionExplorer,
            AchievementType::HighThroughput,
            AchievementType::CleanStreak,
            AchievementType::FirstBlood,
            AchievementType::LagBuster,
        ];
        assert(r@ =~= champion_order());
        r
    }

    /// The display text: the emoji, a space and the name.
    pub fn display_text(&self) -> (r: String)
        ensures
            r@ == emoji_text(*self) + " "@ + name_text(*self),
    {
        let mut s = String::new();
        s.append(self.emoji());
        s.append(" ");
        s.append(self.name());
        s
    }
}

/// The three groups split the achievements: every achievement is exactly one
/// of a step, an error indicator or a bonus badge, and the display lists hold
/// each group without repetition.
pub proof fn lemma_groups_partition(a: AchievementType)
    ensures
        step_order().contains(a) <==> step_kind(a),
        error_order().contains(a) <==> error_kind(a),
        bonus_order().contains(a) <==> (!step_kind(a) && !error_kind(a)),
        every_achievement().contains(a),
        step_order().no_duplicates(),
        error_order().no_duplicates(),
        bonus_order().no_duplicates(),
{
    assert(every_achievement()[0] == AchievementType::Connected);
    match a {
        AchievementType::Connected => assert(step_order()[0] == a && every_achievement()[0] == a),
        AchievementType::FirstLoad => assert(step_order()[1] == a && every_achievement()[1] == a),
        AchievementType::Scaled => assert(step_order()[2] == a && every_achievement()[2] == a),
        AchievementType::WatchlistDone => assert(step_order()[3] == a && every_achievement()[3] == a),
        AchievementType::ParseError => assert(error_order()[0] == a && every_achievement()[4] == a),
        AchievementType::MissingFields => assert(error_order()[1] == a && every_achievement()[5] == a),
        AchievementType::PartitionExplorer => assert(bonus_order()[0] == a && every_achievement()[6] == a),
        AchievementType::HighThroughput => assert(bonus_order()[1] == a && every_achievement()[7] == a),
        AchievementType::CleanStreak => assert(bonus_order()[2] == a && every_achievement()[8] == a),
        AchievementType::FirstBlood => assert(bonus_order()[3] == a && every_achievement()[9] == a),
        AchievementType::LagBuster => assert(bonus_order()[4] == a && every_achievement()[10] == a),
        AchievementType::Champion => assert(bonus_order()[5] == a && every_achievement()[11] == a),
    }
}

/// Champion asks for every achievement that is neither an error indicator
/// nor Champion itself.
pub proof fn lemma_champion_requirements(a: AchievementType)
    ensures
        champion_order().contains(a) <==> (!error_kind(a) && !(a is Champion)),
{
    match a {
        AchievementType::Connected => assert(champion_order()[0] == a),
        AchievementType::FirstLoad => assert(champion_order()[1] == a),
        AchievementType::Scaled => assert(champion_order()[2] == a),
        AchievementType::WatchlistDone => assert(champion_order()[3] == a),
        AchievementType::PartitionExplorer => assert(champion_order()[4] == a),
        AchievementType::HighThroughput => assert(champion_order()[5] == a),
        AchievementType::CleanStreak => assert(champion_order()[6] == a),
        AchievementType::FirstBlood => assert(champion_order()[7] == a),
        AchievementType::LagBuster => assert(champion_order()[8] == a),
        _ => {},
    }
}

} // verus!
