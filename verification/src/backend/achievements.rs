//! The step achievements of the classroom scoreboard.

use vstd::prelude::*;

verus! {

/// Achievement types: step-based progress only.
#[derive(Debug, Clone, Copy, PartialEq, Eq, Structural, Hash)]
pub enum AchievementType {
    /// Step 1: the consumer group is active.
    Connected,
    /// Step 3: first message to the actions topic.
    FirstLoad,
    /// Step 4: two or more consumers in the group.
    Scaled,
    /// Step 5: a message to the team_stats topic.
    StatsDone,
}

/// Emoji for an incomplete step.
pub const STEP_INCOMPLETE: &'static str = "⚪";

/// The steps in display order.
pub open spec fn step_order() -> Seq<AchievementType> {
    seq![
        AchievementType::Connected,
        AchievementType::FirstLoad,
        AchievementType::Scaled,
        AchievementType::StatsDone,
    ]
}

/// The emoji shown for an achievement.
pub open spec fn emoji_text(a: AchievementType) -> Seq<char> {
    match a {
        AchievementType::Connected => "🔌"@,
        AchievementType::FirstLoad => "📤"@,
        AchievementType::Scaled => "⚖️"@,
        AchievementType::StatsDone => "📊"@,
    }
}

/// The display name of an achievement.
pub open spec fn name_text(a: AchievementType) -> Seq<char> {
    match a {
        AchievementType::Connected => "Connected"@,
        AchievementType::FirstLoad => "First Load"@,
        AchievementType::Scaled => "Scaled"@,
        AchievementType::StatsDone => "Stats Published"@,
    }
}

/// How a team earns an achievement.
pub open spec fn description_text(a: AchievementType) -> Seq<char> {
    match a {
        AchievementType::Connected => "Start your consumer and join the consumer group"@,
        AchievementType::FirstLoad => "Successfully produce your first valid action message"@,
        AchievementType::Scaled => "Run 2+ consumers in your group (teaches parallelism)"@,
        AchievementType::StatsDone => "Produce a message to the team_stats topic"@,
    }
}

impl AchievementType {
    /// The emoji for this achievement.
    pub fn emoji(&self) -> (r: &'static str)
        ensures
            r@ == emoji_text(*self),
    {
        match self {
            AchievementType::Connected => "🔌",
            AchievementType::FirstLoad => "📤",
            AchievementType::Scaled => "⚖️",
            AchievementType::StatsDone => "📊",
        }
    }

    /// The name of this achievement.
    pub fn name(&self) -> (r: &'static str)
        ensures
            r@ == name_text(*self),
    {
        match self {
            AchievementType::Connected => "Connected",
            AchievementType::FirstLoad => "First Load",
            AchievementType::Scaled => "Scaled",
            AchievementType::StatsDone => "Stats Published",
        }
    }

    /// A description of how to earn this achievement.
    pub fn description(&self) -> (r: &'static str)
        ensures
            r@ == description_text(*self),
    {
        match self {
            AchievementType::Connected => "Start your consumer and join the consumer group",
            AchievementType::FirstLoad => "Successfully produce your first valid action message",
            AchievementType::Scaled => "Run 2+ consumers in your group (teaches parallelism)",
            AchievementType::StatsDone => "Produce a message to the team_stats topic",
        }
    }

    /// Whether this is a step achievement: every achievement is one.
    pub fn is_step(&self) -> (r: bool)
        ensures
            r,
    {
        true
    }

    /// All step achievements in display order.
    pub fn all_steps() -> (r: [AchievementType; 4])
        ensures
            r@ == step_order(),
    {
        let r = [
            AchievementType::Connected,
            AchievementType::FirstLoad,
            AchievementType::Scaled,
            AchievementType::StatsDone,
        ];
        assert(r@ =~= step_order());
        r
    }

    /// The display text: the emoji, a space and the name.
    pub fn display_text(&self) -> (r: String)
        ensures
            r@ == emoji_text(*self) + " "@ + name_text(*self),
    {
        let mut s = String::new();
        s.append(self.emoji());
        s.append(" ");
        s.append(self.name());
        s
    }
}

/// The display order lists every achievement exactly once.
pub proof fn lemma_steps_complete(a: AchievementType)
    ensures
        step_order().contains(a),
        step_order().no_duplicates(),
{
    match a {
        AchievementType::Connected => assert(step_order()[0] == a),
        AchievementType::FirstLoad => assert(step_order()[1] == a),
        AchievementType::Scaled => assert(step_order()[2] == a),
        AchievementType::StatsDone => assert(step_order()[3] == a),
    }
}

} // verus!
