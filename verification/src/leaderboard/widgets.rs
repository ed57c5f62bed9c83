//! What the leaderboard's widgets show: achievement and error cells, the
//! table title, consumer group lines and the placement of pop-ups.

use vstd::prelude::*;
use crate::assoc::{named_map, set_named};
use crate::leaderboard::achievements::{AchievementType, bonus_order, emoji_text, error_order, name_text, step_order};
use crate::leaderboard::team::{ConsumerGroupStatus, GroupState, TeamState, count_or_zero};
use crate::messages::WatchlistEntry;
use crate::text::{decimal, push_char, u64_decimal};

verus! {

/// The consumer group list widget.
pub struct ConsumerGroupsWidget<'a> {
    pub groups: &'a [ConsumerGroupStatus],
}

impl<'a> ConsumerGroupsWidget<'a> {
    /// A widget listing the given groups.
    pub fn new(groups: &'a [ConsumerGroupStatus]) -> (r: Self)
        ensures
            r.groups@ == groups@,
    {
        ConsumerGroupsWidget { groups }
    }
}

/// The watchlist widget.
pub struct WatchlistWidget<'a> {
    pub entries: &'a [WatchlistEntry],
}

impl<'a> WatchlistWidget<'a> {
    /// A widget listing the given entries.
    pub fn new(entries: &'a [WatchlistEntry]) -> (r: Self)
        ensures
            r.entries@ == entries@,
    {
        WatchlistWidget { entries }
    }
}

/// The help overlay.
pub struct HelpWidget;

/// How a line of the help overlay is shown: as the heading of one of its
/// sections, as an achievement of a group, or as plain text.
#[derive(Debug, Clone, Copy, PartialEq, Eq, Structural)]
pub enum HelpTone {
    StepHeading,
    ErrorHeading,
    BonusHeading,
    TabHeading,
    KeyHeading,
    ColumnHeading,
    Step,
    Error,
    Bonus,
    Plain,
}

/// A line of the help overlay.
pub struct HelpLine {
    pub tone: HelpTone,
    pub text: String,
}

/// The tone and text of each line.
pub open spec fn help_view(lines: Seq<HelpLine>) -> Seq<(HelpTone, Seq<char>)> {
    lines.map_values(|l: HelpLine| (l.tone, l.text@))
}

/// The help line of an achievement: its emoji and its name, indented.
pub open spec fn badge_line(a: AchievementType) -> Seq<char> {
    "  "@ + emoji_text(a) + "  "@ + name_text(a)
}

/// The help lines of a group of achievements, in order.
pub open spec fn badge_lines(tone: HelpTone, group: Seq<AchievementType>) -> Seq<(HelpTone, Seq<char>)> {
    group.map_values(|a: AchievementType| (tone, badge_line(a)))
}

/// The help overlay: the steps, the error indicators and the bonus badges,
/// then the tabs, the keys and the columns of the table.
pub open spec fn help_content() -> Seq<(HelpTone, Seq<char>)> {
    seq![(HelpTone::StepHeading, "=== STEP ACHIEVEMENTS (Required) ==="@), (HelpTone::Plain, ""@)]
        + badge_lines(HelpTone::Step, step_order())
        + seq![
            (HelpTone::Plain, "  ⬜  Not yet earned"@),
            (HelpTone::Plain, ""@),
            (HelpTone::ErrorHeading, "=== ERROR INDICATORS ==="@),
            (HelpTone::Plain, ""@),
        ]
        + badge_lines(HelpTone::Error, error_order())
        + seq![
            (HelpTone::Plain, ""@),
            (HelpTone::BonusHeading, "=== BONUS ACHIEVEMENTS ==="@),
            (HelpTone::Plain, ""@),
        ]
        + badge_lines(HelpTone::Bonus, bonus_order())
        + seq![
            (HelpTone::Plain, ""@),
            (HelpTone::TabHeading, "=== TAB NAVIGATION ==="@),
            (HelpTone::Plain, ""@),
            (HelpTone::Plain, "  1           Leaderboard view"@),
            (HelpTone::Plain, "  2           new_users events"@),
            (HelpTone::Plain, "  3           actions events"@),
            (HelpTone::Plain, "  4           watchlist events"@),
            (HelpTone::Plain, ""@),
            (HelpTone::KeyHeading, "=== KEYBOARD SHORTCUTS ==="@),
            (HelpTone::Plain, ""@),
            (HelpTone::Plain, "  ↑/k         Move selection up / Scroll older"@),
            (HelpTone::Plain, "  ↓/j         Move selection down / Scroll newer"@),
            (HelpTone::Plain, "  Enter       View team details (leaderboard)"@),
            (HelpTone::Plain, "  Home        Jump to first / newest events"@),
            (HelpTone::Plain, "  End         Jump to last / oldest events"@),
            (HelpTone::Plain, "  h / ?       Show this help screen"@),
            (HelpTone::Plain, "  q / Esc     Quit (or close popup)"@),
            (HelpTone::Plain, ""@),
            (HelpTone::ColumnHeading, "=== COLUMN LEGEND ==="@),
            (HelpTone::Plain, ""@),
            (HelpTone::Plain, "  Team        - Team name (team-1 through team-15)"@),
            (HelpTone::Plain, "  Achievements- Step and bonus badges earned"@),
            (HelpTone::Plain, "  Errors      - Error indicators with counts"@),
            (HelpTone::Plain, "  👥          - Consumer group member count"@),
            (HelpTone::Plain, "  📤          - Valid action count"@),
        ]
}

/// Add a line of the given tone and text.
fn push_line(lines: &mut Vec<HelpLine>, tone: HelpTone, text: &str)
    ensures
        help_view(final(lines)@) == help_view(old(lines)@).push((tone, text@)),
{
    lines.push(HelpLine { tone, text: text.to_owned() });
    assert(help_view(lines@) =~= help_view(old(lines)@).push((tone, text@)));
}

/// Add the lines of a group of achievements.
fn push_badges(lines: &mut Vec<HelpLine>, tone: HelpTone, group: &[AchievementType])
    ensures
        help_view(final(lines)@) == help_view(old(lines)@) + badge_lines(tone, group@),
{
    let mut i: usize = 0;
    while i < group.len()
        invariant
            i <= group@.len(),
            help_view(lines@) == help_view(old(lines)@) + badge_lines(tone, group@.take(i as int)),
        decreases group@.len() - i,
    {
        let a = group[i];
        let mut text = String::new();
        text.append("  ");
        text.append(a.emoji());
        text.append("  ");
        text.append(a.name());
        assert(text@ == badge_line(a));
        push_line(lines, tone, text.as_str());
        assert(badge_lines(tone, group@.take(i + 1)) =~= badge_lines(tone, group@.take(i as int)).push(
            (tone, badge_line(a)),
        ));
        i = i + 1;
    }
    assert(group@.take(i as int) =~= group@);
}

impl HelpWidget {
    /// The lines of the help overlay, each with how it is shown.
    pub fn build_help_content() -> (r: Vec<HelpLine>)
        ensures
            help_view(r@) == help_content(),
    {
        let mut lines: Vec<HelpLine> = Vec::new();
        push_line(&mut lines, HelpTone::StepHeading, "=== STEP ACHIEVEMENTS (Required) ===");
        push_line(&mut lines, HelpTone::Plain, "");
        push_badges(&mut lines, HelpTone::Step, &AchievementType::all_steps());
        push_line(&mut lines, HelpTone::Plain, "  ⬜  Not yet earned");
        push_line(&mut lines, HelpTone::Plain, "");
        push_line(&mut lines, HelpTone::ErrorHeading, "=== ERROR INDICATORS ===");
        push_line(&mut lines, HelpTone::Plain, "");
        push_badges(&mut lines, HelpTone::Error, &AchievementType::all_errors());
        push_line(&mut lines, HelpTone::Plain, "");
        push_line(&mut lines, HelpTone::BonusHeading, "=== BONUS ACHIEVEMENTS ===");
        push_line(&mut lines, HelpTone::Plain, "");
        push_badges(&mut lines, HelpTone::Bonus, &AchievementType::all_bonus());
        push_line(&mut lines, HelpTone::Plain, "");
        push_line(&mut lines, HelpTone::TabHeading, "=== TAB NAVIGATION ===");
        push_line(&mut lines, HelpTone::Plain, "");
        push_line(&mut lines, HelpTone::Plain, "  1           Leaderboard view");
        push_line(&mut lines, HelpTone::Plain, "  2           new_users events");
        push_line(&mut lines, HelpTone::Plain, "  3           actions events");
        push_line(&mut lines, HelpTone::Plain, "  4           watchlist events");
        push_line(&mut lines, HelpTone::Plain, "");
        push_line(&mut lines, HelpTone::KeyHeading, "=== KEYBOARD SHORTCUTS ===");
        push_line(&mut lines, HelpTone::Plain, "");
        push_line(&mut lines, HelpTone::Plain, "  ↑/k         Move selection up / Scroll older");
        push_line(&mut lines, HelpTone::Plain, "  ↓/j         Move selection down / Scroll newer");
        push_line(&mut lines, HelpTone::Plain, "  Enter       View team details (leaderboard)");
        push_line(&mut lines, HelpTone::Plain, "  Home        Jump to first / newest events");
        push_line(&mut lines, HelpTone::Plain, "  End         Jump to last / oldest events");
        push_line(&mut lines, HelpTone::Plain, "  h / ?       Show this help screen");
        push_line(&mut lines, HelpTone::Plain, "  q / Esc     Quit (or close popup)");
        push_line(&mut lines, HelpTone::Plain, "");
        push_line(&mut lines, HelpTone::ColumnHeading, "=== COLUMN LEGEND ===");
        push_line(&mut lines, HelpTone::Plain, "");
        push_line(&mut lines, HelpTone::Plain, "  Team        - Team name (team-1 through team-15)");
        push_line(&mut lines, HelpTone::Plain, "  Achievements- Step and bonus badges earned");
        push_line(&mut lines, HelpTone::Plain, "  Errors      - Error indicators with counts");
        push_line(&mut lines, HelpTone::Plain, "  👥          - Consumer group member count");
        push_line(&mut lines, HelpTone::Plain, "  📤          - Valid action count");
        assert(help_view(lines@) =~= help_content());
        lines
    }
}

/// The icon of a group state in the consumer group list.
pub open spec fn state_icon(s: GroupState) -> Seq<char> {
    match s {
        GroupState::Active => "●"@,
        GroupState::Rebalancing => "◐"@,
        GroupState::Empty => "○"@,
        GroupState::Unknown => "?"@,
    }
}

/// The icon of a group state.
pub fn status_icon(s: GroupState) -> (r: &'static str)
    ensures
        r@ == state_icon(s),
{
    match s {
        GroupState::Active => "●",
        GroupState::Rebalancing => "◐",
        GroupState::Empty => "○",
        GroupState::Unknown => "?",
    }
}

/// The member count of a group in brackets, or nothing for an empty group.
pub fn members_text(members: u32) -> (r: String)
    ensures
        r@ == (if members > 0 { "("@ + decimal(members as nat) + ")"@ } else { Seq::<char>::empty() }),
{
    proof {
        reveal_strlit("(");
        reveal_strlit(")");
    }
    if members > 0 {
        let mut s = String::new();
        push_char(&mut s, '(');
        s.append(u64_decimal(members as u64).as_str());
        push_char(&mut s, ')');
        assert(s@ =~= "("@ + decimal(members as nat) + ")"@);
        s
    } else {
        String::new()
    }
}

/// The marks of the given steps: the emoji of each one held, a dot for each
/// one not held.
pub open spec fn step_marks(held: Set<AchievementType>, steps: Seq<AchievementType>) -> Seq<char>
    decreases steps.len(),
{
    if steps.len() == 0 {
        Seq::empty()
    } else {
        step_marks(held, steps.drop_last()) + if held.contains(steps.last()) {
            emoji_text(steps.last())
        } else {
            seq!['·']
        }
    }
}

/// The emojis of the given achievements that are held, in order.
pub open spec fn held_emojis(held: Set<AchievementType>, keys: Seq<AchievementType>) -> Seq<char>
    decreases keys.len(),
{
    if keys.len() == 0 {
        Seq::empty()
    } else {
        held_emojis(held, keys.drop_last()) + if held.contains(keys.last()) {
            emoji_text(keys.last())
        } else {
            Seq::empty()
        }
    }
}

/// Whether any of the given achievements is held.
pub open spec fn holds_any(held: Set<AchievementType>, keys: Seq<AchievementType>) -> bool {
    exists|i: int| 0 <= i < keys.len() && held.contains(#[trigger] keys[i])
}

/// The achievements cell: the step marks, then, when a bonus is held, a
/// space and the emojis of the bonuses held.
pub open spec fn achievements_text(held: Set<AchievementType>) -> Seq<char> {
    step_marks(held, step_order()) + (if holds_any(held, bonus_order()) { " "@ } else { Seq::empty() })
        + held_emojis(held, bonus_order())
}

/// The achievements cell of a team.
pub fn format_all_achievements(team: &TeamState) -> (r: String)
    ensures
        r@ == achievements_text(team@.achievements),
{
    let steps = AchievementType::all_steps();
    let mut out = String::new();
    let mut i: usize = 0;
    while i < 4
        invariant
            i <= 4,
            steps@ == step_order(),
            out@ == step_marks(team@.achievements, step_order().take(i as int)),
        decreases 4 - i,
    {
        assert(step_order().take(i + 1).drop_last() =~= step_order().take(i as int));
        if team.has_achievement(steps[i]) {
            out.append(steps[i].emoji());
        } else {
            push_char(&mut out, '·');
        }
        i = i + 1;
    }
    assert(step_order().take(4) =~= step_order());
    let bonus = AchievementType::all_bonus();
    let mut any = false;
    let mut j: usize = 0;
    while j < 6
        invariant
            j <= 6,
            bonus@ == bonus_order(),
            any == exists|k: int| 0 <= k < j && team@.achievements.contains(#[trigger] bonus_order()[k]),
        decreases 6 - j,
    {
        if team.has_achievement(bonus[j]) {
            any = true;
        }
        j = j + 1;
    }
    if any {
        push_char(&mut out, ' ');
    }
    proof {
        reveal_strlit(" ");
    }
    let ghost prefix = out@;
    let mut m: usize = 0;
    while m < 6
        invariant
            m <= 6,
            bonus@ == bonus_order(),
            out@ == prefix + held_emojis(team@.achievements, bonus_order().take(m as int)),
        decreases 6 - m,
    {
        assert(bonus_order().take(m + 1).drop_last() =~= bonus_order().take(m as int));
        if team.has_achievement(bonus[m]) {
            out.append(bonus[m].emoji());
        }
        m = m + 1;
        assert(out@ =~= prefix + held_emojis(team@.achievements, bonus_order().take(m as int)));
    }
    assert(bonus_order().take(6) =~= bonus_order());
    assert(out@ =~= achievements_text(team@.achievements));
    out
}

/// The entry of one error kind: its emoji, "x" and its count.
pub open spec fn error_entry(e: AchievementType, count: nat) -> Seq<char> {
    emoji_text(e) + "x"@ + decimal(count)
}

/// The errors cell: an entry for each given error kind with a count above
/// zero, separated by single spaces.
pub open spec fn errors_text(counts: Map<AchievementType, u32>, keys: Seq<AchievementType>) -> Seq<char>
    decreases keys.len(),
{
    if keys.len() == 0 {
        Seq::empty()
    } else {
        let before = errors_text(counts, keys.drop_last());
        let n = count_or_zero(counts, keys.last());
        if n == 0 {
            before
        } else if before.len() == 0 {
            error_entry(keys.last(), n)
        } else {
            before + " "@ + error_entry(keys.last(), n)
        }
    }
}

/// The errors cell of a team.
pub fn format_errors(team: &TeamState) -> (r: String)
    ensures
        r@ == errors_text(team@.error_counts, error_order()),
{
    proof {
        reveal_strlit("x");
        reveal_strlit(" ");
    }
    let kinds = AchievementType::all_errors();
    let mut out = String::new();
    let mut i: usize = 0;
    while i < 2
        invariant
            i <= 2,
            kinds@ == error_order(),
            out@ == errors_text(team@.error_counts, error_order().take(i as int)),
        decreases 2 - i,
    {
        assert(error_order().take(i + 1).drop_last() =~= error_order().take(i as int));
        let count = team.get_error_count(kinds[i]);
        if count > 0 {
            proof {
                reveal_strlit("x");
                reveal_strlit(" ");
            }
            let ghost before = out@;
            if !out.as_str().is_empty() {
                push_char(&mut out, ' ');
            }
            let ghost sep = out@;
            assert(before.len() == 0 ==> sep == before);
            assert(before.len() != 0 ==> sep == before + " "@);
            let e = kinds[i].emoji();
            out.append(e);
            push_char(&mut out, 'x');
            let digits = u64_decimal(count as u64);
            out.append(digits.as_str());
            proof {
                let keys = error_order().take(i + 1);
                assert(keys.last() == kinds@[i as int]);
                assert(keys.drop_last() =~= error_order().take(i as int));
                let n = count_or_zero(team@.error_counts, keys.last());
                assert(n == count);
                assert(out@ =~= sep + (emoji_text(keys.last()) + "x"@ + decimal(n)));
                if before.len() == 0 {
                    assert(out@ =~= error_entry(keys.last(), n));
                } else {
                    assert(out@ =~= before + " "@ + error_entry(keys.last(), n));
                }
            }
        }
        i = i + 1;
    }
    assert(error_order().take(2) =~= error_order());
    out
}

/// The member count of each team's group; a team listed twice takes its
/// last count.
pub open spec fn consumer_map(statuses: Seq<ConsumerGroupStatus>) -> Map<Seq<char>, u32>
    decreases statuses.len(),
{
    if statuses.len() == 0 {
        Map::empty()
    } else {
        consumer_map(statuses.drop_last()).insert(statuses.last().team_name@, statuses.last().members)
    }
}

/// The member count of each team's group, from a list of statuses.
pub fn build_consumer_map(statuses: &[ConsumerGroupStatus]) -> (r: Vec<(String, u32)>)
    ensures
        named_map(r@) == consumer_map(statuses@),
{
    let mut r: Vec<(String, u32)> = Vec::new();
    let mut i: usize = 0;
    proof {
        assert(named_map(r@) =~= Map::<Seq<char>, u32>::empty()) by {
            assert(crate::assoc::key_views(r@) =~= Seq::empty());
        }
    }
    while i < statuses.len()
        invariant
            i <= statuses.len(),
            named_map(r@) == consumer_map(statuses@.take(i as int)),
        decreases statuses.len() - i,
    {
        assert(statuses@.take(i + 1).drop_last() =~= statuses@.take(i as int));
        set_named(&mut r, statuses[i].team_name.clone(), statuses[i].members);
        i = i + 1;
    }
    assert(statuses@.take(i as int) =~= statuses@);
    r
}

/// A rectangle of the screen.
#[derive(Debug, Clone, Copy, PartialEq, Eq, Structural)]
pub struct Area {
    pub x: u16,
    pub y: u16,
    pub width: u16,
    pub height: u16,
}

/// A rectangle `percent_x` per cent as wide and `percent_y` per cent as high
/// as `r`, centred in it (sizes and margins rounded down).
pub fn centered_rect(percent_x: u16, percent_y: u16, r: Area) -> (c: Area)
    requires
        r.width * percent_x <= u16::MAX,
        r.height * percent_y <= u16::MAX,
        percent_x <= 100,
        percent_y <= 100,
        r.x + r.width <= u16::MAX,
        r.y + r.height <= u16::MAX,
    ensures
        c.width == r.width * percent_x / 100,
        c.height == r.height * percent_y / 100,
        c.x == r.x + (r.width - c.width) / 2,
        c.y == r.y + (r.height - c.height) / 2,
{
    assert(r.width * percent_x / 100 <= r.width) by (nonlinear_arith)
        requires
            percent_x <= 100,
    ;
    assert(r.height * percent_y / 100 <= r.height) by (nonlinear_arith)
        requires
            percent_y <= 100,
    ;
    let popup_width = r.width * percent_x / 100;
    let popup_height = r.height * percent_y / 100;
    let popup_x = (r.width - popup_width) / 2;
    let popup_y = (r.height - popup_height) / 2;
    Area { x: r.x + popup_x, y: r.y + popup_y, width: popup_width, height: popup_height }
}

/// How fresh the data is, from the age of the last update in whole
/// seconds: "LIVE" under two seconds, then seconds under a minute, then
/// minutes; "Connecting..." before any update.
pub open spec fn freshness_label(age: Option<u64>) -> Seq<char> {
    match age {
        None => "Connecting..."@,
        Some(e) => if e < 2 {
            "LIVE"@
        } else if e < 60 {
            decimal(e as nat) + "s ago"@
        } else {
            decimal((e / 60) as nat) + "m ago"@
        },
    }
}

/// The selected position out of the teams: "{n}/{total}" counting from one,
/// or "-/{total}" with nothing selected.
pub open spec fn position_label(selected: Option<usize>, total: usize) -> Seq<char> {
    match selected {
        Some(i) => decimal((i + 1) as nat) + "/"@ + decimal(total as nat),
        None => "-/"@ + decimal(total as nat),
    }
}

/// The title of the leaderboard table.
pub open spec fn title_label(selected: Option<usize>, total: usize, age: Option<u64>) -> Seq<char> {
    " KAFKA TUTORIAL - Steps: 🔗📤⚡👁 | Bonus: 🔬📈✨⚔🚀🏆 | "@ + position_label(selected, total) + " | "@
        + freshness_label(age) + " "@
}

/// How fresh the data is, given the age of the last update in whole
/// seconds.
pub fn freshness_text(age: Option<u64>) -> (r: String)
    ensures
        r@ == freshness_label(age),
{
    match age {
        None => "Connecting...".to_owned(),
        Some(e) => {
            if e < 2 {
                "LIVE".to_owned()
            } else if e < 60 {
                let mut s = u64_decimal(e);
                s.append("s ago");
                s
            } else {
                let mut s = u64_decimal(e / 60);
                s.append("m ago");
                s
            }
        },
    }
}

/// The selected position out of `total` teams.
pub fn position_text(selected: Option<usize>, total: usize) -> (r: String)
    requires
        selected matches Some(i) ==> i < usize::MAX,
    ensures
        r@ == position_label(selected, total),
{
    let mut s = match selected {
        Some(i) => {
            let mut s = u64_decimal((i + 1) as u64);
            s.append("/");
            s
        },
        None => "-/".to_owned(),
    };
    s.append(u64_decimal(total as u64).as_str());
    s
}

/// The title of the leaderboard table, given the selected row, the number of
/// teams and the age of the last update in whole seconds.
pub fn build_title(selected: Option<usize>, total: usize, age: Option<u64>) -> (r: String)
    requires
        selected matches Some(i) ==> i < usize::MAX,
    ensures
        r@ == title_label(selected, total, age),
{
    let mut s = " KAFKA TUTORIAL - Steps: 🔗📤⚡👁 | Bonus: 🔬📈✨⚔🚀🏆 | ".to_owned();
    s.append(position_text(selected, total).as_str());
    s.append(" | ");
    s.append(freshness_text(age).as_str());
    s.append(" ");
    s
}

} // verus!
