//! What a simulated team does with each user it reads: count it, and when
//! its filter flags the user, produce an action and updated statistics.

use vstd::prelude::*;
use crate::messages::{Action, TeamStats, User};
use crate::simulator::filters::TeamFilter;
use crate::simulator::stats::StatsState;

verus! {

/// Process one user read by `team_name`: count it as processed; when the
/// filter flags it, count it as flagged and return the action (the user's
/// email as customer, the filter's action type and reason, the team) and the
/// team's statistics to publish.
pub fn process_user<F: TeamFilter>(
    stats: &mut StatsState,
    filter: &F,
    user: &User,
    team_name: &str,
) -> (r: Option<(Action, TeamStats)>)
    requires
        old(stats).spec_processed() < u64::MAX,
        old(stats).spec_flagged() < u64::MAX,
    ensures
        final(stats).spec_processed() == old(stats).spec_processed() + 1,
        old(stats).spec_flagged() <= old(stats).spec_processed() ==> final(stats).spec_flagged()
            <= final(stats).spec_processed(),
        match filter.verdict(*user) {
            None => r is None && final(stats).spec_flagged() == old(stats).spec_flagged(),
            Some((action_type, reason)) => {
                &&& final(stats).spec_flagged() == old(stats).spec_flagged() + 1
                &&& r matches Some((action, team_stats)) && {
                    &&& action.customer matches Some(c) && c@ == user.email@
                    &&& action.action_type matches Some(t) && t@ == action_type
                    &&& action.reason matches Some(x) && x@ == reason
                    &&& action.team@ == team_name@
                    &&& team_stats.team@ == team_name@
                    &&& team_stats.processed == final(stats).spec_processed()
                    &&& team_stats.flagged == final(stats).spec_flagged()
                }
            },
        },
{
    stats.increment_processed();
    match filter.matches(user) {
        Some(m) => {
            let action = Action::new(user.email.as_str(), m.action_type, m.reason, team_name);
            let (processed, flagged) = stats.increment_flagged();
            let team_stats = TeamStats::new(team_name, processed, flagged);
            Some((action, team_stats))
        },
        None => None,
    }
}

} // verus!
