//! The consumer group monitor's decisions: what a group's reported state
//! means, which status a group listing gives a team, and how a team's lag
//! adds up over the partitions of a topic.

use vstd::prelude::*;
use crate::backend::team::{ConsumerGroupStatus, GroupState};
use crate::text::{lowercase, str_eq, to_lowercase};

verus! {

/// The group state that a lower-case state name reported by the broker
/// stands for.
pub open spec fn state_named(s: Seq<char>) -> GroupState {
    if s == "stable"@ {
        GroupState::Active
    } else if s == "preparingrebalance"@ || s == "completingrebalance"@ {
        GroupState::Rebalancing
    } else if s == "empty"@ || s == "dead"@ {
        GroupState::Empty
    } else {
        GroupState::Unknown
    }
}

/// The group state for a lower-case state name.
pub fn group_state_from_lowercase(s: &str) -> (r: GroupState)
    ensures
        r == state_named(s@),
{
    if str_eq(s, "stable") {
        GroupState::Active
    } else if str_eq(s, "preparingrebalance") || str_eq(s, "completingrebalance") {
        GroupState::Rebalancing
    } else if str_eq(s, "empty") || str_eq(s, "dead") {
        GroupState::Empty
    } else {
        GroupState::Unknown
    }
}

/// Map a group state reported by the broker, in any case, to a group state.
pub fn map_group_state(state: &str) -> (r: GroupState)
    ensures
        r == state_named(lowercase(state@)),
{
    let lower = to_lowercase(state);
    group_state_from_lowercase(lower.as_str())
}

/// The status of a team whose group could not be read or does not exist.
pub fn unknown_status(team_name: &str) -> (r: ConsumerGroupStatus)
    ensures
        r.team_name@ == team_name@,
        r.state == GroupState::Unknown,
        r.members == 0,
        r.lag == 0,
{
    ConsumerGroupStatus { team_name: team_name.to_owned(), state: GroupState::Unknown, members: 0, lag: 0 }
}

/// A group as the broker lists it: its name, its state as reported and
/// the number of its members.
pub struct ListedGroup {
    pub name: String,
    pub state: String,
    pub member_count: usize,
}

/// The position of the first listed group named `n`.
pub open spec fn first_group_named(groups: Seq<ListedGroup>, n: Seq<char>) -> Option<int> {
    if exists|i: int| 0 <= i < groups.len() && groups[i].name@ == n {
        Some(choose|i: int| 0 <= i < groups.len() && groups[i].name@ == n && forall|j: int| 0 <= j < i ==> groups[j].name@ != n)
    } else {
        None
    }
}

/// The status of `team_name` read from a group listing: the first group of
/// that name gives its state (as `map_group_state` reads it) and its member
/// count (as a `u32`, cut to 32 bits); with no such group the status is
/// unknown.
pub fn status_from_listing(team_name: &str, groups: &Vec<ListedGroup>) -> (r: ConsumerGroupStatus)
    ensures
        r.team_name@ == team_name@,
        r.lag == 0,
        match first_group_named(groups@, team_name@) {
            Some(i) => r.state == state_named(lowercase(groups@[i].state@)) && r.members == groups@[i].member_count as u32,
            None => r.state == GroupState::Unknown && r.members == 0,
        },
{
    let mut i: usize = 0;
    while i < groups.len()
        invariant
            i <= groups.len(),
            forall|j: int| 0 <= j < i ==> groups@[j].name@ != team_name@,
        decreases groups.len() - i,
    {
        if str_eq(groups[i].name.as_str(), team_name) {
            proof {
                let k = choose|k: int|
                    0 <= k < groups@.len() && groups@[k].name@ == team_name@ && forall|j: int|
                        0 <= j < k ==> groups@[j].name@ != team_name@;
                assert(groups@[i as int].name@ == team_name@);
                if k < i {
                    assert(groups@[k].name@ != team_name@);
                } else if k > i {
                    assert(groups@[i as int].name@ != team_name@);
                }
            }
            return ConsumerGroupStatus {
                team_name: team_name.to_owned(),
                state: map_group_state(groups[i].state.as_str()),
                members: #[verifier::truncate] (groups[i].member_count as u32),
                lag: 0,
            };
        }
        i = i + 1;
    }
    unknown_status(team_name)
}

/// What is known of one partition of a topic: its high watermark, when it
/// could be read, and the group's committed offset (0 when none).
pub struct PartitionOffsets {
    pub high_watermark: Option<i64>,
    pub committed: i64,
}

/// Every partition's high watermark could be read.
pub open spec fn all_read(ps: Seq<PartitionOffsets>) -> bool {
    forall|i: int| 0 <= i < ps.len() ==> (#[trigger] ps[i]).high_watermark is Some
}

/// The lag of one partition whose high watermark was read: how far the
/// committed offset is behind the high watermark, never below zero.
pub open spec fn partition_lag(p: PartitionOffsets) -> int {
    match p.high_watermark {
        Some(high) => if high - p.committed > 0 { high - p.committed } else { 0 },
        None => 0,
    }
}

/// The lag over the partitions.
pub open spec fn lag_sum(ps: Seq<PartitionOffsets>) -> int
    decreases ps.len(),
{
    if ps.len() == 0 {
        0
    } else {
        lag_sum(ps.drop_last()) + partition_lag(ps.last())
    }
}

/// Each partition's difference, and each partial sum, fits in an `i64`.
pub open spec fn lag_fits(ps: Seq<PartitionOffsets>) -> bool {
    &&& forall|i: int| 0 <= i < ps.len() ==> match (#[trigger] ps[i]).high_watermark {
        Some(high) => i64::MIN <= high - ps[i].committed <= i64::MAX,
        None => true,
    }
    &&& forall|n: int| 0 <= n <= ps.len() ==> #[trigger] lag_sum(ps.take(n)) <= i64::MAX
}

/// The total lag of a group over all the partitions of a topic: none for a
/// topic without partitions, and none when the high watermark of any
/// partition could not be read.
pub fn total_lag(partitions: &Vec<PartitionOffsets>) -> (r: Option<i64>)
    requires
        all_read(partitions@) ==> lag_fits(partitions@),
    ensures
        r == (if partitions@.len() == 0 || !all_read(partitions@) {
            None::<i64>
        } else {
            Some(lag_sum(partitions@) as i64)
        }),
        r is Some ==> 0 <= lag_sum(partitions@) <= i64::MAX,
{
    if partitions.len() == 0 {
        return None;
    }
    let mut j: usize = 0;
    while j < partitions.len()
        invariant
            j <= partitions.len(),
            forall|k: int| 0 <= k < j ==> (#[trigger] partitions@[k]).high_watermark is Some,
        decreases partitions.len() - j,
    {
        if partitions[j].high_watermark.is_none() {
            return None;
        }
        j = j + 1;
    }
    let mut total: i64 = 0;
    let mut i: usize = 0;
    while i < partitions.len()
        invariant
            i <= partitions.len(),
            lag_fits(partitions@),
            total == lag_sum(partitions@.take(i as int)),
            total >= 0,
        decreases partitions.len() - i,
    {
        assert(partitions@.take(i + 1).drop_last() =~= partitions@.take(i as int));
        assert(lag_sum(partitions@.take(i + 1)) <= i64::MAX);
        let p = &partitions[i];
        match p.high_watermark {
            Some(high) => {
                assert(i64::MIN <= high - partitions@[i as int].committed <= i64::MAX);
                let d = high - p.committed;
                let lag = if d > 0 { d } else { 0 };
                total = total + lag;
            },
            None => {},
        }
        i = i + 1;
    }
    assert(partitions@.take(i as int) =~= partitions@);
    Some(total)
}

} // verus!
