//! The teams of the classroom: `team-1` through `team-15`.

use vstd::prelude::*;
use crate::text::{decimal, lemma_decimal_injective, u64_decimal};

verus! {

/// Number of teams in the tutorial (team-1 through team-15).
pub const NUM_TEAMS: u32 = 15;

/// The name of team number `n`: `team-` followed by the number.
pub open spec fn team_name_of(n: nat) -> Seq<char> {
    "team-"@ + decimal(n)
}

/// The name of team number `n`, as `format!("team-{}", n)` writes it.
pub fn team_label(n: u32) -> (r: String)
    ensures
        r@ == team_name_of(n as nat),
{
    let mut s = String::from_str("team-");
    s.append(u64_decimal(n as u64).as_str());
    s
}

/// Different team numbers give different team names.
pub proof fn lemma_team_names_distinct(a: nat, b: nat)
    requires
        team_name_of(a) == team_name_of(b),
    ensures
        a == b,
{
    let p = "team-"@;
    assert(team_name_of(a).skip(p.len() as int) =~= decimal(a));
    assert(team_name_of(b).skip(p.len() as int) =~= decimal(b));
    lemma_decimal_injective(a, b);
}

} // verus!
