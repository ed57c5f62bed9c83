//! The leaderboard order: more steps first, then more valid actions, then
//! team names in ascending order.

use vstd::prelude::*;
use crate::text::{lemma_lex_reflexive, lemma_lex_total, lemma_lex_transitive, lex_le, str_le};

verus! {

/// What a team is ranked by.
pub struct RankKey {
    pub steps: usize,
    pub actions: u64,
    pub name: String,
}

/// `a` may stand before `b`: more steps, or as many steps and more actions,
/// or as many of both and a name that does not come later.
pub open spec fn ranks_no_later(a: (nat, nat, Seq<char>), b: (nat, nat, Seq<char>)) -> bool {
    ||| a.0 > b.0
    ||| a.0 == b.0 && a.1 > b.1
    ||| a.0 == b.0 && a.1 == b.1 && lex_le(a.2, b.2)
}

/// The abstract form of a key.
pub open spec fn key_of(k: RankKey) -> (nat, nat, Seq<char>) {
    (k.steps as nat, k.actions as nat, k.name@)
}

/// `order` lists each index below `n` exactly once.
pub open spec fn is_permutation(order: Seq<usize>, n: nat) -> bool {
    &&& order.len() == n
    &&& order.no_duplicates()
    &&& forall|k: int| 0 <= k < order.len() ==> order[k] < n
}

/// `order` lists the keys in leaderboard order.
pub open spec fn in_rank_order(keys: Seq<RankKey>, order: Seq<usize>) -> bool {
    forall|i: int, j: int|
        0 <= i < j < order.len() ==> #[trigger] ranks_no_later(key_of(keys[order[i] as int]), key_of(keys[order[j] as int]))
}

/// More steps always rank first; with as many steps, more valid actions rank
/// first; with as many of both, the names decide in ascending order.
pub proof fn lemma_rank_criteria(a: (nat, nat, Seq<char>), b: (nat, nat, Seq<char>))
    ensures
        a.0 > b.0 ==> ranks_no_later(a, b) && !ranks_no_later(b, a),
        (a.0 == b.0 && a.1 > b.1) ==> ranks_no_later(a, b) && !ranks_no_later(b, a),
        (a.0 == b.0 && a.1 == b.1) ==> (ranks_no_later(a, b) == lex_le(a.2, b.2)),
{
}

/// The leaderboard order is total.
pub proof fn lemma_ranks_total(a: (nat, nat, Seq<char>), b: (nat, nat, Seq<char>))
    ensures
        ranks_no_later(a, b) || ranks_no_later(b, a),
{
    lemma_lex_total(a.2, b.2);
}

/// The leaderboard order is transitive.
pub proof fn lemma_ranks_transitive(a: (nat, nat, Seq<char>), b: (nat, nat, Seq<char>), c: (nat, nat, Seq<char>))
    requires
        ranks_no_later(a, b),
        ranks_no_later(b, c),
    ensures
        ranks_no_later(a, c),
{
    if a.0 == b.0 && b.0 == c.0 && a.1 == b.1 && b.1 == c.1 {
        lemma_lex_transitive(a.2, b.2, c.2);
    }
}

/// The leaderboard order is reflexive.
pub proof fn lemma_ranks_reflexive(a: (nat, nat, Seq<char>))
    ensures
        ranks_no_later(a, a),
{
    lemma_lex_reflexive(a.2);
}

/// Whether key `a` may stand before key `b`.
pub fn key_no_later(a: &RankKey, b: &RankKey) -> (r: bool)
    ensures
        r == ranks_no_later(key_of(*a), key_of(*b)),
{
    if a.steps != b.steps {
        a.steps > b.steps
    } else if a.actions != b.actions {
        a.actions > b.actions
    } else {
        str_le(a.name.as_str(), b.name.as_str())
    }
}

/// The indices of `keys` in leaderboard order, found by insertion.
pub fn rank_order(keys: &Vec<RankKey>) -> (r: Vec<usize>)
    ensures
        is_permutation(r@, keys.len() as nat),
        in_rank_order(keys@, r@),
{
    let n = keys.len();
    let mut order: Vec<usize> = Vec::new();
    let mut i: usize = 0;
    while i < n
        invariant
            n == keys.len(),
            i <= n,
            is_permutation(order@, i as nat),
            in_rank_order(keys@, order@),
        decreases n - i,
    {
        let mut pos: usize = order.len();
        while pos > 0 && !key_no_later(&keys[order[pos - 1]], &keys[i])
            invariant
                n == keys.len(),
                i < n,
                pos <= order.len(),
                order.len() == i,
                forall|k: int| 0 <= k < order.len() ==> order@[k] < i,
                forall|m: int| pos <= m < order.len() ==> !ranks_no_later(
                    key_of(keys@[order@[m] as int]),
                    key_of(keys@[i as int]),
                ),
            decreases pos,
        {
            pos = pos - 1;
        }
        let ghost before = order@;
        order.insert(pos, i);
        proof {
            let ki = key_of(keys@[i as int]);
            assert forall|m: int| pos <= m < before.len() implies #[trigger] ranks_no_later(
                ki,
                key_of(keys@[before[m] as int]),
            ) by {
                lemma_ranks_total(ki, key_of(keys@[before[m] as int]));
            }
            if pos > 0 {
                let kp = key_of(keys@[before[pos - 1] as int]);
                assert forall|k: int| 0 <= k < pos implies #[trigger] ranks_no_later(
                    key_of(keys@[before[k] as int]),
                    ki,
                ) by {
                    if k < pos - 1 {
                        assert(ranks_no_later(key_of(keys@[before[k] as int]), kp));
                        lemma_ranks_transitive(key_of(keys@[before[k] as int]), kp, ki);
                    }
                }
            }
            assert forall|a: int, b: int| 0 <= a < b < order@.len() implies #[trigger] ranks_no_later(
                key_of(keys@[order@[a] as int]),
                key_of(keys@[order@[b] as int]),
            ) by {
                if a < pos && b < pos {
                    assert(order@[a] == before[a] && order@[b] == before[b]);
                } else if a < pos && b == pos {
                    assert(order@[a] == before[a]);
                } else if a < pos && b > pos {
                    assert(order@[a] == before[a] && order@[b] == before[b - 1]);
                    assert(ranks_no_later(key_of(keys@[before[a] as int]), ki));
                    assert(ranks_no_later(ki, key_of(keys@[before[b - 1] as int])));
                    lemma_ranks_transitive(key_of(keys@[before[a] as int]), ki, key_of(keys@[before[b - 1] as int]));
                } else if a == pos {
                    assert(order@[b] == before[b - 1]);
                } else {
                    assert(order@[a] == before[a - 1] && order@[b] == before[b - 1]);
                }
            }
            assert forall|x: int, y: int| 0 <= x < order@.len() && 0 <= y < order@.len() && x != y implies order@[x] != order@[y] by {
                if x != pos && y != pos {
                    let bx = if x < pos { x } else { x - 1 };
                    let by_ = if y < pos { y } else { y - 1 };
                    assert(order@[x] == before[bx] && order@[y] == before[by_]);
                }
            }
            assert forall|k: int| 0 <= k < order@.len() implies order@[k] < i + 1 by {
                if k < pos {
                    assert(order@[k] == before[k]);
                } else if k > pos {
                    assert(order@[k] == before[k - 1]);
                }
            }
        }
        i = i + 1;
    }
    order
}

/// In leaderboard order a team with more steps stands before a team with
/// fewer, and among teams with as many steps, one with more valid actions
/// stands before one with fewer.
pub proof fn lemma_more_progress_first(keys: Seq<RankKey>, order: Seq<usize>, a: int, b: int)
    requires
        in_rank_order(keys, order),
        0 <= a < order.len(),
        0 <= b < order.len(),
        ({
            let ka = key_of(keys[order[a] as int]);
            let kb = key_of(keys[order[b] as int]);
            ka.0 > kb.0 || (ka.0 == kb.0 && ka.1 > kb.1)
        }),
    ensures
        a < b,
{
    if b < a {
        assert(ranks_no_later(key_of(keys[order[b] as int]), key_of(keys[order[a] as int])));
    } else if a == b {
    }
}

} // verus!
