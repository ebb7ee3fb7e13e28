//! Search-side scoring: sentinel bounds, the transposition-memo band, the
//! mate-distance bonus, random move-order shuffling, and selection of the
//! best-scored root move.

use vstd::prelude::*;
use crate::score::{Color, MATE_SCORE, MATE_BONUS_NUM, TABLEBASE_REWARD};

verus! {

/// Initial accumulator for a maximizing node: below every real score.
pub const NEG_INF: i64 = -0x7fff_ffff_ffff_ffff;

/// Initial accumulator for a minimizing node: above every real score.
pub const POS_INF: i64 = 0x7fff_ffff_ffff_ffff;

/// Magnitude bound on every non-sentinel score the recursive search can
/// return: a mate score plus the largest mate-distance bonus.
pub const SCORE_BOUND: i64 = 500000;

/// Every value a search node can return: a sentinel (no legal moves), or a
/// score within the mate-plus-bonus band.
pub open spec fn plausible_score(r: i64) -> bool {
    r == NEG_INF || r == POS_INF || -SCORE_BOUND <= r <= SCORE_BOUND
}

/// Every value a root-move evaluation can return: a search score, possibly
/// widened to the tablebase-reward magnitude used for a terminal root.
pub open spec fn plausible_root_score(r: i64) -> bool {
    r == NEG_INF || r == POS_INF || -TABLEBASE_REWARD <= r <= TABLEBASE_REWARD
}

/// The transposition memo's band invariant: only scores strictly between
/// the mate scores are ever cached, so no depth-dependent mate-distance
/// bonus is reused under the wrong depth context.
pub open spec fn memo_ok(m: Map<u64, i64>) -> bool {
    forall|k: u64| #[trigger] m.contains_key(k) ==> -MATE_SCORE < m[k] < MATE_SCORE
}

/// Mate-distance bonus at ply `ply` from the root: `MATE_BONUS_NUM / ply`,
/// credited toward the minimizing side when the node maximizes and toward
/// the maximizing side otherwise, so nearer mates outweigh farther ones.
pub open spec fn spec_mate_bonus(maximizing: bool, ply: u64) -> int {
    if maximizing {
        -(MATE_BONUS_NUM as int / ply as int)
    } else {
        MATE_BONUS_NUM as int / ply as int
    }
}

/// Score of a checkmate node found during search: the static mate score
/// against the side to move, plus the mate-distance bonus.
pub open spec fn spec_mate_node_score(stm: Color, maximizing: bool, ply: u64) -> int {
    (if stm == Color::White {
        -MATE_SCORE as int
    } else {
        MATE_SCORE as int
    }) + spec_mate_bonus(maximizing, ply)
}

pub fn mate_node_score(stm: Color, maximizing: bool, ply: u64) -> (r: i64)
    requires
        1 <= ply,
        ply <= 0x7fff_ffff_ffff_ffff,
    ensures
        r == spec_mate_node_score(stm, maximizing, ply),
        -SCORE_BOUND <= r <= SCORE_BOUND,
{
    let bonus_mag: u64 = (MATE_BONUS_NUM as u64) / ply;
    proof {
        assert((MATE_BONUS_NUM as u64) / ply <= MATE_BONUS_NUM as u64) by (nonlinear_arith)
            requires ply >= 1;
        assert((MATE_BONUS_NUM as u64) / ply == MATE_BONUS_NUM as int / ply as int);
    }
    let bonus: i64 = if maximizing {
        -(bonus_mag as i64)
    } else {
        bonus_mag as i64
    };
    let base: i64 = if let Color::White = stm {
        -MATE_SCORE
    } else {
        MATE_SCORE
    };
    base + bonus
}

/// Law: a checkmate node never scores 0. Whenever the maximizing flag
/// tracks the side to move as the search establishes it at the root —
/// the node maximizes exactly when White is to move — the mate score and
/// the mate-distance bonus carry the same sign, so the node's score keeps
/// at least the full mate magnitude against the mated side.
pub proof fn lemma_mate_score_never_zero(stm: Color, maximizing: bool, ply: u64)
    requires
        1 <= ply,
        maximizing <==> stm == Color::White,
    ensures
        spec_mate_node_score(stm, maximizing, ply) != 0,
        stm == Color::White ==> spec_mate_node_score(stm, maximizing, ply) <= -MATE_SCORE,
        stm == Color::Black ==> spec_mate_node_score(stm, maximizing, ply) >= MATE_SCORE,
{
    assert(MATE_BONUS_NUM as int / ply as int >= 0) by (nonlinear_arith)
        requires ply >= 1;
}

/// Relies on rand's SliceRandom::shuffle with thread_rng: a random
/// permutation of the vector in place — same length, same elements with
/// the same multiplicities, nothing new.
#[verifier::external_body]
pub(crate) fn shuffle_vec<T>(v: &mut Vec<T>)
    ensures
        final(v)@.len() == old(v)@.len(),
        final(v)@.to_multiset() == old(v)@.to_multiset(),
        forall|x: T| final(v)@.contains(x) ==> old(v)@.contains(x),
{
    let mut rng = rand::thread_rng();
    rand::seq::SliceRandom::shuffle(v.as_mut_slice(), &mut rng);
}

/// Picks the index carried by the entry with the greatest score: entries
/// are scanned in order, a later entry wins only with a strictly greater
/// score, and when no score beats the sentinel the default index 0 stands,
/// as the first legal move does.
pub fn select_best(scored: &Vec<(i64, usize)>) -> (r: usize)
    requires
        forall|j: int| 0 <= j < scored@.len() ==> #[trigger] scored@[j].0 >= NEG_INF,
    ensures
        r == 0 || exists|j: int|
            0 <= j < scored@.len() && #[trigger] scored@[j].1 == r && (forall|k: int|
                0 <= k < scored@.len() ==> #[trigger] scored@[k].0 <= scored@[j].0),
        (exists|j: int| 0 <= j < scored@.len() && #[trigger] scored@[j].0 > NEG_INF)
            ==> exists|j: int|
            0 <= j < scored@.len() && #[trigger] scored@[j].1 == r && (forall|k: int|
                0 <= k < scored@.len() ==> #[trigger] scored@[k].0 <= scored@[j].0),
{
    let n = scored.len();
    let mut best: i64 = NEG_INF;
    let mut best_idx: usize = 0;
    let mut i: usize = 0;
    while i < n
        invariant
            i <= n,
            n == scored@.len(),
            forall|j: int| 0 <= j < n ==> #[trigger] scored@[j].0 >= NEG_INF,
            forall|k: int| 0 <= k < i ==> #[trigger] scored@[k].0 <= best,
            best == NEG_INF && best_idx == 0 || exists|j: int|
                0 <= j < i && #[trigger] scored@[j].0 == best && scored@[j].1 == best_idx,
        decreases n - i,
    {
        let (s, ix) = scored[i];
        if s > best {
            best = s;
            best_idx = ix;
        }
        i = i + 1;
    }
    best_idx
}

} // verus!
