//! The pruning law: alpha-beta search computes the full minimax value.
//!
//! The law is stated over an explicit game tree — the shape the recursive
//! search explores, with an interior node holding the subtrees one move
//! away and a leaf holding a static score. `spec_ab` prunes exactly as the
//! search's loops do: the running best starts at a sentinel, each child is
//! searched with the narrowed window, and once beta is no better than the
//! raised alpha the remaining children are skipped. `spec_minimax` folds
//! every child. The Knuth–Moore bounds relate the two at any window, and
//! at the full window they coincide.

use vstd::prelude::*;
use crate::search::{NEG_INF, POS_INF, SCORE_BOUND};

verus! {

pub enum GameTree {
    Leaf(i64),
    Node(Vec<GameTree>),
}

/// Full-width minimax over the first `k` children, folded onto the
/// sentinel seed.
pub open spec fn spec_minimax_prefix(cs: Seq<GameTree>, k: int, maximizing: bool) -> int
    decreases cs, 0int, k,
{
    if k <= 0 || cs.len() < k {
        if maximizing {
            NEG_INF as int
        } else {
            POS_INF as int
        }
    } else {
        let prev = spec_minimax_prefix(cs, k - 1, maximizing);
        let child = spec_minimax(cs[k - 1], !maximizing);
        if maximizing {
            if child > prev {
                child
            } else {
                prev
            }
        } else {
            if child < prev {
                child
            } else {
                prev
            }
        }
    }
}

/// Full-width minimax value of a game tree.
pub open spec fn spec_minimax(t: GameTree, maximizing: bool) -> int
    decreases t, 1int, 0int,
{
    match t {
        GameTree::Leaf(v) => v as int,
        GameTree::Node(cs) => spec_minimax_prefix(cs@, cs@.len() as int, maximizing),
    }
}

/// Alpha-beta value of the first `k` children: each child is searched
/// with the window narrowed by the running best, and once the window
/// closes the rest are pruned — the running best freezes, exactly as the
/// search's loop breaks.
pub open spec fn spec_ab_prefix(
    cs: Seq<GameTree>,
    k: int,
    alpha: int,
    beta: int,
    maximizing: bool,
) -> int
    decreases cs, 0int, k,
{
    if k <= 0 || cs.len() < k {
        if maximizing {
            NEG_INF as int
        } else {
            POS_INF as int
        }
    } else {
        let prev = spec_ab_prefix(cs, k - 1, alpha, beta, maximizing);
        if maximizing {
            let a = if prev > alpha {
                prev
            } else {
                alpha
            };
            if beta <= a {
                prev
            } else {
                let e = spec_ab(cs[k - 1], a, beta, false);
                if e > prev {
                    e
                } else {
                    prev
                }
            }
        } else {
            let b = if prev < beta {
                prev
            } else {
                beta
            };
            if b <= alpha {
                prev
            } else {
                let e = spec_ab(cs[k - 1], alpha, b, true);
                if e < prev {
                    e
                } else {
                    prev
                }
            }
        }
    }
}

/// Alpha-beta value of a game tree under the window `(alpha, beta)`.
pub open spec fn spec_ab(t: GameTree, alpha: int, beta: int, maximizing: bool) -> int
    decreases t, 1int, 0int,
{
    match t {
        GameTree::Leaf(v) => v as int,
        GameTree::Node(cs) => spec_ab_prefix(cs@, cs@.len() as int, alpha, beta, maximizing),
    }
}

/// A tree the search could actually meet: every leaf scores within the
/// mate-plus-bonus band and every interior node has at least one move.
pub open spec fn wf_tree(t: GameTree) -> bool
    decreases t, 1int, 0int,
{
    match t {
        GameTree::Leaf(v) => -SCORE_BOUND <= v <= SCORE_BOUND,
        GameTree::Node(cs) => cs@.len() > 0 && wf_children(cs@, cs@.len() as int),
    }
}

pub open spec fn wf_children(cs: Seq<GameTree>, k: int) -> bool
    decreases cs, 0int, k,
{
    if k <= 0 || cs.len() < k {
        true
    } else {
        wf_children(cs, k - 1) && wf_tree(cs[k - 1])
    }
}

/// The minimax value of a well-formed tree stays within the leaf band.
pub proof fn lemma_minimax_bounded(t: GameTree, maximizing: bool)
    requires
        wf_tree(t),
    ensures
        -SCORE_BOUND <= spec_minimax(t, maximizing) <= SCORE_BOUND,
    decreases t, 1int, 0int,
{
    match t {
        GameTree::Leaf(_) => {},
        GameTree::Node(cs) => {
            lemma_minimax_prefix_bounded(cs@, cs@.len() as int, maximizing);
        },
    }
}

proof fn lemma_minimax_prefix_bounded(cs: Seq<GameTree>, k: int, maximizing: bool)
    requires
        wf_children(cs, k),
        k <= cs.len(),
    ensures
        1 <= k ==> -SCORE_BOUND <= spec_minimax_prefix(cs, k, maximizing) <= SCORE_BOUND,
    decreases cs, 0int, k,
{
    if k >= 1 {
        lemma_minimax_prefix_bounded(cs, k - 1, maximizing);
        lemma_minimax_bounded(cs[k - 1], !maximizing);
        if k == 1 {
            assert(spec_minimax_prefix(cs, 0, maximizing) == if maximizing {
                NEG_INF as int
            } else {
                POS_INF as int
            });
        }
    }
}

/// Law (window bounds): at any window, the pruned value is trustworthy —
/// a result inside the window is the exact minimax value, a result at or
/// below alpha is an upper bound on it, and a result at or above beta is
/// a lower bound on it.
pub proof fn lemma_ab_window(t: GameTree, alpha: int, beta: int, maximizing: bool)
    requires
        alpha < beta,
    ensures
        spec_ab(t, alpha, beta, maximizing) <= alpha ==> spec_minimax(t, maximizing) <= spec_ab(
            t,
            alpha,
            beta,
            maximizing,
        ),
        spec_ab(t, alpha, beta, maximizing) >= beta ==> spec_minimax(t, maximizing) >= spec_ab(
            t,
            alpha,
            beta,
            maximizing,
        ),
        alpha < spec_ab(t, alpha, beta, maximizing) < beta ==> spec_ab(t, alpha, beta, maximizing)
            == spec_minimax(t, maximizing),
    decreases t, 1int, 0int,
{
    match t {
        GameTree::Leaf(_) => {},
        GameTree::Node(cs) => {
            lemma_ab_window_prefix(cs@, cs@.len() as int, alpha, beta, maximizing);
        },
    }
}

proof fn lemma_ab_window_prefix(cs: Seq<GameTree>, k: int, alpha: int, beta: int, maximizing: bool)
    requires
        alpha < beta,
        0 <= k <= cs.len(),
    ensures
        spec_ab_prefix(cs, k, alpha, beta, maximizing) <= alpha ==> spec_minimax_prefix(
            cs,
            k,
            maximizing,
        ) <= spec_ab_prefix(cs, k, alpha, beta, maximizing),
        spec_ab_prefix(cs, k, alpha, beta, maximizing) >= beta ==> spec_minimax_prefix(
            cs,
            k,
            maximizing,
        ) >= spec_ab_prefix(cs, k, alpha, beta, maximizing),
        alpha < spec_ab_prefix(cs, k, alpha, beta, maximizing) < beta ==> spec_ab_prefix(
            cs,
            k,
            alpha,
            beta,
            maximizing,
        ) == spec_minimax_prefix(cs, k, maximizing),
    decreases cs, 0int, k,
{
    if k > 0 {
        lemma_ab_window_prefix(cs, k - 1, alpha, beta, maximizing);
        let prev = spec_ab_prefix(cs, k - 1, alpha, beta, maximizing);
        if maximizing {
            let a = if prev > alpha {
                prev
            } else {
                alpha
            };
            if beta <= a {
            } else {
                lemma_ab_window(cs[k - 1], a, beta, false);
            }
        } else {
            let b = if prev < beta {
                prev
            } else {
                beta
            };
            if b <= alpha {
            } else {
                lemma_ab_window(cs[k - 1], alpha, b, true);
            }
        }
    }
}

/// Law: over the full window, for either side to move, alpha-beta pruning
/// returns exactly the exhaustive minimax value of a well-formed tree.
pub proof fn lemma_ab_equals_minimax(t: GameTree, maximizing: bool)
    requires
        wf_tree(t),
    ensures
        spec_ab(t, NEG_INF as int, POS_INF as int, maximizing) == spec_minimax(t, maximizing),
{
    lemma_ab_window(t, NEG_INF as int, POS_INF as int, maximizing);
    lemma_minimax_bounded(t, maximizing);
}

} // verus!
