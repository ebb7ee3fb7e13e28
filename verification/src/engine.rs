//! The engine: recursive alpha-beta minimax with a per-task transposition
//! memo, capture/check extensions, mate-distance scoring, parallel
//! root-move evaluation, and iterative deepening against a wall-clock
//! deadline, with a tablebase lookup tried first.

use vstd::prelude::*;
use std::collections::HashMap;
use rayon::iter::{IntoParallelRefIterator, ParallelIterator};
use crate::oracle;
use crate::oracle::{
    spec_hash, spec_legal, spec_move_from, spec_move_promotion, spec_move_to, spec_piece_at,
    spec_squares, spec_status, spec_stm, MoveCoords,
};
use crate::score;
use crate::score::{Color, PieceKind, Status, FIFTY_MOVE_LIMIT, MATE_SCORE, TABLEBASE_REWARD};
use crate::score::{spec_next_fifty, spec_static_eval};
use crate::search;
use crate::search::{
    memo_ok, plausible_root_score, plausible_score, spec_mate_node_score, NEG_INF, POS_INF,
};
use crate::syzygy;
use crate::syzygy::TbHandle;

verus! {

broadcast use vstd::std_specs::hash::group_hash_axioms;

#[verifier::external_type_specification]
#[verifier::external_body]
pub struct ExSystemTime(std::time::SystemTime);

/// Relies on std::time::SystemTime::now: the current wall-clock instant.
#[verifier::external_body]
fn time_now() -> std::time::SystemTime {
    std::time::SystemTime::now()
}

/// Relies on SystemTime's documented ordering and checked addition of a
/// Duration: whether `t` lies strictly before `start` plus `nanos`
/// nanoseconds; false when that sum is not representable.
#[verifier::external_body]
fn time_before(t: &std::time::SystemTime, start: &std::time::SystemTime, nanos: u32) -> bool {
    match start.checked_add(std::time::Duration::new(0, nanos)) {
        Some(deadline) => *t < deadline,
        None => false,
    }
}

/// Relies on rayon's ParallelIterator::map and collect over the moves: one
/// entry per move, in order, each the result of `Engine::score_root_move`
/// on that move — whose contract every entry therefore meets.
#[verifier::external_body]
fn par_root_scores(
    brett: &chess::Board,
    moves: &Vec<chess::ChessMove>,
    fifty_move_counter: u8,
    depth: u64,
    max_depth: u64,
    maximizing_player: bool,
    white_to_move: bool,
    tables: &TbHandle,
) -> (r: Vec<i64>)
    requires
        1 <= depth,
        max_depth <= 0x7fff_ffff_ffff_ffff,
        fifty_move_counter <= 254,
        forall|i: int| 0 <= i < moves@.len() ==> spec_legal(*brett).contains(
            #[trigger] moves@[i],
        ),
    ensures
        r@.len() == moves@.len(),
        forall|i: int| 0 <= i < r@.len() ==> plausible_root_score(#[trigger] r@[i]),
{
    moves.par_iter().map(
        |m|
            Engine::score_root_move(
                brett,
                *m,
                fifty_move_counter,
                depth,
                max_depth,
                maximizing_player,
                white_to_move,
                tables,
            ),
    ).collect()
}

/// Termination measure for iterative deepening: each round either widens
/// `max_depth` by 2 (only while it is within 6 of `depth`) or raises
/// `depth` by 2, and no round starts once `depth` reaches 50.
pub open spec fn deepening_measure(depth: u64, max_depth: u64) -> int {
    6 * (if depth <= 52 {
        52 - depth as int
    } else {
        0int
    }) + (if depth as int + 8 >= max_depth as int {
        depth as int + 8 - max_depth as int
    } else {
        0int
    })
}

pub struct Engine {
    pub brett: chess::Board,
}

impl Engine {
    pub fn new(brett: chess::Board) -> (r: Engine)
        ensures
            r.brett == brett,
    {
        Engine { brett }
    }

    /// Static evaluation of a position: a forced fifty-move draw scores 0
    /// before anything else, then checkmate scores against the side to
    /// move, stalemate scores 0, and an ongoing game scores its material
    /// balance.
    pub fn eval_board(brett: &chess::Board, fifty_move_counter: u8) -> (r: i64)
        ensures
            r == spec_static_eval(
                fifty_move_counter,
                spec_status(*brett),
                spec_stm(*brett),
                spec_squares(*brett),
            ),
            -MATE_SCORE <= r <= MATE_SCORE,
    {
        let status = oracle::board_status(brett);
        let stm = oracle::side_to_move(brett);
        let squares = oracle::board_squares(brett);
        score::static_eval(fifty_move_counter, status, stm, &squares)
    }

    /// Recursive alpha-beta minimax. An expired fifty-move counter scores
    /// 0 before terminal classification; a checkmate node earns the mate
    /// score plus the mate-distance bonus at its ply; a memoized position
    /// returns its cached score unconditionally; an exhausted depth budget
    /// falls back to the static evaluation; otherwise the legal moves are
    /// searched in random order with alpha-beta pruning, extending one ply
    /// on captures and checks at the depth boundary. Every child score
    /// strictly inside the mate band is cached under the parent's hash.
    /// The memo only ever holds scores strictly inside the mate band.
    pub fn minmax(
        brett: &chess::Board,
        fifty_move_counter: u8,
        depth: u64,
        max_depth: u64,
        alpha: i64,
        beta: i64,
        maximizing_player: bool,
        eval_map: &mut HashMap<u64, i64>,
        depth_counter: u64,
        tables: &TbHandle,
    ) -> (r: i64)
        requires
            1 <= depth_counter,
            depth_counter <= 0x7fff_ffff_ffff_ffff,
            max_depth <= 0x7fff_ffff_ffff_ffff,
            memo_ok(old(eval_map)@),
        ensures
            memo_ok(final(eval_map)@),
            forall|k: u64| old(eval_map)@.contains_key(k)
                ==> #[trigger] final(eval_map)@.contains_key(k),
            plausible_score(r),
            fifty_move_counter >= FIFTY_MOVE_LIMIT ==> r == 0 && final(eval_map)@ == old(eval_map)@,
            fifty_move_counter < FIFTY_MOVE_LIMIT && spec_status(*brett) == Status::Checkmate
                ==> r == spec_mate_node_score(spec_stm(*brett), maximizing_player, depth_counter)
                && final(eval_map)@ == old(eval_map)@,
            fifty_move_counter < FIFTY_MOVE_LIMIT && spec_status(*brett) == Status::Stalemate
                ==> r == 0 && final(eval_map)@ == old(eval_map)@.insert(spec_hash(*brett), 0),
            fifty_move_counter < FIFTY_MOVE_LIMIT && spec_status(*brett) == Status::Ongoing && old(eval_map)@.contains_key(spec_hash(*brett)) ==> r == old(eval_map)@[spec_hash(*brett)] && final(eval_map)@ == old(eval_map)@,
            fifty_move_counter < FIFTY_MOVE_LIMIT && spec_status(*brett) == Status::Ongoing && !old(eval_map)@.contains_key(spec_hash(*brett)) && (depth == 0 || depth_counter >= max_depth)
                ==> r == spec_static_eval(
                fifty_move_counter,
                Status::Ongoing,
                spec_stm(*brett),
                spec_squares(*brett),
            ) && final(eval_map)@ == old(eval_map)@,
        decreases (if depth_counter < max_depth {
            max_depth - depth_counter
        } else {
            0int
        }),
    {
        if fifty_move_counter >= FIFTY_MOVE_LIMIT {
            return 0;
        }
        let hash = oracle::board_hash(brett);
        let status = oracle::board_status(brett);
        match status {
            Status::Ongoing => {},
            Status::Stalemate => {
                eval_map.insert(hash, 0);
                return 0;
            },
            Status::Checkmate => {
                let stm = oracle::side_to_move(brett);
                return search::mate_node_score(stm, maximizing_player, depth_counter);
            },
        }
        if let Some(v) = eval_map.get(&hash) {
            return *v;
        }
        if depth == 0 || depth_counter >= max_depth {
            return Engine::eval_board(brett, fifty_move_counter);
        }
        let mut moves = oracle::legal_moves(brett);
        search::shuffle_vec(&mut moves);
        let n = moves.len();
        proof {
            assert(forall|x: chess::ChessMove|
                moves@.contains(x) ==> spec_legal(*brett).contains(x));
        }
        if maximizing_player {
            let mut max_eval: i64 = NEG_INF;
            let mut al = alpha;
            let mut i: usize = 0;
            while i < n
                invariant
                    i <= n,
                    n == moves@.len(),
                    memo_ok(eval_map@),
                    forall|k: u64| old(eval_map)@.contains_key(k) ==> #[trigger] eval_map@.contains_key(k),
                    plausible_score(max_eval),
                    1 <= depth,
                    1 <= depth_counter < max_depth,
                    max_depth <= 0x7fff_ffff_ffff_ffff,
                    fifty_move_counter < FIFTY_MOVE_LIMIT,
                    spec_status(*brett) == Status::Ongoing,
                    !old(eval_map)@.contains_key(spec_hash(*brett)),
                    forall|x: chess::ChessMove| moves@.contains(x) ==> spec_legal(
                        *brett,
                    ).contains(x),
                decreases n - i,
            {
                let m = moves[i];
                proof {
                    assert(moves@.contains(moves@[i as int]));
                }
                let src = oracle::move_source(&m);
                let dst = oracle::move_dest(&m);
                let is_pawn = matches!(oracle::piece_on(brett, src), Some(PieceKind::Pawn));
                let is_capture = oracle::piece_on(brett, dst).is_some();
                let fifty = score::next_fifty(fifty_move_counter, is_pawn, is_capture);
                let child = oracle::apply_move(brett, m);
                let eval = if depth == 1 && (is_capture || oracle::checkers_bits(&child) != 0) {
                    Engine::minmax(
                        &child,
                        fifty,
                        2,
                        max_depth,
                        al,
                        beta,
                        false,
                        eval_map,
                        depth_counter + 1,
                        tables,
                    )
                } else {
                    Engine::minmax(
                        &child,
                        fifty,
                        depth - 1,
                        max_depth,
                        al,
                        beta,
                        false,
                        eval_map,
                        depth_counter + 1,
                        tables,
                    )
                };
                if eval < MATE_SCORE && eval > -MATE_SCORE {
                    eval_map.insert(hash, eval);
                }
                if eval > max_eval {
                    max_eval = eval;
                }
                if eval > al {
                    al = eval;
                }
                if beta <= al {
                    return max_eval;
                }
                i = i + 1;
            }
            max_eval
        } else {
            let mut min_eval: i64 = POS_INF;
            let mut be = beta;
            let mut i: usize = 0;
            while i < n
                invariant
                    i <= n,
                    n == moves@.len(),
                    memo_ok(eval_map@),
                    forall|k: u64| old(eval_map)@.contains_key(k) ==> #[trigger] eval_map@.contains_key(k),
                    plausible_score(min_eval),
                    1 <= depth,
                    1 <= depth_counter < max_depth,
                    max_depth <= 0x7fff_ffff_ffff_ffff,
                    fifty_move_counter < FIFTY_MOVE_LIMIT,
                    spec_status(*brett) == Status::Ongoing,
                    !old(eval_map)@.contains_key(spec_hash(*brett)),
                    forall|x: chess::ChessMove| moves@.contains(x) ==> spec_legal(
                        *brett,
                    ).contains(x),
                decreases n - i,
            {
                let m = moves[i];
                proof {
                    assert(moves@.contains(moves@[i as int]));
                }
                let src = oracle::move_source(&m);
                let dst = oracle::move_dest(&m);
                let is_pawn = matches!(oracle::piece_on(brett, src), Some(PieceKind::Pawn));
                let is_capture = oracle::piece_on(brett, dst).is_some();
                let fifty = score::next_fifty(fifty_move_counter, is_pawn, is_capture);
                let child = oracle::apply_move(brett, m);
                let eval = if depth == 1 && (is_capture || oracle::checkers_bits(&child) != 0) {
                    Engine::minmax(
                        &child,
                        fifty,
                        2,
                        max_depth,
                        alpha,
                        be,
                        true,
                        eval_map,
                        depth_counter + 1,
                        tables,
                    )
                } else {
                    Engine::minmax(
                        &child,
                        fifty,
                        depth - 1,
                        max_depth,
                        alpha,
                        be,
                        true,
                        eval_map,
                        depth_counter + 1,
                        tables,
                    )
                };
                if eval < MATE_SCORE && eval > -MATE_SCORE {
                    eval_map.insert(hash, eval);
                }
                if eval < min_eval {
                    min_eval = eval;
                }
                if eval < be {
                    be = eval;
                }
                if be <= alpha {
                    return min_eval;
                }
                i = i + 1;
            }
            min_eval
        }
    }

    /// Root-relative score of one legal root move: the successor position
    /// is searched with a fresh, private transposition memo, and the
    /// result is sign-corrected so that greater is always better for the
    /// side to move at the root.
    pub fn score_root_move(
        brett: &chess::Board,
        m: chess::ChessMove,
        fifty_move_counter: u8,
        depth: u64,
        max_depth: u64,
        maximizing_player: bool,
        white_to_move: bool,
        tables: &TbHandle,
    ) -> (r: i64)
        requires
            1 <= depth,
            max_depth <= 0x7fff_ffff_ffff_ffff,
            fifty_move_counter <= 254,
            spec_legal(*brett).contains(m),
        ensures
            plausible_root_score(r),
            spec_status(*brett) == Status::Stalemate ==> r == 0,
            spec_status(*brett) == Status::Checkmate ==> r == TABLEBASE_REWARD,
    {
        let src = oracle::move_source(&m);
        let dst = oracle::move_dest(&m);
        let is_pawn = matches!(oracle::piece_on(brett, src), Some(PieceKind::Pawn));
        let is_capture = oracle::piece_on(brett, dst).is_some();
        let fifty = score::next_fifty(fifty_move_counter, is_pawn, is_capture);
        let child = oracle::apply_move(brett, m);
        let mut eval_map: HashMap<u64, i64> = HashMap::new();
        match oracle::board_status(brett) {
            Status::Stalemate => 0,
            Status::Checkmate => TABLEBASE_REWARD,
            Status::Ongoing => {
                let e = Engine::minmax(
                    &child,
                    fifty,
                    depth - 1,
                    max_depth,
                    NEG_INF,
                    POS_INF,
                    maximizing_player,
                    &mut eval_map,
                    2,
                    tables,
                );
                if white_to_move {
                    e
                } else {
                    -e
                }
            },
        }
    }

    /// One search decision, taken after the tablebase has already been
    /// consulted: a tablebase answer is returned at once with the counter
    /// advanced by one half-move; otherwise every legal root move is
    /// scored in parallel, the best score wins with ties broken by a
    /// random shuffle, and while the deadline has not passed and the
    /// nominal depth is under 50, the search budget grows — `max_depth`
    /// by 2 while it is within 6 of `depth`, else `depth` by 2 — and the
    /// deeper round's choice replaces this one. Returns None only when
    /// the position has no legal move.
    pub fn best_move_given_probe(
        &self,
        fifty_move_counter: u8,
        depth: u64,
        max_depth: u64,
        time: u32,
        start: &std::time::SystemTime,
        tables: &TbHandle,
        table_move: Option<(MoveCoords, i64)>,
    ) -> (r: Option<(chess::ChessMove, u8)>)
        requires
            1 <= depth,
            max_depth <= 0x7fff_ffff_ffff_ffff,
            fifty_move_counter <= 254,
            table_move is Some ==> (table_move->0).0.wf(),
        ensures
            table_move is Some ==> r is Some && (r->0).1 == fifty_move_counter + 1
                && spec_move_from((r->0).0) == (table_move->0).0.from && spec_move_to((r->0).0)
                == (table_move->0).0.to && spec_move_promotion((r->0).0)
                == (table_move->0).0.promotion,
            r is Some ==> (r->0).1 == 0 || (r->0).1 == fifty_move_counter + 1,
            table_move is Some || spec_legal(self.brett).len() > 0 ==> r is Some,
            table_move is None && spec_legal(self.brett).len() == 0 ==> r is None,
            table_move is None && r is Some ==> spec_legal(self.brett).contains((r->0).0)
                && (r->0).1 == spec_next_fifty(
                fifty_move_counter,
                spec_piece_at(self.brett, spec_move_from((r->0).0) as int) == Some(PieceKind::Pawn),
                spec_piece_at(self.brett, spec_move_to((r->0).0) as int) is Some,
            ),
        decreases deepening_measure(depth, max_depth),
    {
        if let Some((mc, _score)) = table_move {
            let chosen = oracle::make_move_value(mc.from, mc.to, mc.promotion);
            return Some((chosen, fifty_move_counter + 1));
        }
        let stm = oracle::side_to_move(&self.brett);
        let maximizing_player = matches!(stm, Color::Black);
        let white_to_move = matches!(stm, Color::White);
        let all_moves = oracle::legal_moves(&self.brett);
        let n = all_moves.len();
        if n == 0 {
            return None;
        }
        proof {
            assert forall|i: int| 0 <= i < all_moves@.len() implies spec_legal(
                self.brett,
            ).contains(#[trigger] all_moves@[i]) by {
                assert(spec_legal(self.brett)[i] == all_moves@[i]);
            }
        }
        let evals = par_root_scores(
            &self.brett,
            &all_moves,
            fifty_move_counter,
            depth,
            max_depth,
            maximizing_player,
            white_to_move,
            tables,
        );
        let mut scored: Vec<(i64, usize)> = Vec::new();
        let mut i: usize = 0;
        while i < n
            invariant
                i <= n,
                n == evals@.len(),
                scored@.len() == i,
                forall|j: int| 0 <= j < evals@.len() ==> plausible_root_score(#[trigger] evals@[j]),
                forall|j: int| 0 <= j < i ==> (#[trigger] scored@[j]).0 >= NEG_INF && scored@[j].1
                    < n,
            decreases n - i,
        {
            scored.push((evals[i], i));
            i = i + 1;
        }
        let ghost before = scored@;
        search::shuffle_vec(&mut scored);
        proof {
            assert forall|j: int| 0 <= j < scored@.len() implies (#[trigger] scored@[j]).0
                >= NEG_INF && scored@[j].1 < n by {
                let x = scored@[j];
                assert(scored@.contains(x));
                assert(before.contains(x));
                let k = choose|k: int| 0 <= k < before.len() && before[k] == x;
                assert(before[k].0 >= NEG_INF && before[k].1 < n);
            }
        }
        let best_idx = search::select_best(&scored);
        proof {
            assert(best_idx < n);
        }
        let chosen = all_moves[best_idx];
        proof {
            assert(spec_legal(self.brett).contains(all_moves@[best_idx as int]));
        }
        let now = time_now();
        if time_before(&now, start, time) && depth < 50 {
            if max_depth <= depth + 6 {
                return self.best_move_given_probe(
                    fifty_move_counter,
                    depth,
                    max_depth + 2,
                    time,
                    start,
                    tables,
                    None,
                );
            }
            return self.best_move_given_probe(
                fifty_move_counter,
                depth + 2,
                max_depth,
                time,
                start,
                tables,
                None,
            );
        }
        let src = oracle::move_source(&chosen);
        let dst = oracle::move_dest(&chosen);
        let is_pawn = matches!(oracle::piece_on(&self.brett, src), Some(PieceKind::Pawn));
        let is_capture = oracle::piece_on(&self.brett, dst).is_some();
        let new_fifty = score::next_fifty(fifty_move_counter, is_pawn, is_capture);
        Some((chosen, new_fifty))
    }

    /// The engine's entry point: consult the tablebase first, then search.
    /// Returns None only when the position has no legal move.
    pub fn best_move(
        &self,
        fifty_move_counter: u8,
        depth: u64,
        max_depth: u64,
        time: u32,
        start: &std::time::SystemTime,
        tables: &TbHandle,
    ) -> (r: Option<(chess::ChessMove, u8)>)
        requires
            1 <= depth,
            max_depth <= 0x7fff_ffff_ffff_ffff,
            fifty_move_counter <= 254,
        ensures
            r is Some ==> (r->0).1 == 0 || (r->0).1 == fifty_move_counter + 1,
            spec_legal(self.brett).len() > 0 ==> r is Some,
    {
        let table_move = syzygy::best_move_table(&self.brett, fifty_move_counter as u32, tables);
        self.best_move_given_probe(fifty_move_counter, depth, max_depth, time, start, tables, table_move)
    }
}

} // verus!
