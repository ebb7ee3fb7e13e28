use std::collections::HashMap;
use std::str::FromStr;
use std::time::SystemTime;

use schach::engine::Engine;
use schach::search::{NEG_INF, POS_INF};
use schach::syzygy::empty_tablebase;

/// Exhaustive minimax to the same depth rules as the engine's search —
/// fifty-move gate, mate-distance bonus, depth cutoff, and the one-ply
/// capture/check extension — but with no pruning and no memo.
fn full_minimax(
    board: &chess::Board,
    fifty: u8,
    depth: u64,
    max_depth: u64,
    maximizing: bool,
    ply: u64,
) -> i64 {
    if fifty >= 50 {
        return 0;
    }
    match board.status() {
        chess::BoardStatus::Stalemate => return 0,
        chess::BoardStatus::Checkmate => {
            let base: i64 = if board.side_to_move() == chess::Color::White {
                -100000
            } else {
                100000
            };
            let bonus: i64 = 400000 / (ply as i64);
            return if maximizing { base - bonus } else { base + bonus };
        }
        chess::BoardStatus::Ongoing => {}
    }
    if depth == 0 || ply >= max_depth {
        return Engine::eval_board(board, fifty);
    }
    let moves: Vec<chess::ChessMove> = chess::MoveGen::new_legal(board).collect();
    let mut best: i64 = if maximizing { NEG_INF } else { POS_INF };
    for m in moves {
        let is_pawn = board.piece_on(m.get_source()) == Some(chess::Piece::Pawn);
        let is_capture = board.piece_on(m.get_dest()).is_some();
        let f = if is_pawn || is_capture { 0 } else { fifty + 1 };
        let child = board.make_move_new(m);
        let eval = if depth == 1 && (is_capture || child.checkers().0 != 0) {
            full_minimax(&child, f, 2, max_depth, !maximizing, ply + 1)
        } else {
            full_minimax(&child, f, depth - 1, max_depth, !maximizing, ply + 1)
        };
        if maximizing {
            best = best.max(eval);
        } else {
            best = best.min(eval);
        }
    }
    best
}

fn root_scores_match_full_width(board: &chess::Board, depth: u64, max_depth: u64) {
    let tb = empty_tablebase();
    let white_to_move = board.side_to_move() == chess::Color::White;
    let maximizing = !white_to_move;
    for m in chess::MoveGen::new_legal(board) {
        let is_pawn = board.piece_on(m.get_source()) == Some(chess::Piece::Pawn);
        let is_capture = board.piece_on(m.get_dest()).is_some();
        let f = if is_pawn || is_capture { 0 } else { 1 };
        let child = board.make_move_new(m);
        let full = full_minimax(&child, f, depth - 1, max_depth, maximizing, 2);
        let expected = if white_to_move { full } else { -full };
        let got =
            Engine::score_root_move(board, m, 0, depth, max_depth, maximizing, white_to_move, &tb);
        assert_eq!(got, expected, "move {}{}", m.get_source(), m.get_dest());
    }
}

#[test]
fn pruned_search_matches_full_width_from_initial_position() {
    root_scores_match_full_width(&chess::Board::default(), 2, 4);
}

#[test]
fn pruned_search_matches_full_width_in_pawn_endgame() {
    let board = chess::Board::from_str("4k3/8/8/3p4/4P3/8/8/4K3 w - - 0 1").unwrap();
    root_scores_match_full_width(&board, 2, 4);
}

#[test]
fn eval_board_balanced_at_start() {
    assert_eq!(Engine::eval_board(&chess::Board::default(), 0), 0);
}

#[test]
fn eval_board_counts_material_difference() {
    let board = chess::Board::from_str("4k3/8/8/8/8/8/8/3QK3 w - - 0 1").unwrap();
    assert_eq!(Engine::eval_board(&board, 0), 950);
    let board = chess::Board::from_str("3qk3/8/8/8/8/8/8/2N1K3 b - - 0 1").unwrap();
    assert_eq!(Engine::eval_board(&board, 0), 305 - 950);
}

#[test]
fn eval_board_draws_after_fifty_move_rule() {
    let board = chess::Board::from_str("4k3/8/8/8/8/8/8/3QK3 w - - 0 1").unwrap();
    assert_eq!(Engine::eval_board(&board, 50), 0);
}

#[test]
fn minmax_scores_checkmate_with_distance_bonus() {
    // The fool's mate position: White to move, checkmated.
    let board =
        chess::Board::from_str("rnb1kbnr/pppp1ppp/8/4p3/6Pq/5P2/PPPPP2P/RNBQKBNR w KQkq - 0 3")
            .unwrap();
    assert_eq!(board.status(), chess::BoardStatus::Checkmate);
    let tb = empty_tablebase();
    let mut memo: HashMap<u64, i64> = HashMap::new();
    let got = Engine::minmax(&board, 0, 3, 6, NEG_INF, POS_INF, true, &mut memo, 2, &tb);
    assert_eq!(got, -100000 - 200000);
    let got = Engine::minmax(&board, 0, 3, 6, NEG_INF, POS_INF, true, &mut memo, 4, &tb);
    assert_eq!(got, -100000 - 100000);
}

#[test]
fn minmax_returns_zero_once_fifty_counter_expires() {
    let board = chess::Board::from_str("4k3/8/8/8/8/8/8/3QK3 w - - 0 1").unwrap();
    let tb = empty_tablebase();
    let mut memo: HashMap<u64, i64> = HashMap::new();
    let got = Engine::minmax(&board, 50, 3, 6, NEG_INF, POS_INF, true, &mut memo, 2, &tb);
    assert_eq!(got, 0);
}

#[test]
fn minmax_memo_only_holds_scores_inside_mate_band() {
    let board = chess::Board::from_str("4k3/8/8/3p4/4P3/8/8/4K3 w - - 0 1").unwrap();
    let tb = empty_tablebase();
    let mut memo: HashMap<u64, i64> = HashMap::new();
    Engine::minmax(&board, 0, 3, 6, NEG_INF, POS_INF, false, &mut memo, 2, &tb);
    for v in memo.values() {
        assert!(-100000 < *v && *v < 100000);
    }
}

#[test]
fn best_move_from_initial_position_is_legal_and_updates_counter() {
    let board = chess::Board::default();
    let engine = Engine::new(board);
    let tb = empty_tablebase();
    let start = SystemTime::now();
    let (chosen, counter) = engine.best_move(0, 2, 4, 0, &start, &tb).unwrap();
    let legal: Vec<chess::ChessMove> = chess::MoveGen::new_legal(&board).collect();
    assert!(legal.contains(&chosen));
    // No threat exists in the initial position, so the chosen move is never
    // a king move — the king has no legal move at all.
    assert_ne!(board.piece_on(chosen.get_source()), Some(chess::Piece::King));
    let is_pawn = board.piece_on(chosen.get_source()) == Some(chess::Piece::Pawn);
    if is_pawn {
        assert_eq!(counter, 0);
    } else {
        assert_eq!(counter, 1);
    }
}

#[test]
fn best_move_returns_none_without_legal_moves() {
    // Stalemate: Black to move has no legal move.
    let board = chess::Board::from_str("7k/5Q2/6K1/8/8/8/8/8 b - - 0 1").unwrap();
    assert_eq!(board.status(), chess::BoardStatus::Stalemate);
    let engine = Engine::new(board);
    let tb = empty_tablebase();
    let start = SystemTime::now();
    assert!(engine.best_move(0, 2, 4, 0, &start, &tb).is_none());
}

#[test]
fn iterative_deepening_still_returns_a_legal_move() {
    // A small time budget lets a few deepening rounds run; whatever depth
    // the deadline allows, the reply is one of the legal moves and the
    // counter still follows the fifty-move rule.
    let board = chess::Board::from_str("4k3/8/8/3p4/4P3/8/8/4K3 w - - 0 1").unwrap();
    let engine = Engine::new(board);
    let tb = empty_tablebase();
    let start = SystemTime::now();
    let (chosen, counter) = engine.best_move(9, 1, 3, 2_000_000, &start, &tb).unwrap();
    let legal: Vec<chess::ChessMove> = chess::MoveGen::new_legal(&board).collect();
    assert!(legal.contains(&chosen));
    let is_pawn = board.piece_on(chosen.get_source()) == Some(chess::Piece::Pawn);
    let is_capture = board.piece_on(chosen.get_dest()).is_some();
    if is_pawn || is_capture {
        assert_eq!(counter, 0);
    } else {
        assert_eq!(counter, 10);
    }
}
