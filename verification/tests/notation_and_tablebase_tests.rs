use std::str::FromStr;
use std::time::SystemTime;

use schach::engine::Engine;
use schach::oracle::MoveCoords;
use schach::san::{render_move, render_san, CheckFlag};
use schach::score::{Color, PieceKind, TABLEBASE_REWARD};
use schach::syzygy::{best_move_table, count_pieces, empty_tablebase, probe_applicable, table_outcome, Wdl};
use schach::oracle::Rights;

#[test]
fn castling_renders_by_coordinates() {
    assert_eq!(render_san(PieceKind::King, 4, 6, None, false, CheckFlag::NoCheck), "O-O");
    assert_eq!(render_san(PieceKind::King, 60, 62, None, false, CheckFlag::NoCheck), "O-O");
    assert_eq!(render_san(PieceKind::King, 4, 2, None, false, CheckFlag::NoCheck), "O-O-O");
    assert_eq!(render_san(PieceKind::King, 60, 58, None, false, CheckFlag::NoCheck), "O-O-O");
}

#[test]
fn normal_moves_render_in_long_algebraic_form() {
    // e2 is square 12, e4 is square 28.
    assert_eq!(render_san(PieceKind::Pawn, 12, 28, None, false, CheckFlag::NoCheck), "e2e4");
    // g1 is square 6, f3 is square 21.
    assert_eq!(render_san(PieceKind::Knight, 6, 21, None, false, CheckFlag::NoCheck), "Ng1f3");
    assert_eq!(render_san(PieceKind::Queen, 3, 27, None, true, CheckFlag::Check), "Qd1xd4+");
}

#[test]
fn promotion_renders_only_for_pawns_on_back_ranks() {
    // e7 is square 52, f8 is square 61.
    assert_eq!(
        render_san(PieceKind::Pawn, 52, 61, Some(PieceKind::Queen), true, CheckFlag::Mate),
        "e7xf8=Q#"
    );
    // The same coordinates with a rook never render a promotion.
    assert_eq!(
        render_san(PieceKind::Rook, 52, 61, Some(PieceKind::Queen), false, CheckFlag::NoCheck),
        "Re7f8"
    );
    // A pawn move that stays off the back ranks never renders a promotion.
    assert_eq!(
        render_san(PieceKind::Pawn, 12, 28, Some(PieceKind::Queen), false, CheckFlag::NoCheck),
        "e2e4"
    );
}

#[test]
fn render_move_reads_the_board() {
    let board = chess::Board::default();
    let m = chess::ChessMove::new(
        chess::Square::from_str("e2").unwrap(),
        chess::Square::from_str("e4").unwrap(),
        None,
    );
    assert_eq!(render_move(&board, &m), "e2e4");
    let m = chess::ChessMove::new(
        chess::Square::from_str("g1").unwrap(),
        chess::Square::from_str("f3").unwrap(),
        None,
    );
    assert_eq!(render_move(&board, &m), "Ng1f3");
}

#[test]
fn probe_guard_requires_three_to_five_men_and_no_rights() {
    assert!(probe_applicable(Rights::NoRights, Rights::NoRights, 3));
    assert!(probe_applicable(Rights::NoRights, Rights::NoRights, 4));
    assert!(probe_applicable(Rights::NoRights, Rights::NoRights, 5));
    assert!(!probe_applicable(Rights::NoRights, Rights::NoRights, 2));
    assert!(!probe_applicable(Rights::NoRights, Rights::NoRights, 6));
    assert!(!probe_applicable(Rights::Both, Rights::NoRights, 4));
    assert!(!probe_applicable(Rights::NoRights, Rights::KingSide, 4));
}

#[test]
fn probe_not_attempted_outside_guard() {
    // The initial position has 32 men and full castling rights: no probe,
    // whatever tables are loaded.
    let tb = empty_tablebase();
    assert!(best_move_table(&chess::Board::default(), 0, &tb).is_none());
}

#[test]
fn probe_falls_back_when_oracle_has_no_tables() {
    // King-and-pawn against king: the guard passes, but with no table
    // files loaded the oracle errs and the engine falls back to search.
    let board = chess::Board::from_str("4k3/8/8/8/4P3/8/8/4K3 w - - 0 1").unwrap();
    let tb = empty_tablebase();
    assert!(best_move_table(&board, 0, &tb).is_none());
    // The full search still finds a move.
    let engine = Engine::new(board);
    let start = SystemTime::now();
    assert!(engine.best_move(0, 2, 4, 0, &start, &tb).is_some());
}

#[test]
fn tablebase_win_earns_full_reward_toward_side_to_move() {
    let mc = MoveCoords { from: 28, to: 36, promotion: None };
    let got = table_outcome(Color::White, Some(Wdl::Win), Some(mc));
    assert_eq!(got, Some((mc, TABLEBASE_REWARD)));
    let got = table_outcome(Color::Black, Some(Wdl::Win), Some(mc));
    assert_eq!(got, Some((mc, -TABLEBASE_REWARD)));
    let got = table_outcome(Color::White, Some(Wdl::Loss), Some(mc));
    assert_eq!(got, Some((mc, -TABLEBASE_REWARD)));
}

#[test]
fn non_progress_outcomes_count_as_draws() {
    let mc = MoveCoords { from: 28, to: 36, promotion: None };
    assert_eq!(table_outcome(Color::White, Some(Wdl::Draw), Some(mc)), Some((mc, 0)));
    assert_eq!(table_outcome(Color::White, Some(Wdl::CursedWin), Some(mc)), Some((mc, 0)));
    assert_eq!(table_outcome(Color::Black, Some(Wdl::BlessedLoss), Some(mc)), Some((mc, 0)));
}

#[test]
fn failed_probe_yields_no_tablebase_answer() {
    // A failed win/draw/loss probe is non-fatal but gives no answer, even
    // when a recommended move was found: the engine falls back to search.
    let mc = MoveCoords { from: 28, to: 36, promotion: None };
    assert_eq!(table_outcome(Color::White, None, Some(mc)), None);
    assert_eq!(table_outcome(Color::Black, None, Some(mc)), None);
}

#[test]
fn no_recommended_move_means_no_tablebase_answer() {
    assert_eq!(table_outcome(Color::White, Some(Wdl::Win), None), None);
    assert_eq!(table_outcome(Color::Black, None, None), None);
}

#[test]
fn tablebase_answer_returns_exactly_that_move_without_searching() {
    // A stub oracle answer: the engine must return exactly this move with
    // the counter advanced by one, never entering the search.
    let board = chess::Board::from_str("4k3/8/8/8/4P3/8/8/4K3 w - - 0 1").unwrap();
    let engine = Engine::new(board);
    let tb = empty_tablebase();
    let start = SystemTime::now();
    let canned = MoveCoords { from: 28, to: 36, promotion: None };
    let (chosen, counter) = engine
        .best_move_given_probe(7, 2, 4, 0, &start, &tb, Some((canned, TABLEBASE_REWARD)))
        .unwrap();
    assert_eq!(counter, 8);
    assert_eq!(chosen.get_source().to_index(), 28);
    assert_eq!(chosen.get_dest().to_index(), 36);
    assert_eq!(chosen.get_promotion(), None);
}

#[test]
fn render_move_annotates_check_from_the_successor_position() {
    // Ra1-a8 gives check along the eighth rank.
    let board = chess::Board::from_str("4k3/8/8/8/8/8/8/R3K3 w - - 0 1").unwrap();
    let m = chess::ChessMove::new(
        chess::Square::from_str("a1").unwrap(),
        chess::Square::from_str("a8").unwrap(),
        None,
    );
    assert_eq!(render_move(&board, &m), "Ra1a8+");
}

#[test]
fn render_move_annotates_mate_from_the_successor_position() {
    // The queen delivers the fool's mate.
    let board =
        chess::Board::from_str("rnbqkbnr/pppp1ppp/8/4p3/6P1/5P2/PPPPP2P/RNBQKBNR b KQkq g3 0 2")
            .unwrap();
    let m = chess::ChessMove::new(
        chess::Square::from_str("d8").unwrap(),
        chess::Square::from_str("h4").unwrap(),
        None,
    );
    assert_eq!(render_move(&board, &m), "Qd8h4#");
}

#[test]
fn board_snapshot_reads_every_occupied_square() {
    let squares = schach::oracle::board_squares(&chess::Board::default());
    assert_eq!(squares.len(), 64);
    assert_eq!(schach::syzygy::count_pieces(&squares), 32);
    assert_eq!(squares[4], Some((PieceKind::King, Color::White)));
    assert_eq!(squares[12], Some((PieceKind::Pawn, Color::White)));
    assert_eq!(squares[60], Some((PieceKind::King, Color::Black)));
    assert_eq!(squares[30], None);
}
