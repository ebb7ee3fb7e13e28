use schach::score::{
    material, next_fifty, piece_value, static_eval, Color, PieceKind, Status, FIFTY_MOVE_LIMIT,
    MATE_SCORE,
};
use schach::search::mate_node_score;

fn empty_board() -> Vec<Option<(PieceKind, Color)>> {
    vec![None; 64]
}

#[test]
fn piece_values_are_centipawns() {
    assert_eq!(piece_value(PieceKind::Pawn, Color::White), 100);
    assert_eq!(piece_value(PieceKind::Knight, Color::White), 305);
    assert_eq!(piece_value(PieceKind::Bishop, Color::White), 333);
    assert_eq!(piece_value(PieceKind::Rook, Color::White), 563);
    assert_eq!(piece_value(PieceKind::Queen, Color::White), 950);
    assert_eq!(piece_value(PieceKind::King, Color::White), 0);
    assert_eq!(piece_value(PieceKind::Queen, Color::Black), -950);
    assert_eq!(piece_value(PieceKind::King, Color::Black), 0);
}

#[test]
fn material_sums_signed_values() {
    let mut squares = empty_board();
    squares[0] = Some((PieceKind::Queen, Color::White));
    squares[7] = Some((PieceKind::Pawn, Color::Black));
    squares[63] = Some((PieceKind::King, Color::Black));
    assert_eq!(material(&squares), 950 - 100);
}

#[test]
fn material_antisymmetric_under_color_swap() {
    let mut squares = empty_board();
    squares[3] = Some((PieceKind::Rook, Color::White));
    squares[11] = Some((PieceKind::Knight, Color::White));
    squares[42] = Some((PieceKind::Bishop, Color::Black));
    let mirrored: Vec<Option<(PieceKind, Color)>> = squares
        .iter()
        .map(|s| {
            s.map(|(p, c)| {
                (
                    p,
                    match c {
                        Color::White => Color::Black,
                        Color::Black => Color::White,
                    },
                )
            })
        })
        .collect();
    assert_eq!(material(&squares), 563 + 305 - 333);
    assert_eq!(material(&mirrored), -material(&squares));
}

#[test]
fn fifty_counter_resets_on_pawn_move_or_capture() {
    assert_eq!(next_fifty(5, true, false), 0);
    assert_eq!(next_fifty(5, false, true), 0);
    assert_eq!(next_fifty(5, true, true), 0);
    assert_eq!(next_fifty(5, false, false), 6);
    assert_eq!(next_fifty(0, false, false), 1);
}

#[test]
fn expired_fifty_counter_forces_draw_score() {
    let mut squares = empty_board();
    squares[0] = Some((PieceKind::Queen, Color::White));
    assert_eq!(
        static_eval(FIFTY_MOVE_LIMIT, Status::Ongoing, Color::White, &squares),
        0
    );
    assert_eq!(
        static_eval(200, Status::Checkmate, Color::White, &squares),
        0
    );
    assert_eq!(
        static_eval(FIFTY_MOVE_LIMIT - 1, Status::Ongoing, Color::White, &squares),
        950
    );
}

#[test]
fn stalemate_scores_zero() {
    let mut squares = empty_board();
    squares[9] = Some((PieceKind::Rook, Color::Black));
    assert_eq!(static_eval(0, Status::Stalemate, Color::White, &squares), 0);
    assert_eq!(static_eval(0, Status::Stalemate, Color::Black, &squares), 0);
}

#[test]
fn checkmate_scores_against_side_to_move() {
    let squares = empty_board();
    assert_eq!(
        static_eval(0, Status::Checkmate, Color::White, &squares),
        -MATE_SCORE
    );
    assert_eq!(
        static_eval(0, Status::Checkmate, Color::Black, &squares),
        MATE_SCORE
    );
}

#[test]
fn mate_node_score_adds_distance_bonus() {
    assert_eq!(mate_node_score(Color::White, true, 2), -100000 - 200000);
    assert_eq!(mate_node_score(Color::Black, false, 2), 100000 + 200000);
    assert_eq!(mate_node_score(Color::White, true, 4), -100000 - 100000);
    assert_eq!(mate_node_score(Color::Black, false, 8), 100000 + 50000);
}

#[test]
fn mate_node_score_never_zero_when_flag_tracks_side() {
    for ply in 1..60u64 {
        let w = mate_node_score(Color::White, true, ply);
        let b = mate_node_score(Color::Black, false, ply);
        assert!(w <= -100000);
        assert!(b >= 100000);
    }
}
