//! Notation rendering: castling is recognized by its square coordinates
//! and rendered directly; every other move is handed to `san-rs` to
//! compile into standard algebraic notation.
//!
//! A move from e1 to g1 or from e8 to g8 renders as a short castle, from
//! e1 to c1 or from e8 to c8 as a long castle, by coordinates alone,
//! whatever piece moves. A rendered move carries a mate annotation when
//! its successor position is checkmate and a check annotation when the
//! successor's side to move stands in check.

use vstd::prelude::*;
use vstd::string::StringExecFns;
use crate::oracle;
use crate::oracle::{
    spec_apply, spec_checkers, spec_legal, spec_move_from, spec_move_promotion, spec_move_to,
    spec_piece_at, spec_status,
};
use crate::score::{PieceKind, Status};

verus! {

#[verifier::external_type_specification]
#[verifier::external_body]
pub struct ExSanPiece(san_rs::Piece);

#[verifier::external_type_specification]
#[verifier::external_body]
pub struct ExSanCheckType(san_rs::CheckType);

/// Check annotation handed to the renderer.
#[derive(Clone, Copy, PartialEq, Eq, Structural, Debug)]
pub enum CheckFlag {
    NoCheck,
    Check,
    Mate,
}

/// A king's short castle, by source and destination square index:
/// e1 to g1 or e8 to g8.
pub open spec fn spec_castle_short(from: u8, to: u8) -> bool {
    (from == 4 && to == 6) || (from == 60 && to == 62)
}

/// A king's long castle, by source and destination square index:
/// e1 to c1 or e8 to c8.
pub open spec fn spec_castle_long(from: u8, to: u8) -> bool {
    (from == 4 && to == 2) || (from == 60 && to == 58)
}

/// The renderer's x coordinate of a square: its file index.
pub open spec fn spec_render_x(square: u8) -> u8 {
    (square % 8) as u8
}

/// The renderer's y coordinate of a square: ranks counted downward from
/// the eighth.
pub open spec fn spec_render_y(square: u8) -> u8
    recommends
        square < 64,
{
    (7 - square / 8) as u8
}

/// The promotion the renderer is shown: only a pawn reaching the first or
/// eighth rank carries one.
pub open spec fn spec_gated_promotion(
    piece: PieceKind,
    to: u8,
    promotion: Option<PieceKind>,
) -> Option<PieceKind> {
    if (to / 8 == 0 || to / 8 == 7) && piece == PieceKind::Pawn {
        promotion
    } else {
        None
    }
}

/// What san_rs::Move::compile renders for a normal move with the given
/// piece, coordinates, promotion, capture flag and check annotation. The
/// rendering depends on these arguments alone.
pub uninterp spec fn san_of(
    piece: PieceKind,
    sx: u8,
    sy: u8,
    tx: u8,
    ty: u8,
    promotion: Option<PieceKind>,
    is_capture: bool,
    check: CheckFlag,
) -> Seq<char>;

/// Relies on san_rs::Piece: the renderer's piece for the engine's.
#[verifier::external_body]
fn san_piece(p: PieceKind) -> san_rs::Piece {
    match p {
        PieceKind::Pawn => san_rs::Piece::Pawn,
        PieceKind::Knight => san_rs::Piece::Knight,
        PieceKind::Bishop => san_rs::Piece::Bishop,
        PieceKind::Rook => san_rs::Piece::Rook,
        PieceKind::Queen => san_rs::Piece::Queen,
        PieceKind::King => san_rs::Piece::King,
    }
}

/// Relies on san_rs::CheckType: the renderer's annotation for the flag.
#[verifier::external_body]
fn san_check(c: CheckFlag) -> Option<san_rs::CheckType> {
    match c {
        CheckFlag::NoCheck => None,
        CheckFlag::Check => Some(san_rs::CheckType::Check),
        CheckFlag::Mate => Some(san_rs::CheckType::Mate),
    }
}

/// Relies on san_rs::Move::compile: the standard-algebraic rendering of
/// the described move, a function of its arguments alone. The renderer
/// formats each coordinate as one character, so only board coordinates
/// (below 8) are admitted.
#[verifier::external_body]
fn compile_san(
    piece: PieceKind,
    sx: u8,
    sy: u8,
    tx: u8,
    ty: u8,
    promotion: Option<PieceKind>,
    is_capture: bool,
    check: CheckFlag,
) -> (r: String)
    requires
        sx < 8,
        sy < 8,
        tx < 8,
        ty < 8,
    ensures
        r@ == san_of(piece, sx, sy, tx, ty, promotion, is_capture, check),
{
    let source = san_rs::Position::new(Some(sx as usize), Some(sy as usize));
    let target = san_rs::Position::new(Some(tx as usize), Some(ty as usize));
    let mut m = san_rs::Move::new(san_piece(piece), san_rs::MoveKind::Normal(source, target));
    m.promotion = match promotion {
        Some(p) => Some(san_piece(p)),
        None => None,
    };
    m.is_capture = is_capture;
    m.check_type = san_check(check);
    m.compile()
}

/// Notation for a move given as plain values. Castling is rendered by
/// coordinates alone; otherwise the renderer is given the move with a
/// promotion only when a pawn reaches the first or eighth rank.
pub fn render_san(
    piece: PieceKind,
    from: u8,
    to: u8,
    promotion: Option<PieceKind>,
    is_capture: bool,
    check: CheckFlag,
) -> (r: String)
    requires
        from < 64,
        to < 64,
    ensures
        spec_castle_short(from, to) ==> r@ == "O-O"@,
        spec_castle_long(from, to) ==> r@ == "O-O-O"@,
        !spec_castle_short(from, to) && !spec_castle_long(from, to) ==> r@ == san_of(
            piece,
            spec_render_x(from),
            spec_render_y(from),
            spec_render_x(to),
            spec_render_y(to),
            spec_gated_promotion(piece, to, promotion),
            is_capture,
            check,
        ),
{
    if (from == 4 && to == 6) || (from == 60 && to == 62) {
        return String::from_str("O-O");
    }
    if (from == 4 && to == 2) || (from == 60 && to == 58) {
        return String::from_str("O-O-O");
    }
    let to_rank = to / 8;
    let promo = if (to_rank == 0 || to_rank == 7) && matches!(piece, PieceKind::Pawn) {
        promotion
    } else {
        None
    };
    let sx = from % 8;
    let sy = 7 - from / 8;
    let tx = to % 8;
    let ty = 7 - to / 8;
    compile_san(piece, sx, sy, tx, ty, promo, is_capture, check)
}

/// The annotation of a rendered move: for a legal move, mate when the
/// successor position is checkmate, else check when the successor's side
/// to move stands in check; an illegal move carries no annotation.
pub open spec fn spec_move_flags(b: chess::Board, m: chess::ChessMove) -> CheckFlag {
    if spec_legal(b).contains(m) {
        if spec_status(spec_apply(b, m)) == Status::Checkmate {
            CheckFlag::Mate
        } else if spec_checkers(spec_apply(b, m)) != 0 {
            CheckFlag::Check
        } else {
            CheckFlag::NoCheck
        }
    } else {
        CheckFlag::NoCheck
    }
}

/// Notation for a move on the given position: castling by coordinates
/// first; otherwise the moved piece and the capture flag are read off the
/// board, the check or mate annotation off the move's successor position,
/// and an empty source square renders as an empty string.
pub fn render_move(brett: &chess::Board, m: &chess::ChessMove) -> (r: String)
    ensures
        spec_castle_short(spec_move_from(*m), spec_move_to(*m)) ==> r@ == "O-O"@,
        spec_castle_long(spec_move_from(*m), spec_move_to(*m)) ==> r@ == "O-O-O"@,
        ({
            let from = spec_move_from(*m);
            let to = spec_move_to(*m);
            !spec_castle_short(from, to) && !spec_castle_long(from, to)
                ==> match spec_piece_at(*brett, from as int) {
                Some(piece) => r@ == san_of(
                    piece,
                    spec_render_x(from),
                    spec_render_y(from),
                    spec_render_x(to),
                    spec_render_y(to),
                    spec_gated_promotion(piece, to, spec_move_promotion(*m)),
                    spec_piece_at(*brett, to as int) is Some,
                    spec_move_flags(*brett, *m),
                ),
                None => r@ == Seq::<char>::empty(),
            }
        }),
{
    let from = oracle::move_source(m);
    let to = oracle::move_dest(m);
    if (from == 4 && to == 6) || (from == 60 && to == 62) {
        return String::from_str("O-O");
    }
    if (from == 4 && to == 2) || (from == 60 && to == 58) {
        return String::from_str("O-O-O");
    }
    let piece = match oracle::piece_on(brett, from) {
        Some(p) => p,
        None => {
            return String::new();
        },
    };
    let is_capture = oracle::piece_on(brett, to).is_some();
    let check = match oracle::apply_if_legal(brett, *m) {
        Some(child) => {
            if matches!(oracle::board_status(&child), Status::Checkmate) {
                CheckFlag::Mate
            } else if oracle::checkers_bits(&child) != 0 {
                CheckFlag::Check
            } else {
                CheckFlag::NoCheck
            }
        },
        None => CheckFlag::NoCheck,
    };
    render_san(piece, from, to, oracle::move_promotion(m), is_capture, check)
}

} // verus!
