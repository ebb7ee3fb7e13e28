//! The position oracle: legal move generation, make-move, terminal-state
//! classification, check detection, position hashing, and board reads,
//! consumed from the `chess` crate behind trusted wrappers.
//!
//! Each oracle read is a pure function of the position alone — the crate's
//! move generator, board reads and zobrist hash (whose tables are built
//! from a fixed seed) are deterministic — so every read carries a name
//! (`spec_status`, `spec_legal`, ...) that the wrappers' contracts apply
//! and the callers' contracts speak of.
//!
//! Squares are indexed 0..64, file-major within a rank: square 0 is a1,
//! square 7 is h1, square 63 is h8 — the `chess` crate's own indexing.

use vstd::prelude::*;
use crate::score::{Color, PieceKind, Status};

verus! {

#[verifier::external_type_specification]
#[verifier::external_body]
pub struct ExBoard(chess::Board);

#[verifier::external_type_specification]
#[verifier::external_body]
pub struct ExChessMove(chess::ChessMove);

/// Castling rights of one side, as the `chess` crate classifies them.
#[derive(Clone, Copy, PartialEq, Eq, Structural, Debug)]
pub enum Rights {
    NoRights,
    KingSide,
    QueenSide,
    Both,
}

/// A move as plain coordinates: source and destination square index and an
/// optional promotion piece.
#[derive(Clone, Copy, PartialEq, Eq, Structural, Debug)]
pub struct MoveCoords {
    pub from: u8,
    pub to: u8,
    pub promotion: Option<PieceKind>,
}

impl MoveCoords {
    /// Both squares lie on the board.
    pub open spec fn wf(self) -> bool {
        self.from < 64 && self.to < 64
    }
}

/// What chess::Board::status classifies the position as.
pub uninterp spec fn spec_status(b: chess::Board) -> Status;

/// What chess::Board::side_to_move returns.
pub uninterp spec fn spec_stm(b: chess::Board) -> Color;

/// What chess::Board::get_hash returns.
pub uninterp spec fn spec_hash(b: chess::Board) -> u64;

/// What chess::Board::piece_on returns for the given square index.
pub uninterp spec fn spec_piece_at(b: chess::Board, square: int) -> Option<PieceKind>;

/// What chess::Board::color_on returns for the given square index.
pub uninterp spec fn spec_color_at(b: chess::Board, square: int) -> Option<Color>;

/// What chess::MoveGen::new_legal enumerates, in the generator's order.
pub uninterp spec fn spec_legal(b: chess::Board) -> Seq<chess::ChessMove>;

/// What chess::Board::make_move_new returns for a legal move.
pub uninterp spec fn spec_apply(b: chess::Board, m: chess::ChessMove) -> chess::Board;

/// What chess::Board::checkers returns: nonzero exactly when the side to
/// move is in check.
pub uninterp spec fn spec_checkers(b: chess::Board) -> u64;

/// What chess::Board::castle_rights returns for the given side.
pub uninterp spec fn spec_rights(b: chess::Board, c: Color) -> Rights;

/// What chess::Board::color_combined returns for the given side.
pub uninterp spec fn spec_color_bits(b: chess::Board, c: Color) -> u64;

/// What chess::Board::pieces returns for the given piece type.
pub uninterp spec fn spec_piece_bits(b: chess::Board, p: PieceKind) -> u64;

/// What chess::Board::en_passant returns, as a square index.
pub uninterp spec fn spec_ep(b: chess::Board) -> Option<u8>;

/// What chess::ChessMove::get_source returns, as a square index.
pub uninterp spec fn spec_move_from(m: chess::ChessMove) -> u8;

/// What chess::ChessMove::get_dest returns, as a square index.
pub uninterp spec fn spec_move_to(m: chess::ChessMove) -> u8;

/// What chess::ChessMove::get_promotion returns.
pub uninterp spec fn spec_move_promotion(m: chess::ChessMove) -> Option<PieceKind>;

/// What one square of the position holds: a piece and its color exactly
/// when both board reads answer.
pub open spec fn spec_square_at(b: chess::Board, square: int) -> Option<(PieceKind, Color)> {
    match (spec_piece_at(b, square), spec_color_at(b, square)) {
        (Some(p), Some(c)) => Some((p, c)),
        _ => None,
    }
}

/// The whole position read square by square.
pub open spec fn spec_squares(b: chess::Board) -> Seq<Option<(PieceKind, Color)>> {
    Seq::new(64, |i: int| spec_square_at(b, i))
}

/// Relies on chess::Board::status: classifies the position as ongoing,
/// stalemate, or checkmate.
#[verifier::external_body]
pub(crate) fn board_status(b: &chess::Board) -> (r: Status)
    ensures
        r == spec_status(*b),
{
    match b.status() {
        chess::BoardStatus::Ongoing => Status::Ongoing,
        chess::BoardStatus::Stalemate => Status::Stalemate,
        chess::BoardStatus::Checkmate => Status::Checkmate,
    }
}

/// Relies on chess::Board::get_hash: the position's 64-bit structural
/// hash, from zobrist tables generated with a fixed seed.
#[verifier::external_body]
pub(crate) fn board_hash(b: &chess::Board) -> (r: u64)
    ensures
        r == spec_hash(*b),
{
    b.get_hash()
}

/// Relies on chess::Board::side_to_move.
#[verifier::external_body]
pub(crate) fn side_to_move(b: &chess::Board) -> (r: Color)
    ensures
        r == spec_stm(*b),
{
    match b.side_to_move() {
        chess::Color::White => Color::White,
        chess::Color::Black => Color::Black,
    }
}

/// Relies on chess::Board::piece_on: the piece type on the given square,
/// if any.
#[verifier::external_body]
pub(crate) fn piece_on(b: &chess::Board, square: u8) -> (r: Option<PieceKind>)
    requires
        square < 64,
    ensures
        r == spec_piece_at(*b, square as int),
{
    match b.piece_on(chess::ALL_SQUARES[square as usize]) {
        Some(chess::Piece::Pawn) => Some(PieceKind::Pawn),
        Some(chess::Piece::Knight) => Some(PieceKind::Knight),
        Some(chess::Piece::Bishop) => Some(PieceKind::Bishop),
        Some(chess::Piece::Rook) => Some(PieceKind::Rook),
        Some(chess::Piece::Queen) => Some(PieceKind::Queen),
        Some(chess::Piece::King) => Some(PieceKind::King),
        None => None,
    }
}

/// Relies on chess::Board::color_on: the color of the piece on the given
/// square, if any.
#[verifier::external_body]
pub(crate) fn color_on(b: &chess::Board, square: u8) -> (r: Option<Color>)
    requires
        square < 64,
    ensures
        r == spec_color_at(*b, square as int),
{
    match b.color_on(chess::ALL_SQUARES[square as usize]) {
        Some(chess::Color::White) => Some(Color::White),
        Some(chess::Color::Black) => Some(Color::Black),
        None => None,
    }
}

/// Relies on chess::MoveGen::new_legal: every legal move of the position,
/// in the generator's order.
#[verifier::external_body]
pub(crate) fn legal_moves(b: &chess::Board) -> (r: Vec<chess::ChessMove>)
    ensures
        r@ == spec_legal(*b),
{
    chess::MoveGen::new_legal(b).collect()
}

/// Relies on chess::Board::make_move_new: the successor position after a
/// legal move. The crate's source panics on an illegal move — an empty
/// source square is unwrapped and a captured king is refused — so only
/// moves from the position's own legal list are admitted.
#[verifier::external_body]
pub(crate) fn apply_move(b: &chess::Board, m: chess::ChessMove) -> (r: chess::Board)
    requires
        spec_legal(*b).contains(m),
    ensures
        r == spec_apply(*b, m),
{
    b.make_move_new(m)
}

/// Relies on chess::Board::legal — defined in the crate's source as a find
/// over MoveGen::new_legal's enumeration — and make_move_new: the
/// successor position when the move is legal, None otherwise.
#[verifier::external_body]
pub(crate) fn apply_if_legal(b: &chess::Board, m: chess::ChessMove) -> (r: Option<chess::Board>)
    ensures
        r is Some <==> spec_legal(*b).contains(m),
        r is Some ==> r->0 == spec_apply(*b, m),
{
    if b.legal(m) {
        Some(b.make_move_new(m))
    } else {
        None
    }
}

/// Relies on chess::Board::checkers: the bitboard of pieces giving check
/// to the side to move.
#[verifier::external_body]
pub(crate) fn checkers_bits(b: &chess::Board) -> (r: u64)
    ensures
        r == spec_checkers(*b),
{
    b.checkers().0
}

/// Relies on chess::Board::castle_rights.
#[verifier::external_body]
pub(crate) fn castle_rights_of(b: &chess::Board, c: Color) -> (r: Rights)
    ensures
        r == spec_rights(*b, c),
{
    let cc = match c {
        Color::White => chess::Color::White,
        Color::Black => chess::Color::Black,
    };
    match b.castle_rights(cc) {
        chess::CastleRights::NoRights => Rights::NoRights,
        chess::CastleRights::KingSide => Rights::KingSide,
        chess::CastleRights::QueenSide => Rights::QueenSide,
        chess::CastleRights::Both => Rights::Both,
    }
}

/// Relies on chess::Board::color_combined: the bitboard of all squares
/// occupied by the given color.
#[verifier::external_body]
pub(crate) fn color_bits(b: &chess::Board, c: Color) -> (r: u64)
    ensures
        r == spec_color_bits(*b, c),
{
    match c {
        Color::White => b.color_combined(chess::Color::White).0,
        Color::Black => b.color_combined(chess::Color::Black).0,
    }
}

/// Relies on chess::Board::pieces: the bitboard of all squares holding the
/// given piece type, either color.
#[verifier::external_body]
pub(crate) fn piece_bits(b: &chess::Board, p: PieceKind) -> (r: u64)
    ensures
        r == spec_piece_bits(*b, p),
{
    let pp = match p {
        PieceKind::Pawn => chess::Piece::Pawn,
        PieceKind::Knight => chess::Piece::Knight,
        PieceKind::Bishop => chess::Piece::Bishop,
        PieceKind::Rook => chess::Piece::Rook,
        PieceKind::Queen => chess::Piece::Queen,
        PieceKind::King => chess::Piece::King,
    };
    b.pieces(pp).0
}

/// Relies on chess::Board::en_passant and Square::to_index, documented to
/// lie in 0..64.
#[verifier::external_body]
pub(crate) fn en_passant_square(b: &chess::Board) -> (r: Option<u8>)
    ensures
        r == spec_ep(*b),
        r is Some ==> r->0 < 64,
{
    match (*b).en_passant() {
        Some(sq) => Some(sq.to_index() as u8),
        None => None,
    }
}

/// Relies on chess::ChessMove::get_source and Square::to_index, documented
/// to lie in 0..64.
#[verifier::external_body]
pub(crate) fn move_source(m: &chess::ChessMove) -> (r: u8)
    ensures
        r == spec_move_from(*m),
        r < 64,
{
    m.get_source().to_index() as u8
}

/// Relies on chess::ChessMove::get_dest and Square::to_index, documented
/// to lie in 0..64.
#[verifier::external_body]
pub(crate) fn move_dest(m: &chess::ChessMove) -> (r: u8)
    ensures
        r == spec_move_to(*m),
        r < 64,
{
    m.get_dest().to_index() as u8
}

/// Relies on chess::ChessMove::get_promotion.
#[verifier::external_body]
pub(crate) fn move_promotion(m: &chess::ChessMove) -> (r: Option<PieceKind>)
    ensures
        r == spec_move_promotion(*m),
{
    match m.get_promotion() {
        Some(chess::Piece::Pawn) => Some(PieceKind::Pawn),
        Some(chess::Piece::Knight) => Some(PieceKind::Knight),
        Some(chess::Piece::Bishop) => Some(PieceKind::Bishop),
        Some(chess::Piece::Rook) => Some(PieceKind::Rook),
        Some(chess::Piece::Queen) => Some(PieceKind::Queen),
        Some(chess::Piece::King) => Some(PieceKind::King),
        None => None,
    }
}

/// Relies on chess::ChessMove::new over squares taken from ALL_SQUARES: a
/// move stores exactly its source, destination and promotion, so the
/// accessors return the given coordinates.
#[verifier::external_body]
pub(crate) fn make_move_value(from: u8, to: u8, promotion: Option<PieceKind>) -> (r:
    chess::ChessMove)
    requires
        from < 64,
        to < 64,
    ensures
        spec_move_from(r) == from,
        spec_move_to(r) == to,
        spec_move_promotion(r) == promotion,
{
    let p = match promotion {
        Some(PieceKind::Pawn) => Some(chess::Piece::Pawn),
        Some(PieceKind::Knight) => Some(chess::Piece::Knight),
        Some(PieceKind::Bishop) => Some(chess::Piece::Bishop),
        Some(PieceKind::Rook) => Some(chess::Piece::Rook),
        Some(PieceKind::Queen) => Some(chess::Piece::Queen),
        Some(PieceKind::King) => Some(chess::Piece::King),
        None => None,
    };
    chess::ChessMove::new(
        chess::ALL_SQUARES[from as usize],
        chess::ALL_SQUARES[to as usize],
        p,
    )
}

/// The full board read square by square: entry `i` holds exactly what the
/// named board reads give for square `i`.
pub fn board_squares(b: &chess::Board) -> (r: Vec<Option<(PieceKind, Color)>>)
    ensures
        r@.len() == 64,
        r@ == spec_squares(*b),
{
    let mut out: Vec<Option<(PieceKind, Color)>> = Vec::new();
    let mut i: u8 = 0;
    while i < 64
        invariant
            i <= 64,
            out@.len() == i,
            forall|j: int| 0 <= j < i ==> out@[j] == spec_square_at(*b, j),
        decreases 64 - i,
    {
        let entry = match (piece_on(b, i), color_on(b, i)) {
            (Some(p), Some(c)) => Some((p, c)),
            _ => None,
        };
        out.push(entry);
        i = i + 1;
    }
    proof {
        assert(out@ =~= spec_squares(*b));
    }
    out
}

} // verus!
