//! Endgame tablebase lookup, consumed from `shakmaty-syzygy`.
//!
//! The probe is attempted exactly when both sides have lost all castling
//! rights and the total piece count lies in 3..=5. The position is handed
//! to the oracle as bitboards (both crates index squares identically:
//! square 0 is a1, square 63 is h8), and the oracle's reply is mapped back
//! to plain coordinates and a score: a win earns the full tablebase reward
//! toward the side to move, a loss the negation, and a draw, a cursed win
//! or a blessed loss counts as a draw. A failed probe is non-fatal: it
//! yields no tablebase answer and the engine runs the full search.

use vstd::prelude::*;
use crate::oracle;
use crate::oracle::{spec_rights, spec_squares, MoveCoords, Rights};
use crate::score::{Color, PieceKind, TABLEBASE_REWARD};

verus! {

#[verifier::external_type_specification]
#[verifier::external_body]
pub struct ExChess(shakmaty::Chess);

#[verifier::external_type_specification]
#[verifier::external_body]
pub struct ExSkBoard(shakmaty::Board);

#[verifier::external_type_specification]
#[verifier::external_body]
pub struct ExSkMove(shakmaty::Move);

#[verifier::external_type_specification]
#[verifier::external_body]
pub struct ExSkRole(shakmaty::Role);

/// Handle on the oracle's collection of tables. The tablebase type itself
/// carries trait bounds Verus cannot restate, so the handle hides it whole;
/// the field stays reachable for the caller that loads table files.
#[verifier::external_body]
pub struct TbHandle {
    pub tables: shakmaty_syzygy::Tablebase<shakmaty::Chess>,
}

/// Relies on shakmaty_syzygy::Tablebase::new: a tablebase with no table
/// files loaded, whose every probe fails.
#[verifier::external_body]
pub fn empty_tablebase() -> TbHandle {
    TbHandle { tables: shakmaty_syzygy::Tablebase::new() }
}

/// The oracle's win/draw/loss classification, from the side to move's
/// point of view.
#[derive(Clone, Copy, PartialEq, Eq, Structural, Debug)]
pub enum Wdl {
    Loss,
    BlessedLoss,
    Draw,
    CursedWin,
    Win,
}

/// Number of occupied squares in a board snapshot.
pub open spec fn spec_count_pieces(s: Seq<Option<(PieceKind, Color)>>) -> int
    decreases s.len(),
{
    if s.len() == 0 {
        0
    } else {
        spec_count_pieces(s.drop_last()) + (if s.last() is Some {
            1int
        } else {
            0int
        })
    }
}

/// The count of `n` squares never exceeds `n`.
pub proof fn lemma_count_pieces_bound(s: Seq<Option<(PieceKind, Color)>>)
    ensures
        0 <= spec_count_pieces(s) <= s.len(),
    decreases s.len(),
{
    if s.len() > 0 {
        lemma_count_pieces_bound(s.drop_last());
    }
}

pub fn count_pieces(squares: &Vec<Option<(PieceKind, Color)>>) -> (r: usize)
    requires
        squares@.len() <= 64,
    ensures
        r == spec_count_pieces(squares@),
        r <= 64,
{
    let n = squares.len();
    let mut count: usize = 0;
    let mut i: usize = 0;
    while i < n
        invariant
            i <= n,
            n == squares@.len() <= 64,
            count == spec_count_pieces(squares@.subrange(0, i as int)),
            count <= i,
        decreases n - i,
    {
        proof {
            lemma_count_pieces_bound(squares@.subrange(0, i as int));
            assert(squares@.subrange(0, i + 1 as int).drop_last() =~= squares@.subrange(
                0,
                i as int,
            ));
            assert(squares@.subrange(0, i + 1 as int).last() == squares@[i as int]);
        }
        if squares[i].is_some() {
            count = count + 1;
        }
        i = i + 1;
    }
    proof {
        assert(squares@.subrange(0, n as int) =~= squares@);
    }
    count
}

/// The applicability guard: the probe is attempted if and only if neither
/// side retains any castling rights and the total piece count lies in
/// 3..=5.
pub open spec fn spec_probe_applicable(wr: Rights, br: Rights, total: int) -> bool {
    wr == Rights::NoRights && br == Rights::NoRights && 3 <= total <= 5
}

pub fn probe_applicable(wr: Rights, br: Rights, total: usize) -> (r: bool)
    ensures
        r == spec_probe_applicable(wr, br, total as int),
{
    let no_white = matches!(wr, Rights::NoRights);
    let no_black = matches!(br, Rights::NoRights);
    no_white && no_black && 3 <= total && total <= 5
}

/// Score of a tablebase outcome: the full reward toward the side to move
/// for a win, its negation for a loss, and 0 for a draw, a cursed win, or
/// a blessed loss.
pub open spec fn spec_table_score(stm: Color, wdl: Wdl) -> int {
    let reward: int = if stm == Color::White {
        TABLEBASE_REWARD as int
    } else {
        -TABLEBASE_REWARD as int
    };
    match wdl {
        Wdl::Win => reward,
        Wdl::Loss => -reward,
        _ => 0,
    }
}

/// Combines the oracle's two replies into the engine's answer. A failed
/// win/draw/loss probe or a missing recommended move means no tablebase
/// answer at all — the caller falls back to the full search; otherwise the
/// move is returned with the outcome's score.
pub fn table_outcome(stm: Color, wdl: Option<Wdl>, best: Option<MoveCoords>) -> (r: Option<
    (MoveCoords, i64),
>)
    requires
        best is Some ==> best->0.wf(),
    ensures
        best is None ==> r is None,
        wdl is None ==> r is None,
        wdl is Some && best is Some ==> r == Some((best->0, spec_table_score(stm, wdl->0) as i64)),
        r is Some ==> (r->0).0.wf() && -TABLEBASE_REWARD <= (r->0).1 <= TABLEBASE_REWARD,
{
    let w = match wdl {
        Some(w) => w,
        None => {
            return None;
        },
    };
    let mc = match best {
        Some(mc) => mc,
        None => {
            return None;
        },
    };
    let reward: i64 = if let Color::White = stm {
        TABLEBASE_REWARD
    } else {
        -TABLEBASE_REWARD
    };
    let score: i64 = match w {
        Wdl::Win => reward,
        Wdl::Loss => -reward,
        _ => 0,
    };
    Some((mc, score))
}

/// The consistency the oracle's board constructor asserts of its
/// bitboards: the six piece boards are pairwise disjoint, the two color
/// boards are disjoint, and both partitions cover the same squares.
pub open spec fn spec_bitboards_consistent(
    pawns: u64,
    knights: u64,
    bishops: u64,
    rooks: u64,
    queens: u64,
    kings: u64,
    white: u64,
    black: u64,
) -> bool {
    (pawns & knights) == 0 && ((pawns | knights) & bishops) == 0 && ((pawns | knights | bishops)
        & rooks) == 0 && ((pawns | knights | bishops | rooks) & queens) == 0 && ((pawns | knights
        | bishops | rooks | queens) & kings) == 0 && (black & white) == 0 && (pawns | knights
        | bishops | rooks | queens | kings) == (black | white)
}

fn bitboards_consistent(
    pawns: u64,
    knights: u64,
    bishops: u64,
    rooks: u64,
    queens: u64,
    kings: u64,
    white: u64,
    black: u64,
) -> (r: bool)
    ensures
        r == spec_bitboards_consistent(pawns, knights, bishops, rooks, queens, kings, white, black),
{
    (pawns & knights) == 0 && ((pawns | knights) & bishops) == 0 && ((pawns | knights | bishops)
        & rooks) == 0 && ((pawns | knights | bishops | rooks) & queens) == 0 && ((pawns | knights
        | bishops | rooks | queens) & kings) == 0 && (black & white) == 0 && (pawns | knights
        | bishops | rooks | queens | kings) == (black | white)
}

/// Relies on shakmaty::Board::from_bitboards: assembles the oracle's board
/// from one bitboard per piece type and per color. The constructor asserts
/// the bitboards' consistency, so only consistent ones are admitted.
#[verifier::external_body]
fn syzygy_board(
    pawns: u64,
    knights: u64,
    bishops: u64,
    rooks: u64,
    queens: u64,
    kings: u64,
    white: u64,
    black: u64,
) -> shakmaty::Board
    requires
        spec_bitboards_consistent(pawns, knights, bishops, rooks, queens, kings, white, black),
{
    shakmaty::Board::from_bitboards(
        shakmaty::ByRole {
            pawn: shakmaty::Bitboard::from(pawns),
            knight: shakmaty::Bitboard::from(knights),
            bishop: shakmaty::Bitboard::from(bishops),
            rook: shakmaty::Bitboard::from(rooks),
            queen: shakmaty::Bitboard::from(queens),
            king: shakmaty::Bitboard::from(kings),
        },
        shakmaty::ByColor {
            black: shakmaty::Bitboard::from(black),
            white: shakmaty::Bitboard::from(white),
        },
    )
}

/// Relies on shakmaty::Chess::from_setup in standard castling mode, over a
/// setup with no castling rights: the legal probing position, or None when
/// the setup is not a legal standard-chess position.
#[verifier::external_body]
fn probe_position(
    board: shakmaty::Board,
    white_turn: bool,
    ep: Option<u8>,
    halfmoves: u32,
) -> Option<shakmaty::Chess>
    requires
        ep is Some ==> ep->0 < 64,
{
    let setup = shakmaty::Setup {
        board,
        promoted: shakmaty::Bitboard::from(0u64),
        pockets: None,
        turn: if white_turn { shakmaty::Color::White } else { shakmaty::Color::Black },
        castling_rights: shakmaty::Bitboard::from(0u64),
        ep_square: match ep {
            Some(i) => Some(shakmaty::Square::new(i as u32)),
            None => None,
        },
        remaining_checks: None,
        halfmoves,
        fullmoves: std::num::NonZeroU32::new(1).unwrap(),
    };
    shakmaty::FromSetup::from_setup(setup, shakmaty::CastlingMode::Standard).ok()
}

/// Relies on shakmaty_syzygy::Tablebase::probe_wdl_after_zeroing: the
/// win/draw/loss class of the position from the side to move's view; None
/// when no table covers the position or the probe fails.
#[verifier::external_body]
fn probe_wdl(tables: &TbHandle, pos: &shakmaty::Chess) -> Option<Wdl> {
    match tables.tables.probe_wdl_after_zeroing(pos) {
        Ok(shakmaty_syzygy::Wdl::Loss) => Some(Wdl::Loss),
        Ok(shakmaty_syzygy::Wdl::BlessedLoss) => Some(Wdl::BlessedLoss),
        Ok(shakmaty_syzygy::Wdl::Draw) => Some(Wdl::Draw),
        Ok(shakmaty_syzygy::Wdl::CursedWin) => Some(Wdl::CursedWin),
        Ok(shakmaty_syzygy::Wdl::Win) => Some(Wdl::Win),
        Err(_) => None,
    }
}

/// Relies on shakmaty_syzygy::Tablebase::best_move: the oracle's
/// recommended move; None on an error or when the oracle has none.
#[verifier::external_body]
fn probe_best_raw(tables: &TbHandle, pos: &shakmaty::Chess) -> Option<shakmaty::Move> {
    match tables.tables.best_move(pos) {
        Ok(Some((m, _))) => Some(m),
        _ => None,
    }
}

/// Relies on shakmaty::Role: the engine's piece for the oracle's role.
#[verifier::external_body]
fn role_piece(r: Option<shakmaty::Role>) -> Option<PieceKind> {
    match r {
        Some(shakmaty::Role::Pawn) => Some(PieceKind::Pawn),
        Some(shakmaty::Role::Knight) => Some(PieceKind::Knight),
        Some(shakmaty::Role::Bishop) => Some(PieceKind::Bishop),
        Some(shakmaty::Role::Rook) => Some(PieceKind::Rook),
        Some(shakmaty::Role::Queen) => Some(PieceKind::Queen),
        Some(shakmaty::Role::King) => Some(PieceKind::King),
        None => None,
    }
}

/// Relies on shakmaty::Move's variant fields and its documented square
/// indexing (0..64): plain coordinates of a normal or en-passant move;
/// None for any other kind of move.
#[verifier::external_body]
fn decode_move(m: &shakmaty::Move) -> (r: Option<MoveCoords>)
    ensures
        r is Some ==> r->0.wf(),
{
    match *m {
        shakmaty::Move::Normal { from, to, promotion, .. } => Some(MoveCoords {
            from: u8::from(from),
            to: u8::from(to),
            promotion: role_piece(promotion),
        }),
        shakmaty::Move::EnPassant { from, to } => Some(MoveCoords {
            from: u8::from(from),
            to: u8::from(to),
            promotion: None,
        }),
        _ => None,
    }
}

/// Tablebase lookup: answers only for an applicable position — no
/// castling rights on either side, 3 to 5 pieces — and falls back to None
/// on any oracle error, leaving the caller to run the full search.
pub fn best_move_table(brett: &chess::Board, halfmoves: u32, tables: &TbHandle) -> (r: Option<
    (MoveCoords, i64),
>)
    ensures
        r is Some ==> (r->0).0.wf() && -TABLEBASE_REWARD <= (r->0).1 <= TABLEBASE_REWARD,
        !spec_probe_applicable(
            spec_rights(*brett, Color::White),
            spec_rights(*brett, Color::Black),
            spec_count_pieces(spec_squares(*brett)),
        ) ==> r is None,
{
    let wr = oracle::castle_rights_of(brett, Color::White);
    let br = oracle::castle_rights_of(brett, Color::Black);
    let squares = oracle::board_squares(brett);
    let total = count_pieces(&squares);
    if !probe_applicable(wr, br, total) {
        return None;
    }
    let pawns = oracle::piece_bits(brett, PieceKind::Pawn);
    let knights = oracle::piece_bits(brett, PieceKind::Knight);
    let bishops = oracle::piece_bits(brett, PieceKind::Bishop);
    let rooks = oracle::piece_bits(brett, PieceKind::Rook);
    let queens = oracle::piece_bits(brett, PieceKind::Queen);
    let kings = oracle::piece_bits(brett, PieceKind::King);
    let white = oracle::color_bits(brett, Color::White);
    let black = oracle::color_bits(brett, Color::Black);
    if !bitboards_consistent(pawns, knights, bishops, rooks, queens, kings, white, black) {
        return None;
    }
    let board = syzygy_board(pawns, knights, bishops, rooks, queens, kings, white, black);
    let stm = oracle::side_to_move(brett);
    let white_turn = matches!(stm, Color::White);
    let ep = oracle::en_passant_square(brett);
    let pos = match probe_position(board, white_turn, ep, halfmoves) {
        Some(p) => p,
        None => {
            return None;
        },
    };
    let wdl = probe_wdl(tables, &pos);
    let raw = probe_best_raw(tables, &pos);
    let best = match raw {
        Some(m) => decode_move(&m),
        None => None,
    };
    table_outcome(stm, wdl, best)
}

} // verus!
