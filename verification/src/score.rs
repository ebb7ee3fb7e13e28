//! Static evaluation: piece values, material balance, terminal-state
//! scoring, and the fifty-move counter rule.
//!
//! All scores are centi-pawns (`i64`): a pawn is 100, a knight 305, a
//! bishop 333, a rook 563, a queen 950, a king 0. White's material counts
//! positive, Black's negative. A checkmate scores `MATE_SCORE` against the
//! side to move; a stalemate or a fifty-move draw scores 0.

use vstd::prelude::*;

verus! {

/// Score of a checkmate, from the mated side's point of view (negated).
pub const MATE_SCORE: i64 = 100000;

/// Numerator of the mate-distance bonus: a mate found at ply `d` earns an
/// extra `MATE_BONUS_NUM / d` toward the root.
pub const MATE_BONUS_NUM: i64 = 400000;

/// Score of a tablebase win, from the winning side's point of view.
pub const TABLEBASE_REWARD: i64 = 10000000;

/// Half-moves without a pawn move or capture after which the game is drawn.
pub const FIFTY_MOVE_LIMIT: u8 = 50;

/// Largest possible material balance magnitude: 64 squares, none worth
/// more than a queen.
pub const MATERIAL_BOUND: i64 = 60800;

#[derive(Clone, Copy, PartialEq, Eq, Structural, Debug)]
pub enum Color {
    White,
    Black,
}

#[derive(Clone, Copy, PartialEq, Eq, Structural, Debug)]
pub enum PieceKind {
    Pawn,
    Knight,
    Bishop,
    Rook,
    Queen,
    King,
}

#[derive(Clone, Copy, PartialEq, Eq, Structural, Debug)]
pub enum Status {
    Ongoing,
    Stalemate,
    Checkmate,
}

/// Signed value of one piece: positive for White, negative for Black.
pub open spec fn spec_piece_value(p: PieceKind, c: Color) -> int {
    let v: int = match p {
        PieceKind::Pawn => 100,
        PieceKind::Knight => 305,
        PieceKind::Bishop => 333,
        PieceKind::Rook => 563,
        PieceKind::Queen => 950,
        PieceKind::King => 0,
    };
    match c {
        Color::White => v,
        Color::Black => -v,
    }
}

pub fn piece_value(p: PieceKind, c: Color) -> (r: i64)
    ensures
        r == spec_piece_value(p, c),
{
    let v: i64 = match p {
        PieceKind::Pawn => 100,
        PieceKind::Knight => 305,
        PieceKind::Bishop => 333,
        PieceKind::Rook => 563,
        PieceKind::Queen => 950,
        PieceKind::King => 0,
    };
    match c {
        Color::White => v,
        Color::Black => -v,
    }
}

/// Value of what one square holds; an empty square is worth 0.
pub open spec fn spec_square_value(s: Option<(PieceKind, Color)>) -> int {
    match s {
        Some((p, c)) => spec_piece_value(p, c),
        None => 0,
    }
}

/// Material balance of a board given as one entry per square.
pub open spec fn spec_material(s: Seq<Option<(PieceKind, Color)>>) -> int
    decreases s.len(),
{
    if s.len() == 0 {
        0
    } else {
        spec_material(s.drop_last()) + spec_square_value(s.last())
    }
}

/// No single square is worth more than a queen, in magnitude.
pub proof fn lemma_square_value_bound(s: Option<(PieceKind, Color)>)
    ensures
        -950 <= spec_square_value(s) <= 950,
{
}

/// Material balance of a full board snapshot, one entry per square.
pub fn material(squares: &Vec<Option<(PieceKind, Color)>>) -> (r: i64)
    requires
        squares@.len() <= 64,
    ensures
        r == spec_material(squares@),
        -MATERIAL_BOUND <= r <= MATERIAL_BOUND,
{
    let n = squares.len();
    let mut total: i64 = 0;
    let mut i: usize = 0;
    while i < n
        invariant
            i <= n,
            n == squares@.len() <= 64,
            total == spec_material(squares@.subrange(0, i as int)),
            -950 * i <= total <= 950 * i,
        decreases n - i,
    {
        proof {
            lemma_square_value_bound(squares@[i as int]);
            assert(squares@.subrange(0, i + 1 as int).drop_last() =~= squares@.subrange(
                0,
                i as int,
            ));
            assert(squares@.subrange(0, i + 1 as int).last() == squares@[i as int]);
        }
        let v = match squares[i] {
            Some((p, c)) => piece_value(p, c),
            None => 0,
        };
        total = total + v;
        i = i + 1;
    }
    proof {
        assert(squares@.subrange(0, n as int) =~= squares@);
    }
    total
}

/// The other color.
pub open spec fn spec_swap_color(c: Color) -> Color {
    match c {
        Color::White => Color::Black,
        Color::Black => Color::White,
    }
}

/// The same square content with the piece's color swapped.
pub open spec fn spec_swap_square(s: Option<(PieceKind, Color)>) -> Option<(PieceKind, Color)> {
    match s {
        Some((p, c)) => Some((p, spec_swap_color(c))),
        None => None,
    }
}

/// The mirrored board: every piece keeps its square and type but changes
/// color.
pub open spec fn spec_mirror(s: Seq<Option<(PieceKind, Color)>>) -> Seq<Option<(PieceKind, Color)>> {
    s.map_values(|x: Option<(PieceKind, Color)>| spec_swap_square(x))
}

/// Law: the material balance is antisymmetric under a color swap — the
/// mirrored board's balance is the exact negation of the board's own.
pub proof fn lemma_material_antisymmetric(s: Seq<Option<(PieceKind, Color)>>)
    ensures
        spec_material(spec_mirror(s)) == -spec_material(s),
    decreases s.len(),
{
    if s.len() == 0 {
        assert(spec_mirror(s).len() == 0);
    } else {
        lemma_material_antisymmetric(s.drop_last());
        assert(spec_mirror(s).drop_last() =~= spec_mirror(s.drop_last()));
        assert(spec_mirror(s).last() == spec_swap_square(s.last()));
    }
}

/// Law: the static evaluation of an ongoing, material-only position is
/// antisymmetric under a color swap — mirroring every piece's color and
/// the side to move flips the score's sign, whatever the fifty-move
/// counter holds.
pub proof fn lemma_static_eval_antisymmetric(
    fifty: u8,
    stm: Color,
    squares: Seq<Option<(PieceKind, Color)>>,
)
    ensures
        spec_static_eval(fifty, Status::Ongoing, spec_swap_color(stm), spec_mirror(squares))
            == -spec_static_eval(fifty, Status::Ongoing, stm, squares),
{
    lemma_material_antisymmetric(squares);
}

/// Fifty-move counter for the position after a move: reset to 0 on a pawn
/// move or a capture, otherwise one more half-move than before.
pub open spec fn spec_next_fifty(counter: u8, pawn_move: bool, capture: bool) -> int {
    if pawn_move || capture {
        0
    } else {
        counter + 1
    }
}

pub fn next_fifty(counter: u8, pawn_move: bool, capture: bool) -> (r: u8)
    requires
        counter < 255,
    ensures
        r == spec_next_fifty(counter, pawn_move, capture),
{
    if pawn_move || capture {
        0
    } else {
        counter + 1
    }
}

/// Static evaluation of a position snapshot. The fifty-move rule is checked
/// before the terminal status: an expired game is a draw even if the
/// position is also mate or stalemate. A checkmate scores against the side
/// to move; a stalemate scores 0; an ongoing game scores its material
/// balance.
pub open spec fn spec_static_eval(
    fifty: u8,
    status: Status,
    stm: Color,
    squares: Seq<Option<(PieceKind, Color)>>,
) -> int {
    if fifty >= 50 {
        0
    } else {
        match status {
            Status::Checkmate => if stm == Color::White {
                -100000
            } else {
                100000
            },
            Status::Stalemate => 0,
            Status::Ongoing => spec_material(squares),
        }
    }
}

pub fn static_eval(
    fifty: u8,
    status: Status,
    stm: Color,
    squares: &Vec<Option<(PieceKind, Color)>>,
) -> (r: i64)
    requires
        squares@.len() <= 64,
    ensures
        r == spec_static_eval(fifty, status, stm, squares@),
        -MATE_SCORE <= r <= MATE_SCORE,
{
    if fifty >= FIFTY_MOVE_LIMIT {
        return 0;
    }
    match status {
        Status::Checkmate => if stm == Color::White {
            -MATE_SCORE
        } else {
            MATE_SCORE
        },
        Status::Stalemate => 0,
        Status::Ongoing => material(squares),
    }
}

} // verus!
