//! Tunable evaluation weights: per-role material values and per-square
//! placement tables, addressable as one flat vector of constants so a
//! tuner can walk them uniformly, plus the evaluator that blends an
//! opening and an endgame table by the material left on the board.
//!
//! Scores here are from White's point of view until the final sign flip
//! for the side to move.

use vstd::prelude::*;
use crate::eval::{MAX_EVAL, MIN_EVAL};
use crate::game::{color_white_at, piece_code_at, status_of, white_to_move};
use crate::game::{BoardStatus, Piece, Position};

verus! {

/// The flat entries are kept within this bound, so every sum the
/// evaluator forms fits comfortably in a score.
pub const MAX_CONSTANT: i16 = 200;

/// One constant per piece role.
#[derive(Clone, Copy, PartialEq, Eq, Debug)]
pub struct PieceConstants<T> {
    pawn: T,
    knight: T,
    bishop: T,
    rook: T,
    queen: T,
    king: T,
}

impl<T> PieceConstants<T> {
    /// The constant of a role, for contracts.
    pub closed spec fn at(self, role: int) -> T {
        if role == 0 {
            self.pawn
        } else if role == 1 {
            self.knight
        } else if role == 2 {
            self.bishop
        } else if role == 3 {
            self.rook
        } else if role == 4 {
            self.queen
        } else {
            self.king
        }
    }
}

impl<T: Copy> PieceConstants<T> {
    /// The same constant for every role.
    pub fn uniform(value: T) -> (r: PieceConstants<T>)
        ensures
            forall|role: int| r.at(role) == value,
    {
        PieceConstants {
            pawn: value,
            knight: value,
            bishop: value,
            rook: value,
            queen: value,
            king: value,
        }
    }

    /// The constant of a role.
    pub fn get(&self, piece: Piece) -> (r: T)
        ensures
            r == self.at(piece.index_spec()),
    {
        match piece {
            Piece::Pawn => self.pawn,
            Piece::Knight => self.knight,
            Piece::Bishop => self.bishop,
            Piece::Rook => self.rook,
            Piece::Queen => self.queen,
            Piece::King => self.king,
        }
    }

    /// Replace the constant of a role.
    pub fn set(&mut self, piece: Piece, value: T)
        ensures
            final(self).at(piece.index_spec()) == value,
            forall|role: int|
                0 <= role < 6 && role != piece.index_spec() ==> #[trigger] final(self).at(role)
                    == old(self).at(role),
    {
        match piece {
            Piece::Pawn => self.pawn = value,
            Piece::Knight => self.knight = value,
            Piece::Bishop => self.bishop = value,
            Piece::Rook => self.rook = value,
            Piece::Queen => self.queen = value,
            Piece::King => self.king = value,
        }
    }
}

/// A per-square table of constants. Rows are stored from Black's back
/// rank down, so a square is read at the vertically flipped spot — the
/// row order a table is written in reads like a board from White's side.
#[derive(Clone, PartialEq, Eq, Debug)]
pub struct BoardValues {
    values: Vec<i16>,
}

/// Where a square's constant sits in a table's flat storage: the rank is
/// flipped, the file kept.
pub open spec fn board_slot(sq: int) -> int {
    (7 - sq / 8) * 8 + sq % 8
}

impl BoardValues {
    /// The flat storage, for contracts.
    pub closed spec fn storage(self) -> Seq<i16> {
        self.values@
    }

    /// The constant of a square, for contracts.
    pub open spec fn at_square(self, sq: int) -> i16 {
        self.storage()[board_slot(sq)]
    }

    pub open spec fn wf(self) -> bool {
        self.storage().len() == 64
    }

    /// The all-zero table.
    #[verifier::loop_isolation(false)]
    pub fn zero() -> (r: BoardValues)
        ensures
            r.wf(),
            forall|i: int| 0 <= i < 64 ==> #[trigger] r.storage()[i] == 0,
    {
        let mut values: Vec<i16> = Vec::new();
        let mut i: usize = 0;
        while i < 64
            invariant
                i <= 64,
                values@.len() == i,
                forall|k: int| 0 <= k < i ==> #[trigger] values@[k] == 0,
            decreases 64 - i,
        {
            values.push(0);
            i += 1;
        }
        BoardValues { values }
    }

    /// The constant of a square.
    pub fn get_square(&self, sq: u8) -> (r: i16)
        requires
            self.wf(),
            sq < 64,
        ensures
            r == self.at_square(sq as int),
    {
        let rank = sq / 8;
        let file = sq % 8;
        self.values[((7 - rank) as usize) * 8 + (file as usize)]
    }

    /// Read one slot of the flat storage directly.
    pub fn values_entry(&self, i: usize) -> (r: i16)
        requires
            self.wf(),
            i < 64,
        ensures
            r == self.storage()[i as int],
    {
        self.values[i]
    }

    /// Replace one slot of the flat storage directly.
    pub fn set_values_entry(&mut self, i: usize, value: i16)
        requires
            old(self).wf(),
            i < 64,
        ensures
            final(self).wf(),
            final(self).storage() == old(self).storage().update(i as int, value),
    {
        self.values.set(i, value);
    }

    /// Replace the constant of a square.
    pub fn set_square(&mut self, sq: u8, value: i16)
        requires
            old(self).wf(),
            sq < 64,
        ensures
            final(self).wf(),
            final(self).storage() == old(self).storage().update(board_slot(sq as int), value),
    {
        let rank = sq / 8;
        let file = sq % 8;
        self.values.set(((7 - rank) as usize) * 8 + (file as usize), value);
    }
}

impl PieceConstants<BoardValues> {
    /// Read one flat slot of a role's table.
    pub fn table_get(&self, piece: Piece, k: usize) -> (r: i16)
        requires
            self.at(piece.index_spec()).wf(),
            k < 64,
        ensures
            r == self.at(piece.index_spec()).storage()[k as int],
    {
        match piece {
            Piece::Pawn => self.pawn.values_entry(k),
            Piece::Knight => self.knight.values_entry(k),
            Piece::Bishop => self.bishop.values_entry(k),
            Piece::Rook => self.rook.values_entry(k),
            Piece::Queen => self.queen.values_entry(k),
            Piece::King => self.king.values_entry(k),
        }
    }

    /// Replace one flat slot of a role's table.
    pub fn table_set(&mut self, piece: Piece, k: usize, value: i16)
        requires
            old(self).at(piece.index_spec()).wf(),
            k < 64,
        ensures
            final(self).at(piece.index_spec()).wf(),
            final(self).at(piece.index_spec()).storage() == old(self).at(
                piece.index_spec(),
            ).storage().update(k as int, value),
            forall|role: int|
                0 <= role < 6 && role != piece.index_spec() ==> #[trigger] final(self).at(role)
                    == old(self).at(role),
    {
        match piece {
            Piece::Pawn => self.pawn.set_values_entry(k, value),
            Piece::Knight => self.knight.set_values_entry(k, value),
            Piece::Bishop => self.bishop.set_values_entry(k, value),
            Piece::Rook => self.rook.set_values_entry(k, value),
            Piece::Queen => self.queen.set_values_entry(k, value),
            Piece::King => self.king.set_values_entry(k, value),
        }
    }
}

/// One full set of evaluation constants: a material value per role and a
/// placement table per role, flat-addressable as 390 entries — the six
/// material values first, then the six tables of 64.
#[derive(Clone, PartialEq, Eq, Debug)]
pub struct EvaluationConstants {
    piece_values: PieceConstants<i16>,
    position_values: PieceConstants<BoardValues>,
}

impl EvaluationConstants {
    /// The number of flat entries.
    pub open spec fn size_spec() -> int {
        6int + 64 * 6
    }

    pub fn size(&self) -> (r: usize)
        ensures
            r == EvaluationConstants::size_spec(),
    {
        6 + 64 * 6
    }

    /// The material value of a role, for contracts.
    pub open spec fn value_at(self, role: int) -> i16 {
        self.piece_values_spec().at(role)
    }

    /// The placement constant of a role on a square, for contracts.
    pub open spec fn pst_at(self, role: int, sq: int) -> i16 {
        self.position_values_spec().at(role).at_square(sq)
    }

    pub closed spec fn piece_values_spec(self) -> PieceConstants<i16> {
        self.piece_values
    }

    pub closed spec fn position_values_spec(self) -> PieceConstants<BoardValues> {
        self.position_values
    }

    /// A flat entry, for contracts: the six material values, then the
    /// tables role by role in the flat storage order.
    pub open spec fn flat_at(self, i: int) -> i16 {
        if i < 6 {
            self.value_at(i)
        } else {
            self.position_values_spec().at((i - 6) / 64).storage()[(i - 6) % 64]
        }
    }

    /// Well-formed constants: the tables hold their 64 entries, and every
    /// flat entry is small enough that no evaluation sum overflows.
    pub open spec fn wf(self) -> bool {
        &&& forall|role: int|
            0 <= role < 6 ==> (#[trigger] self.position_values_spec().at(role)).wf()
        &&& forall|i: int|
            0 <= i < EvaluationConstants::size_spec() ==> -MAX_CONSTANT <= #[trigger] self.flat_at(
                i,
            ) <= MAX_CONSTANT
    }

    /// All-zero constants.
    pub fn new() -> (r: EvaluationConstants)
        ensures
            r.wf(),
            forall|i: int|
                0 <= i < EvaluationConstants::size_spec() ==> #[trigger] r.flat_at(i) == 0,
    {
        let r = EvaluationConstants {
            piece_values: PieceConstants::uniform(0),
            position_values: PieceConstants {
                pawn: BoardValues::zero(),
                knight: BoardValues::zero(),
                bishop: BoardValues::zero(),
                rook: BoardValues::zero(),
                queen: BoardValues::zero(),
                king: BoardValues::zero(),
            },
        };
        proof {
            assert forall|i: int|
                0 <= i < EvaluationConstants::size_spec() implies #[trigger] r.flat_at(i)
                == 0 by {
                if i >= 6 {
                    assert(0 <= (i - 6) / 64 < 6);
                    assert(0 <= (i - 6) % 64 < 64);
                }
            }
        }
        r
    }

    /// The role a flat index 6 or above addresses.
    fn role_of_index(j: usize) -> (r: Piece)
        requires
            j < 6,
        ensures
            r.index_spec() == j,
    {
        match j {
            0 => Piece::Pawn,
            1 => Piece::Knight,
            2 => Piece::Bishop,
            3 => Piece::Rook,
            4 => Piece::Queen,
            _ => Piece::King,
        }
    }

    /// Read one flat entry.
    pub fn get(&self, index: usize) -> (r: i16)
        requires
            self.wf(),
            index < EvaluationConstants::size_spec(),
        ensures
            r == self.flat_at(index as int),
    {
        if index < 6 {
            self.piece_values.get(Self::role_of_index(index))
        } else {
            let j = (index - 6) / 64;
            let k = (index - 6) % 64;
            let piece = Self::role_of_index(j);
            proof {
                assert(self.position_values_spec().at(j as int).wf());
            }
            self.position_values.table_get(piece, k)
        }
    }

    /// Replace one flat entry.
    pub fn set(&mut self, index: usize, value: i16)
        requires
            old(self).wf(),
            index < EvaluationConstants::size_spec(),
        ensures
            final(self).flat_at(index as int) == value,
            forall|i: int|
                0 <= i < EvaluationConstants::size_spec() && i != index ==> #[trigger] final(self).flat_at(i) == old(self).flat_at(i),
            -MAX_CONSTANT <= value <= MAX_CONSTANT ==> final(self).wf(),
    {
        if index < 6 {
            self.piece_values.set(Self::role_of_index(index), value);
        } else {
            let j = (index - 6) / 64;
            let k = (index - 6) % 64;
            let piece = Self::role_of_index(j);
            proof {
                assert(self.position_values_spec().at(j as int).wf());
            }
            self.position_values.table_set(piece, k, value);
        }
        proof {
            lemma_flat_index_math();
            assert forall|role: int| 0 <= role < 6 implies (#[trigger] self.position_values_spec().at(
                role,
            )).wf() by {
                assert(old(self).position_values_spec().at(role).wf());
            }
            assert forall|i: int|
                0 <= i < EvaluationConstants::size_spec() && i != index implies #[trigger] self.flat_at(i) == old(self).flat_at(i) by {
                if i >= 6 {
                    assert(0 <= (i - 6) / 64 < 6 && 0 <= (i - 6) % 64 < 64);
                    if index >= 6 && (i - 6) / 64 != (index as int - 6) / 64 {
                        assert(self.position_values_spec().at((i - 6) / 64) == old(
                            self,
                        ).position_values_spec().at((i - 6) / 64));
                    }
                }
            }
            if -MAX_CONSTANT <= value && value <= MAX_CONSTANT {
                assert forall|i: int|
                    0 <= i < EvaluationConstants::size_spec() implies -MAX_CONSTANT
                    <= #[trigger] self.flat_at(i) <= MAX_CONSTANT by {
                    if i == index {
                        assert(self.flat_at(i) == value);
                    } else {
                        assert(-MAX_CONSTANT <= old(self).flat_at(i) <= MAX_CONSTANT);
                    }
                }
            }
        }
    }
}

/// The flat-index arithmetic the constants rely on: each index 6 or above
/// splits uniquely into a role and a storage slot.
pub proof fn lemma_flat_index_math()
    ensures
        forall|i: int| #![trigger (i - 6) / 64]
            6 <= i < EvaluationConstants::size_spec() ==> 0 <= (i - 6) / 64 < 6 && 0 <= (i - 6) % 64
                < 64 && 6 + ((i - 6) / 64) * 64 + ((i - 6) % 64) == i,
{
    assert forall|i: int| #![trigger (i - 6) / 64]
        6 <= i < EvaluationConstants::size_spec() implies 0 <= (i - 6) / 64 < 6 && 0 <= (i - 6) % 64
        < 64 && 6 + ((i - 6) / 64) * 64 + ((i - 6) % 64) == i by {
        let j = i - 6;
        assert(0 <= j / 64 < 6 && 0 <= j % 64 < 64 && (j / 64) * 64 + j % 64 == j)
            by (nonlinear_arith)
            requires
                0 <= j < 384,
        ;
    }
}


/// The vertical mirror of a square: same file, flipped rank.
pub open spec fn mirror_square(sq: int) -> int {
    (7 - sq / 8) * 8 + sq % 8
}

/// What one square contributes to the White-point-of-view sum: the
/// piece's material value plus its placement constant, read at the mirror
/// square for a black piece so both colors share one table, positive for
/// White's pieces and negative for Black's.
pub open spec fn tuned_square_term(c: EvaluationConstants, b: chess::Board, sq: int) -> int {
    match color_white_at(b, sq) {
        Option::None => 0,
        Option::Some(w) => match piece_code_at(b, sq) {
            Option::None => 0,
            Option::Some(role) => {
                let t = c.value_at(role) + c.pst_at(
                    role,
                    if w {
                        sq
                    } else {
                        mirror_square(sq)
                    },
                );
                if w {
                    t
                } else {
                    -t
                }
            },
        },
    }
}

/// The White-point-of-view sum over the first `n` squares.
pub open spec fn tuned_sum(c: EvaluationConstants, b: chess::Board, n: int) -> int
    decreases n,
{
    if n <= 0 {
        0
    } else {
        tuned_sum(c, b, n - 1) + tuned_square_term(c, b, n - 1)
    }
}

/// The tuned evaluation of a board for its side to move: 0 for a
/// stalemate, `MIN_EVAL` for a checkmate, and the signed square sum for
/// an ongoing game.
pub open spec fn tuned_eval(c: EvaluationConstants, b: chess::Board) -> int {
    if status_of(b) == 1 {
        0
    } else if status_of(b) == 2 {
        MIN_EVAL as int
    } else if white_to_move(b) {
        tuned_sum(c, b, 64)
    } else {
        -tuned_sum(c, b, 64)
    }
}

/// Every material value and placement constant of well-formed constants
/// stays within the flat-entry bound, whatever role index asks for it.
pub proof fn lemma_constants_bounded(c: EvaluationConstants)
    requires
        c.wf(),
    ensures
        forall|role: int| -MAX_CONSTANT <= #[trigger] c.value_at(role) <= MAX_CONSTANT,
        forall|role: int, sq: int|
            0 <= sq < 64 ==> -MAX_CONSTANT <= #[trigger] c.pst_at(role, sq) <= MAX_CONSTANT,
{
    assert forall|role: int| -MAX_CONSTANT <= #[trigger] c.value_at(role) <= MAX_CONSTANT by {
        let r: int = if 0 <= role < 6 {
            role
        } else {
            5
        };
        assert(c.value_at(role) == c.value_at(r));
        assert(c.value_at(r) == c.flat_at(r));
        assert(-MAX_CONSTANT <= c.flat_at(r) <= MAX_CONSTANT);
    }
    assert forall|role: int, sq: int|
        0 <= sq < 64 implies -MAX_CONSTANT <= #[trigger] c.pst_at(role, sq) <= MAX_CONSTANT by {
        let r: int = if 0 <= role < 6 {
            role
        } else {
            5
        };
        assert(c.position_values_spec().at(role) == c.position_values_spec().at(r));
        let slot = board_slot(sq);
        assert(0 <= sq / 8 < 8 && 0 <= sq % 8 < 8) by (nonlinear_arith)
            requires
                0 <= sq < 64,
        ;
        assert(0 <= slot < 64) by (nonlinear_arith)
            requires
                0 <= sq / 8 < 8 && 0 <= sq % 8 < 8 && slot == (7 - sq / 8) * 8 + sq % 8,
        ;
        let i = 6 + r * 64 + slot;
        assert((i - 6) / 64 == r && (i - 6) % 64 == slot) by (nonlinear_arith)
            requires
                0 <= r < 6,
                0 <= slot < 64,
                i == 6 + r * 64 + slot,
        ;
        assert(6 <= i < EvaluationConstants::size_spec()) by (nonlinear_arith)
            requires
                0 <= r < 6,
                0 <= slot < 64,
                i == 6 + r * 64 + slot,
        ;
        assert(c.pst_at(role, sq) == c.flat_at(i));
        assert(-MAX_CONSTANT <= c.flat_at(i) <= MAX_CONSTANT);
    }
}

/// The square sum stays within twice the entry bound per square counted.
pub proof fn lemma_tuned_sum_bound(c: EvaluationConstants, b: chess::Board, n: int)
    requires
        c.wf(),
        0 <= n <= 64,
    ensures
        -400 * n <= tuned_sum(c, b, n) <= 400 * n,
    decreases n,
{
    if n > 0 {
        lemma_tuned_sum_bound(c, b, n - 1);
        lemma_constants_bounded(c);
        let sq = n - 1;
        assert(0 <= (7 - sq / 8) * 8 + sq % 8 < 64) by (nonlinear_arith)
            requires
                0 <= sq < 64,
        ;
        assert(0 <= mirror_square(sq) < 64);
    }
}

impl PieceConstants<BoardValues> {
    /// A role's placement constant on a square.
    pub fn pst_get(&self, piece: Piece, sq: u8) -> (r: i16)
        requires
            self.at(piece.index_spec()).wf(),
            sq < 64,
        ensures
            r == self.at(piece.index_spec()).at_square(sq as int),
    {
        match piece {
            Piece::Pawn => self.pawn.get_square(sq),
            Piece::Knight => self.knight.get_square(sq),
            Piece::Bishop => self.bishop.get_square(sq),
            Piece::Rook => self.rook.get_square(sq),
            Piece::Queen => self.queen.get_square(sq),
            Piece::King => self.king.get_square(sq),
        }
    }
}

impl EvaluationConstants {
    /// The lowest score this evaluator can produce.
    pub fn min_value(&self) -> (r: i16)
        ensures
            r == MIN_EVAL,
    {
        MIN_EVAL
    }

    /// The highest score this evaluator can produce.
    pub fn max_value(&self) -> (r: i16)
        ensures
            r == MAX_EVAL,
    {
        MAX_EVAL
    }

    /// The material value of a role.
    pub fn piece_value(&self, piece: Piece) -> (r: i16)
        ensures
            r == self.value_at(piece.index_spec()),
    {
        self.piece_values.get(piece)
    }

    /// The placement constant of a role on a square.
    pub fn position_value(&self, piece: Piece, square: u8) -> (r: i16)
        requires
            self.wf(),
            square < 64,
        ensures
            r == self.pst_at(piece.index_spec(), square as int),
    {
        proof {
            assert(self.position_values_spec().at(piece.index_spec()).wf());
        }
        self.position_values.pst_get(piece, square)
    }

    /// The material balance one role contributes: the count difference
    /// times the role's value.
    pub fn piece_score(&self, white_count: usize, black_count: usize, piece: Piece) -> (r: i16)
        requires
            self.wf(),
            white_count <= 64,
            black_count <= 64,
        ensures
            r as int == (white_count - black_count) * self.value_at(piece.index_spec()),
    {
        let diff: i32 = white_count as i32 - black_count as i32;
        proof {
            lemma_constants_bounded(*self);
            assert(-MAX_CONSTANT <= self.value_at(piece.index_spec()) <= MAX_CONSTANT);
        }
        let v: i32 = self.piece_values.get(piece) as i32;
        proof {
            assert(-64 * 200 <= diff * v <= 64 * 200) by (nonlinear_arith)
                requires
                    -64 <= diff <= 64,
                    -200 <= v <= 200,
            ;
        }
        (diff * v) as i16
    }

    pub fn pawn_score(&self, white_pawns: usize, black_pawns: usize) -> (r: i16)
        requires
            self.wf(),
            white_pawns <= 64,
            black_pawns <= 64,
        ensures
            r as int == (white_pawns - black_pawns) * self.value_at(0),
    {
        self.piece_score(white_pawns, black_pawns, Piece::Pawn)
    }

    pub fn knight_score(&self, white_knights: usize, black_knights: usize) -> (r: i16)
        requires
            self.wf(),
            white_knights <= 64,
            black_knights <= 64,
        ensures
            r as int == (white_knights - black_knights) * self.value_at(1),
    {
        self.piece_score(white_knights, black_knights, Piece::Knight)
    }

    pub fn bishop_score(&self, white_bishops: usize, black_bishops: usize) -> (r: i16)
        requires
            self.wf(),
            white_bishops <= 64,
            black_bishops <= 64,
        ensures
            r as int == (white_bishops - black_bishops) * self.value_at(2),
    {
        self.piece_score(white_bishops, black_bishops, Piece::Bishop)
    }

    pub fn rook_score(&self, white_rooks: usize, black_rooks: usize) -> (r: i16)
        requires
            self.wf(),
            white_rooks <= 64,
            black_rooks <= 64,
        ensures
            r as int == (white_rooks - black_rooks) * self.value_at(3),
    {
        self.piece_score(white_rooks, black_rooks, Piece::Rook)
    }

    pub fn queen_score(&self, white_queens: usize, black_queens: usize) -> (r: i16)
        requires
            self.wf(),
            white_queens <= 64,
            black_queens <= 64,
        ensures
            r as int == (white_queens - black_queens) * self.value_at(4),
    {
        self.piece_score(white_queens, black_queens, Piece::Queen)
    }

    pub fn king_score(&self, white_kings: usize, black_kings: usize) -> (r: i16)
        requires
            self.wf(),
            white_kings <= 64,
            black_kings <= 64,
        ensures
            r as int == (white_kings - black_kings) * self.value_at(5),
    {
        self.piece_score(white_kings, black_kings, Piece::King)
    }

    /// Score a position with these constants, for its side to move.
    #[verifier::loop_isolation(false)]
    pub fn evaluate(&self, position: &Position) -> (r: i16)
        requires
            self.wf(),
        ensures
            r == tuned_eval(*self, position.b()),
            MIN_EVAL <= r <= MAX_EVAL,
    {
        let status = position.status();
        match status {
            BoardStatus::Stalemate => 0,
            BoardStatus::Checkmate => MIN_EVAL,
            BoardStatus::Ongoing => {
                proof {
                    lemma_constants_bounded(*self);
                }
                let mut acc: i16 = 0;
                let mut sq: u8 = 0;
                while sq < 64
                    invariant
                        sq <= 64,
                        acc == tuned_sum(*self, position.b(), sq as int),
                        -400 * sq <= acc <= 400 * sq,
                    decreases 64 - sq,
                {
                    match position.color_on(sq) {
                        Option::None => {
                            assert(tuned_square_term(*self, position.b(), sq as int) == 0);
                        },
                        Option::Some(c) => {
                            match position.piece_on(sq) {
                                Option::None => {
                                    proof {
                                        assert(false);
                                    }
                                },
                                Option::Some(p) => {
                                    let white = c.is_white_exec();
                                    proof {
                                        assert(sq / 8 <= 7 && sq % 8 <= 7) by (nonlinear_arith)
                                            requires
                                                sq < 64,
                                        ;
                                        assert(0 <= (7 - (sq as int) / 8) * 8 + (sq as int) % 8
                                            < 64) by (nonlinear_arith)
                                            requires
                                                0 <= sq < 64,
                                        ;
                                        assert(0 <= mirror_square(sq as int) < 64);
                                    }
                                    let white_lookup: u8 = sq;
                                    let lookup: u8 = if white {
                                        white_lookup
                                    } else {
                                        (7 - sq / 8) * 8 + sq % 8
                                    };
                                    proof {
                                        assert(-MAX_CONSTANT <= self.value_at(p.index_spec())
                                            <= MAX_CONSTANT);
                                        assert(-MAX_CONSTANT <= self.pst_at(
                                            p.index_spec(),
                                            lookup as int,
                                        ) <= MAX_CONSTANT);
                                        assert(self.position_values_spec().at(
                                            p.index_spec(),
                                        ).wf());
                                    }
                                    let t = self.piece_values.get(p) + self.position_values.pst_get(
                                        p,
                                        lookup,
                                    );
                                    if white {
                                        acc = acc + t;
                                    } else {
                                        acc = acc - t;
                                    }
                                },
                            }
                        },
                    }
                    sq = sq + 1;
                }
                proof {
                    lemma_tuned_sum_bound(*self, position.b(), 64);
                }
                if position.side_to_move().is_white_exec() {
                    acc
                } else {
                    -acc
                }
            },
        }
    }
}

impl Default for EvaluationConstants {
    /// All-zero constants.
    fn default() -> (r: EvaluationConstants)
        ensures
            r.wf(),
            forall|i: int|
                0 <= i < EvaluationConstants::size_spec() ==> #[trigger] r.flat_at(i) == 0,
    {
        EvaluationConstants::new()
    }
}

/// A full tuning configuration: two sets of constants — opening and
/// endgame — and the material weights that pick between them, flat-
/// addressable as 782 entries: the two weights first, then each set.
#[derive(Clone, PartialEq, Eq, Debug)]
pub struct EvaluationConfig {
    pub opening_weight: i16,
    pub endgame_weight: i16,
    pub opening_values: EvaluationConstants,
    pub endgame_values: EvaluationConstants,
}

impl EvaluationConfig {
    /// The number of flat entries.
    pub open spec fn size_spec() -> int {
        2 + 2 * EvaluationConstants::size_spec()
    }

    pub fn size(&self) -> (r: usize)
        ensures
            r == EvaluationConfig::size_spec(),
    {
        2 + self.opening_values.size() + self.endgame_values.size()
    }

    pub open spec fn wf(self) -> bool {
        &&& self.opening_values.wf()
        &&& self.endgame_values.wf()
    }

    /// A flat entry, for contracts: the two weights, then the opening
    /// constants, then the endgame constants.
    pub open spec fn flat_at(self, i: int) -> i16 {
        if i == 0 {
            self.opening_weight
        } else if i == 1 {
            self.endgame_weight
        } else if i < 2 + EvaluationConstants::size_spec() {
            self.opening_values.flat_at(i - 2)
        } else {
            self.endgame_values.flat_at(i - 2 - EvaluationConstants::size_spec())
        }
    }

    /// Read one flat entry.
    pub fn get(&self, index: usize) -> (r: i16)
        requires
            self.wf(),
            index < EvaluationConfig::size_spec(),
        ensures
            r == self.flat_at(index as int),
    {
        if index == 0 {
            self.opening_weight
        } else if index == 1 {
            self.endgame_weight
        } else if index < 2 + 390 {
            self.opening_values.get(index - 2)
        } else {
            self.endgame_values.get(index - 392)
        }
    }

    /// Replace one flat entry.
    pub fn set(&mut self, index: usize, value: i16)
        requires
            old(self).wf(),
            index < EvaluationConfig::size_spec(),
        ensures
            final(self).flat_at(index as int) == value,
            forall|i: int|
                0 <= i < EvaluationConfig::size_spec() && i != index ==> #[trigger] final(self).flat_at(i) == old(self).flat_at(i),
            -MAX_CONSTANT <= value <= MAX_CONSTANT ==> final(self).wf(),
    {
        if index == 0 {
            self.opening_weight = value;
        } else if index == 1 {
            self.endgame_weight = value;
        } else if index < 2 + 390 {
            self.opening_values.set(index - 2, value);
        } else {
            self.endgame_values.set(index - 392, value);
        }
    }
}

impl Default for EvaluationConfig {
    /// Zero weights over all-zero constants.
    fn default() -> (r: EvaluationConfig)
        ensures
            r.wf(),
            r.opening_weight == 0,
            r.endgame_weight == 0,
    {
        EvaluationConfig {
            opening_weight: 0,
            endgame_weight: 0,
            opening_values: EvaluationConstants::new(),
            endgame_values: EvaluationConstants::new(),
        }
    }
}

/// The sum the blending evaluator weighs a position's material with.
pub open spec fn total_score_spec(c: EvaluationConstants, counts: (u32, u32, u32, u32, u32, u32)) -> int {
    counts.0 * c.value_at(0) + counts.1 * c.value_at(1) + counts.2 * c.value_at(2) + counts.3
        * c.value_at(3) + counts.4 * c.value_at(4) + counts.5 * c.value_at(5)
}

/// The blending evaluator: scores a position with the opening constants
/// when plenty of material remains, with the endgame constants when
/// little does. (The fractional blend between the two weights is floating
/// point and lives outside the verified core.)
pub struct PositionEvaluator {
    config: EvaluationConfig,
}

impl PositionEvaluator {
    /// The held configuration, for contracts.
    pub closed spec fn config_spec(self) -> EvaluationConfig {
        self.config
    }

    pub open spec fn wf(self) -> bool {
        self.config_spec().wf()
    }

    pub fn new(config: EvaluationConfig) -> (r: PositionEvaluator)
        ensures
            r.config_spec() == config,
    {
        PositionEvaluator { config }
    }

    pub fn min_value(&self) -> (r: i16)
        ensures
            r == MIN_EVAL,
    {
        MIN_EVAL
    }

    pub fn max_value(&self) -> (r: i16)
        ensures
            r == MAX_EVAL,
    {
        MAX_EVAL
    }

    /// The opening-constants material total over per-role piece counts of
    /// the whole board.
    pub fn total_piece_score(
        &self,
        pawns: u32,
        knights: u32,
        bishops: u32,
        rooks: u32,
        queens: u32,
        kings: u32,
    ) -> (r: i16)
        requires
            self.wf(),
            pawns + knights + bishops + rooks + queens + kings <= 64,
        ensures
            r as int == total_score_spec(
                self.config_spec().opening_values,
                (pawns, knights, bishops, rooks, queens, kings),
            ),
    {
        proof {
            lemma_constants_bounded(self.config_spec().opening_values);
        }
        let c = &self.config.opening_values;
        proof {
            assert(-MAX_CONSTANT <= c.value_at(0) <= MAX_CONSTANT);
            assert(-MAX_CONSTANT <= c.value_at(1) <= MAX_CONSTANT);
            assert(-MAX_CONSTANT <= c.value_at(2) <= MAX_CONSTANT);
            assert(-MAX_CONSTANT <= c.value_at(3) <= MAX_CONSTANT);
            assert(-MAX_CONSTANT <= c.value_at(4) <= MAX_CONSTANT);
            assert(-MAX_CONSTANT <= c.value_at(5) <= MAX_CONSTANT);
        }
        let mut score: i32 = 0;
        score = score + Self::count_term(pawns, c.piece_value(Piece::Pawn));
        score = score + Self::count_term(knights, c.piece_value(Piece::Knight));
        score = score + Self::count_term(bishops, c.piece_value(Piece::Bishop));
        score = score + Self::count_term(rooks, c.piece_value(Piece::Rook));
        score = score + Self::count_term(queens, c.piece_value(Piece::Queen));
        score = score + Self::count_term(kings, c.piece_value(Piece::King));
        proof {
            assert(-12800 <= score <= 12800);
        }
        score as i16
    }

    /// One role's share of the material total.
    fn count_term(count: u32, value: i16) -> (r: i32)
        requires
            count <= 64,
            -MAX_CONSTANT <= value <= MAX_CONSTANT,
        ensures
            r == count * value,
            -200 * count <= r <= 200 * count,
    {
        proof {
            assert(-200 * count <= (count as int) * (value as int) <= 200 * count)
                by (nonlinear_arith)
                requires
                    0 <= count <= 64,
                    -200 <= value <= 200,
            ;
        }
        (count as i32) * (value as i32)
    }

    /// Score a position with the opening constants.
    pub fn evaluate_opening(&self, position: &Position) -> (r: i16)
        requires
            self.wf(),
        ensures
            r == tuned_eval(self.config_spec().opening_values, position.b()),
            MIN_EVAL <= r <= MAX_EVAL,
    {
        self.config.opening_values.evaluate(position)
    }

    /// Score a position with the endgame constants.
    pub fn evaluate_endgame(&self, position: &Position) -> (r: i16)
        requires
            self.wf(),
        ensures
            r == tuned_eval(self.config_spec().endgame_values, position.b()),
            MIN_EVAL <= r <= MAX_EVAL,
    {
        self.config.endgame_values.evaluate(position)
    }
}

} // verus!
