//! The naive material-and-placement evaluator.
//!
//! Material uses the role values 10, 30, 30, 50, 90 and 0 for pawn,
//! knight, bishop, rook, queen and king. Placement adds a small bonus from
//! a per-role table; the pawn table is mirrored vertically for Black so
//! both colors share it. A stalemate scores 0 and a checkmate scores
//! `MIN_EVAL`, the worst score for the side to move.

use vstd::prelude::*;
use crate::eval::{Evaluator, MAX_EVAL, MIN_EVAL};
use crate::game::{color_white_at, piece_code_at, status_of, white_to_move};
use crate::game::{BoardStatus, Color, Piece, Position};

verus! {

/// The pawn placement bonus for White, by rank and file.
pub open spec fn pawn_entry(r: int, f: int) -> int {
    if r == 2 {
        if f == 3 || f == 4 {
            2
        } else if f == 2 || f == 5 {
            1
        } else {
            0
        }
    } else if r == 3 {
        if f == 3 || f == 4 {
            3
        } else if f == 2 || f == 5 {
            2
        } else {
            1
        }
    } else if r == 4 {
        if 2 <= f <= 5 {
            3
        } else {
            2
        }
    } else if r == 5 {
        3
    } else if r == 6 {
        4
    } else {
        0
    }
}

/// The knight placement bonus, symmetric in both axes.
pub open spec fn knight_entry(r: int, f: int) -> int {
    let rr = if r <= 3 { r } else { 7 - r };
    let ff = if f <= 3 { f } else { 7 - f };
    if rr <= 0 {
        if ff <= 0 {
            0
        } else if ff == 1 {
            1
        } else {
            2
        }
    } else if rr == 1 {
        if ff <= 0 {
            1
        } else if ff == 1 {
            2
        } else if ff == 2 {
            3
        } else {
            4
        }
    } else if rr == 2 {
        if ff <= 0 {
            2
        } else if ff == 1 {
            3
        } else {
            5
        }
    } else {
        if ff <= 0 {
            2
        } else if ff == 1 {
            4
        } else {
            5
        }
    }
}

/// The bishop (and queen) placement bonus, symmetric in both axes.
pub open spec fn bishop_entry(r: int, f: int) -> int {
    let rr = if r <= 3 { r } else { 7 - r };
    let ff = if f <= 3 { f } else { 7 - f };
    if rr <= 0 || ff <= 0 {
        0
    } else if rr == 1 {
        if ff == 1 {
            3
        } else {
            2
        }
    } else if rr == 2 {
        if ff == 1 {
            2
        } else {
            3
        }
    } else {
        if ff == 1 {
            2
        } else if ff == 2 {
            3
        } else {
            4
        }
    }
}

/// The material value of a role index.
pub open spec fn piece_value_spec(role: int) -> int {
    if role == 0 {
        10
    } else if role == 1 || role == 2 {
        30
    } else if role == 3 {
        50
    } else if role == 4 {
        90
    } else {
        0
    }
}

/// The placement bonus of a role on a square, for the given color.
pub open spec fn position_value_spec(role: int, white: bool, sq: int) -> int {
    let r = sq / 8;
    let f = sq % 8;
    if role == 0 {
        if white {
            pawn_entry(r, f)
        } else {
            pawn_entry(7 - r, f)
        }
    } else if role == 1 {
        knight_entry(r, f)
    } else if role == 2 || role == 4 {
        bishop_entry(r, f)
    } else {
        0
    }
}

/// What one square contributes to the evaluation: the piece's material
/// and placement value, counted for the side to move and against its
/// opponent.
pub open spec fn square_term(b: chess::Board, sq: int) -> int {
    match color_white_at(b, sq) {
        Option::None => 0,
        Option::Some(w) => match piece_code_at(b, sq) {
            Option::None => 0,
            Option::Some(role) => {
                let t = piece_value_spec(role) + position_value_spec(role, w, sq);
                if w == white_to_move(b) {
                    t
                } else {
                    -t
                }
            },
        },
    }
}

/// The evaluation summed over the first `n` squares.
pub open spec fn eval_sum(b: chess::Board, n: int) -> int
    decreases n,
{
    if n <= 0 {
        0
    } else {
        eval_sum(b, n - 1) + square_term(b, n - 1)
    }
}

/// The naive evaluation of a board: 0 for a stalemate, `MIN_EVAL` for a
/// checkmate, and the square sum for an ongoing game.
pub open spec fn naive_eval(b: chess::Board) -> int {
    if status_of(b) == 1 {
        0
    } else if status_of(b) == 2 {
        MIN_EVAL as int
    } else {
        eval_sum(b, 64)
    }
}

/// Each square contributes at most 95 in absolute value.
pub proof fn lemma_square_term_bound(b: chess::Board, sq: int)
    ensures
        -95 <= square_term(b, sq) <= 95,
{
}

/// The square sum stays within 95 per square counted.
pub proof fn lemma_eval_sum_bound(b: chess::Board, n: int)
    requires
        0 <= n,
    ensures
        -95 * n <= eval_sum(b, n) <= 95 * n,
    decreases n,
{
    if n > 0 {
        lemma_eval_sum_bound(b, n - 1);
        lemma_square_term_bound(b, n - 1);
    }
}

/// In the standard starting position the sides mirror each other, so
/// the evaluation is exactly zero.
#[verifier::rlimit(100)]
pub proof fn lemma_start_eval_zero(b: chess::Board)
    requires
        crate::game::is_start_board(b),
    ensures
        naive_eval(b) == 0,
{
    reveal_with_fuel(eval_sum, 65);
    assert(eval_sum(b, 64) == 0);
}

/// Handing the turn over without touching the pieces negates the
/// evaluation: the side-to-move sign convention, as the null move
/// exposes it on two ongoing boards.
pub proof fn lemma_eval_null_antisymmetric(b1: chess::Board, b2: chess::Board)
    requires
        status_of(b1) == 0,
        status_of(b2) == 0,
        white_to_move(b2) == !white_to_move(b1),
        forall|sq: int| 0 <= sq < 64 ==> #[trigger] piece_code_at(b2, sq) == piece_code_at(b1, sq),
        forall|sq: int| 0 <= sq < 64 ==> #[trigger] color_white_at(b2, sq) == color_white_at(
            b1,
            sq,
        ),
    ensures
        naive_eval(b2) == -naive_eval(b1),
{
    lemma_sum_negates(b1, b2, 64);
}

proof fn lemma_sum_negates(b1: chess::Board, b2: chess::Board, n: int)
    requires
        0 <= n <= 64,
        white_to_move(b2) == !white_to_move(b1),
        forall|sq: int| 0 <= sq < 64 ==> #[trigger] piece_code_at(b2, sq) == piece_code_at(b1, sq),
        forall|sq: int| 0 <= sq < 64 ==> #[trigger] color_white_at(b2, sq) == color_white_at(
            b1,
            sq,
        ),
    ensures
        eval_sum(b2, n) == -eval_sum(b1, n),
    decreases n,
{
    if n > 0 {
        lemma_sum_negates(b1, b2, n - 1);
        assert(square_term(b2, n - 1) == -square_term(b1, n - 1));
    }
}

/// The evaluator: material plus placement, stateless.
#[derive(Clone, Copy, PartialEq, Eq, Structural, Debug)]
pub struct NaiveEvaluator;

impl NaiveEvaluator {
    /// The material value of a piece.
    fn piece_value(piece: Piece) -> (r: i16)
        ensures
            r == piece_value_spec(piece.index_spec()),
    {
        match piece {
            Piece::Pawn => 10,
            Piece::Knight => 30,
            Piece::Bishop => 30,
            Piece::Rook => 50,
            Piece::Queen => 90,
            Piece::King => 0,
        }
    }

    /// The placement bonus of a piece of a color on a square.
    fn position_value(piece: Piece, color: Color, sq: u8) -> (v: i16)
        requires
            sq < 64,
        ensures
            v == position_value_spec(piece.index_spec(), color.is_white(), sq as int),
            0 <= v <= 5,
    {
        let r: u8 = sq / 8;
        let f: u8 = sq % 8;
        match piece {
            Piece::Pawn => match color {
                Color::White => Self::pawn_bonus(r, f),
                Color::Black => Self::pawn_bonus(7 - r, f),
            },
            Piece::Knight => Self::knight_bonus(r, f),
            Piece::Bishop => Self::bishop_bonus(r, f),
            Piece::Queen => Self::bishop_bonus(r, f),
            _ => 0,
        }
    }

    fn pawn_bonus(r: u8, f: u8) -> (v: i16)
        requires
            r < 8,
            f < 8,
        ensures
            v == pawn_entry(r as int, f as int),
            0 <= v <= 5,
    {
        if r == 2 {
            if f == 3 || f == 4 {
                2
            } else if f == 2 || f == 5 {
                1
            } else {
                0
            }
        } else if r == 3 {
            if f == 3 || f == 4 {
                3
            } else if f == 2 || f == 5 {
                2
            } else {
                1
            }
        } else if r == 4 {
            if 2 <= f && f <= 5 {
                3
            } else {
                2
            }
        } else if r == 5 {
            3
        } else if r == 6 {
            4
        } else {
            0
        }
    }

    fn knight_bonus(r: u8, f: u8) -> (v: i16)
        requires
            r < 8,
            f < 8,
        ensures
            v == knight_entry(r as int, f as int),
            0 <= v <= 5,
    {
        let rr: u8 = if r <= 3 { r } else { 7 - r };
        let ff: u8 = if f <= 3 { f } else { 7 - f };
        if rr == 0 {
            if ff == 0 {
                0
            } else if ff == 1 {
                1
            } else {
                2
            }
        } else if rr == 1 {
            if ff == 0 {
                1
            } else if ff == 1 {
                2
            } else if ff == 2 {
                3
            } else {
                4
            }
        } else if rr == 2 {
            if ff == 0 {
                2
            } else if ff == 1 {
                3
            } else {
                5
            }
        } else {
            if ff == 0 {
                2
            } else if ff == 1 {
                4
            } else {
                5
            }
        }
    }

    fn bishop_bonus(r: u8, f: u8) -> (v: i16)
        requires
            r < 8,
            f < 8,
        ensures
            v == bishop_entry(r as int, f as int),
            0 <= v <= 5,
    {
        let rr: u8 = if r <= 3 { r } else { 7 - r };
        let ff: u8 = if f <= 3 { f } else { 7 - f };
        if rr == 0 || ff == 0 {
            0
        } else if rr == 1 {
            if ff == 1 {
                3
            } else {
                2
            }
        } else if rr == 2 {
            if ff == 1 {
                2
            } else {
                3
            }
        } else {
            if ff == 1 {
                2
            } else if ff == 2 {
                3
            } else {
                4
            }
        }
    }

    /// Score a position: 0 for a stalemate, `MIN_EVAL` for a checkmate,
    /// and the material-and-placement sum for an ongoing game.
    pub fn score(&self, position: &Position) -> (r: i16)
        ensures
            r == naive_eval(position.b()),
            MIN_EVAL <= r <= MAX_EVAL,
    {
        let status = position.status();
        match status {
            BoardStatus::Stalemate => 0,
            BoardStatus::Checkmate => MIN_EVAL,
            BoardStatus::Ongoing => {
                let stm_white = position.side_to_move().is_white_exec();
                let mut acc: i16 = 0;
                let mut sq: u8 = 0;
                while sq < 64
                    invariant
                        sq <= 64,
                        acc == eval_sum(position.b(), sq as int),
                        -95 * sq <= acc <= 95 * sq,
                        stm_white == white_to_move(position.b()),
                    decreases 64 - sq,
                {
                    match position.color_on(sq) {
                        Option::None => {
                            assert(square_term(position.b(), sq as int) == 0);
                        },
                        Option::Some(c) => {
                            match position.piece_on(sq) {
                                Option::None => {
                                    proof {
                                        assert(false);
                                    }
                                },
                                Option::Some(p) => {
                                    let t = Self::piece_value(p) + Self::position_value(p, c, sq);
                                    if c.is_white_exec() == stm_white {
                                        acc = acc + t;
                                    } else {
                                        acc = acc - t;
                                    }
                                },
                            }
                        },
                    }
                    sq = sq + 1;
                }
                proof {
                    lemma_eval_sum_bound(position.b(), 64);
                }
                acc
            },
        }
    }
}

impl Evaluator for NaiveEvaluator {
    open spec fn eval_spec(&self, b: chess::Board) -> int {
        naive_eval(b)
    }

    fn min_value(&self) -> (r: i16)
    {
        MIN_EVAL
    }

    fn max_value(&self) -> (r: i16)
    {
        MAX_EVAL
    }

    fn evaluate(&self, position: &Position) -> (r: i16)
    {
        self.score(position)
    }
}

} // verus!
