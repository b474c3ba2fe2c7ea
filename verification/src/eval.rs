//! Static evaluation: the score bounds and the evaluator interface the
//! search relies on.

use vstd::prelude::*;
use crate::game::Position;

pub mod naive;

verus! {

/// The score of a lost (checkmated) position, from the point of view of
/// the side to move. No score goes below it.
pub const MIN_EVAL: i16 = -30000;

/// The upper sentinel of the score scale. No score goes above it.
pub const MAX_EVAL: i16 = 30000;

/// A static evaluator: a pure scoring function of a position, from the
/// side to move's point of view, bounded by the `MIN_EVAL`/`MAX_EVAL`
/// sentinels, scoring a checkmate against the mover at the bottom of the
/// scale and a stalemate at zero. The search relies only on this
/// contract, so an evaluator can be swapped without touching it.
pub trait Evaluator {
    /// The score this evaluator assigns to a board: a function of the
    /// board value alone, which `evaluate` computes.
    spec fn eval_spec(&self, b: chess::Board) -> int;

    /// The lowest score the evaluator can produce.
    fn min_value(&self) -> (r: i16)
        ensures
            r == MIN_EVAL,
    ;

    /// The highest score the evaluator can produce.
    fn max_value(&self) -> (r: i16)
        ensures
            r == MAX_EVAL,
    ;

    /// Score the position for its side to move.
    fn evaluate(&self, position: &Position) -> (r: i16)
        ensures
            r == self.eval_spec(position.b()),
            MIN_EVAL <= r <= MAX_EVAL,
            crate::game::status_of(position.b()) == 2 ==> r == MIN_EVAL,
            crate::game::status_of(position.b()) == 1 ==> r == 0,
    ;
}

/// The engine's standard material-and-placement evaluator.
pub fn naive_evaluator() -> (r: naive::NaiveEvaluator)
    ensures
        r == (naive::NaiveEvaluator {  }),
{
    naive::NaiveEvaluator {  }
}

/// The centrality bonus of a square: 1 at the edge, up to 4 in the four
/// center squares — one shared table for every role and both colors.
pub open spec fn center_value(sq: int) -> int {
    let r = sq / 8;
    let f = sq % 8;
    let rr = if r <= 3 {
        r
    } else {
        7 - r
    };
    let ff = if f <= 3 {
        f
    } else {
        7 - f
    };
    (if rr <= ff {
        rr
    } else {
        ff
    }) + 1
}

/// What one square contributes to the simple evaluation: material plus
/// centrality, for the side to move and against its opponent.
pub open spec fn simple_square_term(b: chess::Board, sq: int) -> int {
    match crate::game::color_white_at(b, sq) {
        Option::None => 0,
        Option::Some(w) => match crate::game::piece_code_at(b, sq) {
            Option::None => 0,
            Option::Some(role) => {
                let t = naive::piece_value_spec(role) + center_value(sq);
                if w == crate::game::white_to_move(b) {
                    t
                } else {
                    -t
                }
            },
        },
    }
}

/// The simple evaluation summed over the first `n` squares.
pub open spec fn simple_sum(b: chess::Board, n: int) -> int
    decreases n,
{
    if n <= 0 {
        0
    } else {
        simple_sum(b, n - 1) + simple_square_term(b, n - 1)
    }
}

/// The simple evaluation of a board: 0 for a stalemate, the worst score
/// for a checkmate, and the material-and-centrality sum for an ongoing
/// game.
pub open spec fn simple_eval(b: chess::Board) -> int {
    if crate::game::status_of(b) == 1 {
        0
    } else if crate::game::status_of(b) == 2 {
        Evaluation::MIN as int
    } else {
        simple_sum(b, 64)
    }
}

/// Each square contributes at most 94 in absolute value.
pub proof fn lemma_simple_sum_bound(b: chess::Board, n: int)
    requires
        0 <= n <= 64,
    ensures
        -94 * n <= simple_sum(b, n) <= 94 * n,
    decreases n,
{
    if n > 0 {
        lemma_simple_sum_bound(b, n - 1);
        let sq = n - 1;
        assert(0 <= sq / 8 <= 7 && 0 <= sq % 8 <= 7) by (nonlinear_arith)
            requires
                0 <= sq < 64,
        ;
    }
}

/// The plain material-and-centrality evaluation, with one symmetric
/// placement table shared by every role.
#[derive(Clone, Copy, PartialEq, Eq, Structural, Debug)]
pub struct Evaluation {}

impl Evaluation {
    /// The worst score: a checkmate against the side to move.
    pub const MIN: i16 = -32767;

    /// The best score bound.
    pub const MAX: i16 = 32767;

    /// The score of a balanced position.
    pub const ZERO: i16 = 0;

    /// The material value of a role.
    fn piece_value(piece: crate::game::Piece) -> (r: i16)
        ensures
            r == naive::piece_value_spec(piece.index_spec()),
    {
        match piece {
            crate::game::Piece::Pawn => 10,
            crate::game::Piece::Knight => 30,
            crate::game::Piece::Bishop => 30,
            crate::game::Piece::Rook => 50,
            crate::game::Piece::Queen => 90,
            crate::game::Piece::King => 0,
        }
    }

    /// The centrality bonus of a square.
    fn square_value(sq: u8) -> (r: i16)
        requires
            sq < 64,
        ensures
            r == center_value(sq as int),
            1 <= r <= 4,
    {
        proof {
            assert(sq / 8 <= 7 && sq % 8 <= 7) by (nonlinear_arith)
                requires
                    sq < 64,
            ;
        }
        let rank = sq / 8;
        let file = sq % 8;
        let rr: u8 = if rank <= 3 {
            rank
        } else {
            7 - rank
        };
        let ff: u8 = if file <= 3 {
            file
        } else {
            7 - file
        };
        (if rr <= ff {
            rr as i16
        } else {
            ff as i16
        }) + 1
    }

    /// Score a position for its side to move.
    #[verifier::loop_isolation(false)]
    pub fn evaluate(game: &Position) -> (r: i16)
        ensures
            r == simple_eval(game.b()),
            Evaluation::MIN <= r <= Evaluation::MAX,
    {
        let status = game.status();
        match status {
            crate::game::BoardStatus::Stalemate => 0,
            crate::game::BoardStatus::Checkmate => Evaluation::MIN,
            crate::game::BoardStatus::Ongoing => {
                let stm_white = game.side_to_move().is_white_exec();
                let mut acc: i16 = 0;
                let mut sq: u8 = 0;
                while sq < 64
                    invariant
                        sq <= 64,
                        acc == simple_sum(game.b(), sq as int),
                        -94 * sq <= acc <= 94 * sq,
                        stm_white == crate::game::white_to_move(game.b()),
                    decreases 64 - sq,
                {
                    match game.color_on(sq) {
                        Option::None => {
                            assert(simple_square_term(game.b(), sq as int) == 0);
                        },
                        Option::Some(c) => {
                            match game.piece_on(sq) {
                                Option::None => {
                                    proof {
                                        assert(false);
                                    }
                                },
                                Option::Some(p) => {
                                    let t = Self::piece_value(p) + Self::square_value(sq);
                                    if c.is_white_exec() == stm_white {
                                        acc = acc + t;
                                    } else {
                                        acc = acc - t;
                                    }
                                },
                            }
                        },
                    }
                    sq = sq + 1;
                }
                proof {
                    lemma_simple_sum_bound(game.b(), 64);
                }
                acc
            },
        }
    }
}

} // verus!
