//! The human player's agent: the pure half.
//!
//! Reading lines from a terminal is outside work; what this module owns
//! is the decision on one line of input — parse it as a long-algebraic
//! move, check it against the position, or recognize the resignation
//! keyword — so a thin loop elsewhere can prompt, read and hand each
//! line here until the answer is a move or a resignation.

use vstd::prelude::*;
use crate::game::{legal_codes, Move, Piece, Position};

verus! {

/// What one line of input leads to: a legal move to play, a resignation,
/// or another prompt.
#[derive(Clone, Copy, PartialEq, Eq, Debug)]
pub enum MoveResponse {
    Play(Move),
    Resign,
    TryAgain,
}

/// The resignation keyword, as bytes.
pub open spec fn resign_cmd() -> Seq<u8> {
    seq![114u8, 101u8, 115u8, 105u8, 103u8, 110u8]
}

/// Whether a byte pair names a square: a file letter `a` through `h` and
/// a rank digit `1` through `8`.
pub open spec fn square_bytes_ok(f: u8, r: u8) -> bool {
    97 <= f <= 104 && 49 <= r <= 56
}

/// The square index a file letter and rank digit name.
pub open spec fn square_of_bytes(f: u8, r: u8) -> int {
    (r - 49) * 8 + (f - 97)
}

/// The promotion piece a trailing letter names, if any.
pub open spec fn promotion_of_byte(c: u8) -> Option<Piece> {
    if c == 113 {
        Option::Some(Piece::Queen)
    } else if c == 114 {
        Option::Some(Piece::Rook)
    } else if c == 98 {
        Option::Some(Piece::Bishop)
    } else if c == 110 {
        Option::Some(Piece::Knight)
    } else {
        Option::None
    }
}

/// What a line of long-algebraic input parses to: `<from><to>` with an
/// optional promotion letter, as in `e2e4` or `e7e8q`; anything else is
/// nothing.
pub open spec fn parse_spec(s: Seq<u8>) -> Option<Move> {
    if s.len() == 4 && square_bytes_ok(s[0], s[1]) && square_bytes_ok(s[2], s[3]) {
        Option::Some(
            Move {
                source: square_of_bytes(s[0], s[1]) as u8,
                dest: square_of_bytes(s[2], s[3]) as u8,
                promotion: Option::None,
            },
        )
    } else if s.len() == 5 && square_bytes_ok(s[0], s[1]) && square_bytes_ok(s[2], s[3])
        && promotion_of_byte(s[4]) is Some {
        Option::Some(
            Move {
                source: square_of_bytes(s[0], s[1]) as u8,
                dest: square_of_bytes(s[2], s[3]) as u8,
                promotion: promotion_of_byte(s[4]),
            },
        )
    } else {
        Option::None
    }
}

/// What one line of input decides in a position: the resignation keyword
/// resigns; a parseable, legal move is played; anything else asks again.
pub open spec fn respond_spec(b: chess::Board, s: Seq<u8>) -> MoveResponse {
    if s == resign_cmd() {
        MoveResponse::Resign
    } else {
        match parse_spec(s) {
            Option::Some(m) => if legal_codes(b).contains(m.code()) {
                MoveResponse::Play(m)
            } else {
                MoveResponse::TryAgain
            },
            Option::None => MoveResponse::TryAgain,
        }
    }
}

/// The command-line agent: it holds no state; the terminal loop around
/// it prompts and reads, and this decides.
pub struct CommandLineAgent {}

impl Default for CommandLineAgent {
    fn default() -> (r: CommandLineAgent)
    {
        CommandLineAgent {  }
    }
}

impl CommandLineAgent {
    /// Parse a long-algebraic move from a trimmed input line.
    pub fn parse_move(input: &[u8]) -> (r: Option<Move>)
        ensures
            r == parse_spec(input@),
            r matches Some(m) ==> m.wf(),
    {
        if input.len() != 4 && input.len() != 5 {
            return Option::None;
        }
        let f0 = input[0];
        let r0 = input[1];
        let f1 = input[2];
        let r1 = input[3];
        if !(97 <= f0 && f0 <= 104 && 49 <= r0 && r0 <= 56) {
            return Option::None;
        }
        if !(97 <= f1 && f1 <= 104 && 49 <= r1 && r1 <= 56) {
            return Option::None;
        }
        let source = (r0 - 49) * 8 + (f0 - 97);
        let dest = (r1 - 49) * 8 + (f1 - 97);
        if input.len() == 4 {
            return Option::Some(Move { source, dest, promotion: Option::None });
        }
        let promotion = match input[4] {
            113 => Option::Some(Piece::Queen),
            114 => Option::Some(Piece::Rook),
            98 => Option::Some(Piece::Bishop),
            110 => Option::Some(Piece::Knight),
            _ => {
                return Option::None;
            },
        };
        Option::Some(Move { source, dest, promotion })
    }

    /// Whether a trimmed input line is the resignation keyword.
    fn is_resign(input: &[u8]) -> (r: bool)
        ensures
            r == (input@ == resign_cmd()),
    {
        if input.len() != 6 {
            proof {
                assert(input@ != resign_cmd());
            }
            return false;
        }
        let r = input[0] == 114 && input[1] == 101 && input[2] == 115 && input[3] == 105
            && input[4] == 103 && input[5] == 110;
        proof {
            if r {
                assert(input@ =~= resign_cmd());
            } else {
                assert(input@ != resign_cmd());
            }
        }
        r
    }

    /// Decide on one trimmed line of input for a position.
    pub fn respond(position: &Position, input: &[u8]) -> (r: MoveResponse)
        ensures
            r == respond_spec(position.b(), input@),
            r matches MoveResponse::Play(m) ==> m.wf() && legal_codes(position.b()).contains(
                m.code(),
            ),
    {
        if Self::is_resign(input) {
            return MoveResponse::Resign;
        }
        match Self::parse_move(input) {
            Option::Some(m) => {
                if position.legal(m) {
                    MoveResponse::Play(m)
                } else {
                    MoveResponse::TryAgain
                }
            },
            Option::None => MoveResponse::TryAgain,
        }
    }
}

} // verus!
