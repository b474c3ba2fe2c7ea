//! An agent that plays a uniformly random legal move.

use vstd::prelude::*;
use crate::game::{Action, ChessGame};

verus! {

/// The random agent: no state; each call draws a fresh move.
pub struct RandomChessAgent {}

impl RandomChessAgent {
    /// Relies on `rand::Rng::gen_range` over `rand::thread_rng`: some
    /// value below the bound; nothing more is known of it.
    #[verifier::external_body]
    fn random_below(n: usize) -> (r: usize)
        requires
            n >= 1,
        ensures
            r < n,
    {
        rand::Rng::gen_range(&mut rand::thread_rng(), 0..n)
    }
}

impl Default for RandomChessAgent {
    fn default() -> (r: RandomChessAgent)
    {
        RandomChessAgent {  }
    }
}

impl crate::agent::ChessAgent for RandomChessAgent {
    open spec fn inv(&self) -> bool {
        true
    }

    /// The random agent always answers with a move.
    fn get_action(&mut self, game: &ChessGame) -> (r: Action)
        ensures
            r is MakeMove,
            r matches Action::MakeMove(m) ==> m.wf() && crate::game::legal_codes(
                crate::game::game_board(game.g()),
            ).contains(m.code()),
    {
        let position = game.current_position();
        let _status = position.status();
        let moves = position.legal_moves();
        let index = Self::random_below(moves.len());
        proof {
            assert(moves@[index as int].wf());
        }
        Action::MakeMove(moves[index])
    }
}

} // verus!
