//! The agents: given a game, produce an action.

use vstd::prelude::*;
use crate::game::{game_board, legal_codes, status_of, Action, ChessGame};
use crate::tt::TranspositionTable;

pub mod ab;
pub mod cli;
pub mod random;

verus! {

/// A chess agent decides what [`Action`] to take in the current state of
/// a game. Chess is a perfect-information game, so the current state is
/// all an agent needs; an agent may still keep state of its own, such as
/// a transposition table.
pub trait ChessAgent {
    /// What the agent needs of its own state to act; its methods keep it.
    spec fn inv(&self) -> bool;

    /// Decide an action for the game as it stands. Any move the agent
    /// answers with is legal in the game's current position.
    fn get_action(&mut self, game: &ChessGame) -> (r: Action)
        requires
            old(self).inv(),
            status_of(game_board(game.g())) == 0,
        ensures
            final(self).inv(),
            r matches Action::MakeMove(m) ==> m.wf() && legal_codes(game_board(game.g())).contains(
                m.code(),
            ),
    ;
}

/// An agent that plays a uniformly random legal move: a control for
/// manual testing.
pub fn random_chess_agent() -> (r: random::RandomChessAgent)
{
    random::RandomChessAgent {  }
}

/// An agent that reads its moves from a human: the pure parsing and
/// validation half lives here, the terminal loop around it does not.
pub fn command_line_agent() -> (r: cli::CommandLineAgent)
{
    cli::CommandLineAgent {  }
}

/// The engine's main agent: iterative-deepening alpha-beta search over
/// the given transposition table, with the naive evaluator.
pub fn alpha_beta_agent(depth: u8, tt: TranspositionTable) -> (r: ab::AlphaBetaChessAgent<
    crate::eval::naive::NaiveEvaluator,
>)
    requires
        1 <= depth < 255,
        tt.wf(),
    ensures
        r.wf(),
        r.table() == tt,
        r.depth_spec() == depth,
        r.evaluator_spec() == (crate::eval::naive::NaiveEvaluator {  }),
{
    ab::AlphaBetaChessAgent::new(depth, tt, crate::eval::naive_evaluator())
}

} // verus!
