//! The engine's two commands, minus their terminal plumbing.
//!
//! Parsing arguments, reading stdin and painting the board are outside
//! work; what lives here is what the commands decide: the analyze
//! command's search entry, the depth clamp, and which glyph a square's
//! piece prints as.

use vstd::prelude::*;
use crate::agent;
use crate::game::{
    game_after_action, game_board, game_result_code, legal_codes, parsed_fen, result_of_code,
    status_of, Action, Color, Move, Piece, Position,
};
use crate::tt::TranspositionTable;

verus! {

/// The depth the commands search to: the asked-for depth clamped into 1
/// through 10.
pub open spec fn clamp_depth_spec(depth: u8) -> u8 {
    if depth < 1 {
        1
    } else if depth > 10 {
        10
    } else {
        depth
    }
}

/// The search depth the commands accept: clamped into 1 through 10.
pub fn clamp_depth(depth: u8) -> (r: u8)
    ensures
        r == clamp_depth_spec(depth),
        1 <= r <= 10,
        1 <= depth <= 10 ==> r == depth,
{
    if depth < 1 {
        1
    } else if depth > 10 {
        10
    } else {
        depth
    }
}

/// The move the analyze command reports for an ongoing board: the head
/// of the move ordering under the table that the iterative deepening to
/// the clamped depth leaves behind, starting from a fresh table with one
/// slot pair per two entries of the cache size.
pub open spec fn analysis_move_spec(
    b: chess::Board,
    depth: u8,
    cache_size: usize,
    fuel: nat,
) -> Move {
    let n = cache_size as int / 2;
    let fresh_deep = Seq::new(n as nat, |k: int| crate::tt::initial_deep());
    let fresh_shallow = Seq::new(n as nat, |k: int| crate::tt::initial_shallow());
    let tabs = crate::agent::ab::deepen_spec(
        (crate::eval::naive::NaiveEvaluator {  }),
        fresh_deep,
        fresh_shallow,
        n,
        b,
        1,
        clamp_depth_spec(depth),
        fuel,
    );
    crate::move_sorter::ordered_spec(
        b,
        crate::agent::ab::hint_of(
            tabs.0,
            tabs.1,
            crate::agent::ab::slot_at(n, crate::game::zobrist_key(b)),
            crate::game::zobrist_key(b),
        ),
    )[0]
}

/// Analyze a single position: search it and report the best move.
pub struct AnalyzeCommand {}

impl AnalyzeCommand {
    /// Search a position to the clamped depth over a fresh table of the
    /// given size, and hand back the engine's move; `None` when the game
    /// there is already over.
    pub fn best_move(&self, position: &Position, depth: u8, cache_size: usize) -> (r: Option<
        Move,
    >)
        requires
            cache_size >= 2,
        ensures
            status_of(position.b()) == 0 ==> (r matches Some(m) && m.wf() && legal_codes(
                position.b(),
            ).contains(m.code())),
            status_of(position.b()) != 0 ==> r is None,
            status_of(position.b()) == 0 ==> forall|fuel: nat|
                fuel > crate::game::piece_total(position.b()) ==> r == Option::Some(
                    #[trigger] analysis_move_spec(position.b(), depth, cache_size, fuel),
                ),
    {
        let ghost b = position.b();
        let status = position.status();
        match status {
            crate::game::BoardStatus::Ongoing => {
                let mut engine = agent::alpha_beta_agent(
                    clamp_depth(depth),
                    TranspositionTable::new(cache_size),
                );
                let ghost tt0 = engine.table();
                let ghost n = cache_size as int / 2;
                proof {
                    assert(tt0.deep_entries() =~= Seq::new(
                        n as nat,
                        |k: int| crate::tt::initial_deep(),
                    ));
                    assert(tt0.shallow_entries() =~= Seq::new(
                        n as nat,
                        |k: int| crate::tt::initial_shallow(),
                    ));
                }
                match engine.best_action(position) {
                    Action::MakeMove(m) => {
                        proof {
                            assert forall|fuel: nat|
                                fuel > crate::game::piece_total(b) implies Option::Some(m)
                                == Option::Some(
                                #[trigger] analysis_move_spec(b, depth, cache_size, fuel),
                            ) by {
                                assert(crate::agent::ab::deepen_agrees(
                                    (crate::eval::naive::NaiveEvaluator {  }),
                                    tt0.deep_entries(),
                                    tt0.shallow_entries(),
                                    n,
                                    b,
                                    clamp_depth_spec(depth),
                                    fuel,
                                    engine.table().deep_entries(),
                                    engine.table().shallow_entries(),
                                ));
                                assert(engine.table().slot_of(crate::game::zobrist_key(b))
                                    == crate::agent::ab::slot_at(n, crate::game::zobrist_key(b)));
                            }
                        }
                        Option::Some(m)
                    },
                    _ => {
                        proof {
                            assert(false);
                        }
                        Option::None
                    },
                }
            },
            _ => Option::None,
        }
    }

    /// Parse a position and search it: the analyze command's whole
    /// decision, between reading the arguments and printing the move.
    /// It answers a move exactly when the string parses to an ongoing
    /// position, and that move is legal there.
    pub fn run(&self, fen: &str, depth: u8, cache_size: usize) -> (r: Option<Move>)
        requires
            cache_size >= 2,
        ensures
            r is Some <==> (parsed_fen(fen@) matches Some(b) && status_of(b) == 0),
            r matches Some(m) ==> (parsed_fen(fen@) matches Some(b) && m.wf() && legal_codes(
                b,
            ).contains(m.code())),
            (parsed_fen(fen@) matches Some(b) && status_of(b) == 0) ==> forall|fuel: nat|
                fuel > crate::game::piece_total(parsed_fen(fen@)->0) ==> r == Option::Some(
                    #[trigger] analysis_move_spec(parsed_fen(fen@)->0, depth, cache_size, fuel),
                ),
    {
        match Position::from_fen(fen) {
            Option::Some(position) => self.best_move(&position, depth, cache_size),
            Option::None => Option::None,
        }
    }
}

/// Play against the engine from a terminal; the loop itself is outside
/// work, the pieces' glyphs are decided here.
pub struct PlayCommand {}

impl PlayCommand {
    /// Start a game from a FEN position, `None` exactly on a malformed
    /// string.
    pub fn start(&self, fen: &str) -> (r: Option<crate::game::ChessGame>)
        ensures
            r matches Some(g) ==> parsed_fen(fen@) == Option::Some(game_board(g.g())),
            r is None <==> parsed_fen(fen@) is None,
    {
        crate::game::ChessGame::from_fen(fen)
    }

    /// One turn of a game between two agents: ask the side to move for
    /// its action, apply it, and report the game's result so far. A
    /// finished game is left untouched and its result repeated — so a
    /// loop around this needs no logic of its own beyond stopping on
    /// `Some`.
    pub fn play_turn<W: agent::ChessAgent, B: agent::ChessAgent>(
        &self,
        white_player: &mut W,
        black_player: &mut B,
        game: &mut crate::game::ChessGame,
    ) -> (r: Option<crate::game::GameResult>)
        requires
            old(white_player).inv(),
            old(black_player).inv(),
        ensures
            final(white_player).inv(),
            final(black_player).inv(),
            result_of_code(game_result_code(old(game).g())) matches Some(result) ==> r
                == Option::Some(result) && final(game).g() == old(game).g(),
            result_of_code(game_result_code(old(game).g())) is None ==> (exists|a: Action|
                final(game).g() == #[trigger] game_after_action(old(game).g(), a) && (a matches
                    Action::MakeMove(m) ==> m.wf() && legal_codes(
                    game_board(old(game).g()),
                ).contains(m.code()))) && r == result_of_code(game_result_code(final(game).g())),
    {
        match game.result() {
            Option::Some(result) => Option::Some(result),
            Option::None => {
                let position = game.current_position();
                let action = match position.side_to_move() {
                    Color::White => white_player.get_action(game),
                    Color::Black => black_player.get_action(game),
                };
                game.take_action(action);
                proof {
                    assert(game.g() == game_after_action(old(game).g(), action));
                }
                game.result()
            },
        }
    }
}

/// The glyph a square prints as, by its piece and color.
pub open spec fn piece_char_spec(color: Option<Color>, piece: Option<Piece>) -> Seq<char> {
    match (color, piece) {
        (Option::Some(Color::White), Option::Some(Piece::Pawn)) => "♙"@,
        (Option::Some(Color::White), Option::Some(Piece::Knight)) => "♘"@,
        (Option::Some(Color::White), Option::Some(Piece::Bishop)) => "♗"@,
        (Option::Some(Color::White), Option::Some(Piece::Rook)) => "♖"@,
        (Option::Some(Color::White), Option::Some(Piece::Queen)) => "♕"@,
        (Option::Some(Color::White), Option::Some(Piece::King)) => "♔"@,
        (Option::Some(Color::Black), Option::Some(Piece::Pawn)) => "♟"@,
        (Option::Some(Color::Black), Option::Some(Piece::Knight)) => "♞"@,
        (Option::Some(Color::Black), Option::Some(Piece::Bishop)) => "♝"@,
        (Option::Some(Color::Black), Option::Some(Piece::Rook)) => "♜"@,
        (Option::Some(Color::Black), Option::Some(Piece::Queen)) => "♛"@,
        (Option::Some(Color::Black), Option::Some(Piece::King)) => "♚"@,
        (_, _) => " "@,
    }
}

/// The glyph a square prints as.
pub fn get_piece_char(color: Option<Color>, piece: Option<Piece>) -> (r: &'static str)
    ensures
        r@ == piece_char_spec(color, piece),
{
    match (color, piece) {
        (Option::Some(Color::White), Option::Some(Piece::Pawn)) => "♙",
        (Option::Some(Color::White), Option::Some(Piece::Knight)) => "♘",
        (Option::Some(Color::White), Option::Some(Piece::Bishop)) => "♗",
        (Option::Some(Color::White), Option::Some(Piece::Rook)) => "♖",
        (Option::Some(Color::White), Option::Some(Piece::Queen)) => "♕",
        (Option::Some(Color::White), Option::Some(Piece::King)) => "♔",
        (Option::Some(Color::Black), Option::Some(Piece::Pawn)) => "♟",
        (Option::Some(Color::Black), Option::Some(Piece::Knight)) => "♞",
        (Option::Some(Color::Black), Option::Some(Piece::Bishop)) => "♝",
        (Option::Some(Color::Black), Option::Some(Piece::Rook)) => "♜",
        (Option::Some(Color::Black), Option::Some(Piece::Queen)) => "♛",
        (Option::Some(Color::Black), Option::Some(Piece::King)) => "♚",
        (_, _) => " ",
    }
}

/// The analyze command.
pub fn analyze() -> (r: AnalyzeCommand)
{
    AnalyzeCommand {  }
}

/// The play command.
pub fn play() -> (r: PlayCommand)
{
    PlayCommand {  }
}

} // verus!
