//! The position wrappers, the move sorter, the Zobrist hasher and the
//! input parsing.

use rad1::agent::cli::{CommandLineAgent, MoveResponse};
use rad1::hash::{ChessHasher, RandomNumberGenerator};
use rad1::move_sorter::MoveSorter;
use rad1::square::{A2, A4, D2, D4, E1, E2, E4, E7, E8, F7, G1, G8};
use rad1::{Action, BoardStatus, ChessGame, Color, GameResult, Move, Piece, Position};

#[test]
fn twenty_openings() {
    let position = Position::default();
    assert_eq!(position.legal_moves().len(), 20);
    assert_eq!(position.sorted_moves(None).len(), 20);
    assert_eq!(position.sorted_captures().len(), 0);
}

#[test]
fn start_position_facts() {
    let position = Position::default();
    assert!(!position.in_check());
    assert_eq!(position.status(), BoardStatus::Ongoing);
    assert_eq!(position.side_to_move(), Color::White);
    assert!(position.legal(Move::new(E2, E4, None)));
    assert!(!position.legal(Move::new(E2, E8, None)));
    assert!(position.null_move().is_some());
}

#[test]
fn null_move_refused_in_check() {
    // White to move, in check from the queen on b2.
    let position = Position::from_fen("k7/8/8/8/8/8/1q6/K7 w - - 0 1").unwrap();
    assert!(position.in_check());
    assert!(position.null_move().is_none());
}

#[test]
fn from_fen_rejects_garbage() {
    assert!(Position::from_fen("not a position").is_none());
    assert!(ChessGame::from_fen("8/8/8").is_none());
}

#[test]
fn sorted_moves_put_hint_first() {
    let position = Position::default();
    let hint = Move::new(D2, D4, None);
    let moves = position.sorted_moves(Some(hint));
    assert_eq!(moves[0], hint);
    assert_eq!(moves.len(), 20);
    assert_eq!(moves.iter().filter(|m| **m == hint).count(), 1);
}

#[test]
fn sorted_moves_ignore_illegal_hint() {
    let position = Position::default();
    let moves = position.sorted_moves(Some(Move::new(E2, E8, None)));
    assert_eq!(moves.len(), 20);
}

#[test]
fn captures_sorted_cheapest_attacker_first() {
    // Both the pawn on e4 and the knight on c3 can take the pawn on d5;
    // the pawn capture must sort before the knight capture.
    let position =
        Position::from_fen("rnbqkbnr/ppp1pppp/8/3p4/4P3/2N5/PPPP1PPP/R1BQKBNR w KQkq - 0 1")
            .unwrap();
    let captures = position.sorted_captures();
    assert_eq!(captures.len(), 2);
    assert_eq!(captures[0].source, rad1::square::E4);
    assert_eq!(captures[1].source, rad1::square::C3);
}

#[test]
fn hasher_update_matches_full_hash() {
    let hasher = ChessHasher::default();
    let before = Position::default();
    for m in before.legal_moves() {
        let after = before.make_move_new(m);
        let incremental = hasher.update_hash(hasher.hash(&before), &before, &after);
        assert_eq!(incremental, hasher.hash(&after));
    }
}

#[test]
fn hasher_color_flip_is_involutive() {
    let hasher = ChessHasher::default();
    let h = hasher.hash(&Position::default());
    assert_ne!(hasher.update_color_hash(h), h);
    assert_eq!(hasher.update_color_hash(hasher.update_color_hash(h)), h);
}

#[test]
fn hasher_is_deterministic() {
    let a = ChessHasher::default();
    let b = ChessHasher::default();
    let position = Position::default();
    assert_eq!(a.hash(&position), b.hash(&position));
}

#[test]
fn generator_is_deterministic() {
    let mut a = RandomNumberGenerator::new(101);
    let mut b = RandomNumberGenerator::new(101);
    for _ in 0..32 {
        assert_eq!(a.next_value(), b.next_value());
    }
}

#[test]
fn positions_hash_apart() {
    let start = Position::default();
    let moved = start.make_move_new(Move::new(E2, E4, None));
    assert_ne!(start.get_hash(), moved.get_hash());
}

#[test]
fn parse_long_algebraic() {
    assert_eq!(CommandLineAgent::parse_move(b"e2e4"), Some(Move::new(E2, E4, None)));
    assert_eq!(CommandLineAgent::parse_move(b"a2a4"), Some(Move::new(A2, A4, None)));
    assert_eq!(
        CommandLineAgent::parse_move(b"e7e8q"),
        Some(Move::new(E7, E8, Some(Piece::Queen))),
    );
    assert_eq!(
        CommandLineAgent::parse_move(b"e7e8n"),
        Some(Move::new(E7, E8, Some(Piece::Knight))),
    );
    assert_eq!(CommandLineAgent::parse_move(b"e9e4"), None);
    assert_eq!(CommandLineAgent::parse_move(b"i2i4"), None);
    assert_eq!(CommandLineAgent::parse_move(b"e7e8k"), None);
    assert_eq!(CommandLineAgent::parse_move(b"resign"), None);
    assert_eq!(CommandLineAgent::parse_move(b""), None);
}

#[test]
fn respond_to_input_lines() {
    let position = Position::default();
    assert_eq!(
        CommandLineAgent::respond(&position, b"e2e4"),
        MoveResponse::Play(Move::new(E2, E4, None)),
    );
    assert_eq!(CommandLineAgent::respond(&position, b"resign"), MoveResponse::Resign);
    // Legal format, illegal move: ask again.
    assert_eq!(CommandLineAgent::respond(&position, b"e2e5"), MoveResponse::TryAgain);
    assert_eq!(CommandLineAgent::respond(&position, b"nonsense"), MoveResponse::TryAgain);
}

#[test]
fn game_actions_and_result() {
    let mut game = ChessGame::new();
    assert!(game.result().is_none());
    assert_eq!(game.side_to_move(), Color::White);
    game.take_action(Action::MakeMove(Move::new(rad1::square::F2, rad1::square::F3, None)));
    game.take_action(Action::MakeMove(Move::new(E7, rad1::square::E5, None)));
    game.take_action(Action::MakeMove(Move::new(rad1::square::G2, rad1::square::G4, None)));
    game.take_action(Action::MakeMove(Move::new(rad1::square::D8, rad1::square::H4, None)));
    assert_eq!(game.result(), Some(GameResult::BlackCheckmates));
    assert_eq!(game.current_position().status(), BoardStatus::Checkmate);
}

#[test]
fn game_resignation() {
    let mut game = ChessGame::new();
    game.take_action(Action::Resign(Color::White));
    assert_eq!(game.result(), Some(GameResult::WhiteResigns));
}

#[test]
fn evaluation_bounds() {
    assert_eq!(ChessGame::min_evaluation(), -30000);
    assert_eq!(ChessGame::max_evaluation(), 30000);
}

#[test]
fn piece_glyphs() {
    assert_eq!(rad1::command::get_piece_char(Some(Color::White), Some(Piece::King)), "\u{2654}");
    assert_eq!(rad1::command::get_piece_char(Some(Color::Black), Some(Piece::Pawn)), "\u{265f}");
    assert_eq!(rad1::command::get_piece_char(None, None), " ");
    assert_eq!(rad1::command::clamp_depth(0), 1);
    assert_eq!(rad1::command::clamp_depth(8), 8);
    assert_eq!(rad1::command::clamp_depth(40), 10);
}

#[test]
fn castling_changes_rights_hash() {
    // After the white king castles short, White's castle rights are gone;
    // the full hash and the incremental update must agree on the change.
    let before =
        Position::from_fen("r3k2r/pppppppp/8/8/8/8/PPPPPPPP/R3K2R w KQkq - 0 1").unwrap();
    let after = before.make_move_new(Move::new(E1, G1, None));
    let hasher = ChessHasher::default();
    let incremental = hasher.update_hash(hasher.hash(&before), &before, &after);
    assert_eq!(incremental, hasher.hash(&after));
}

#[test]
fn unused_square_names_exist() {
    // A handful of the square constants, pinned to their indices.
    assert_eq!(rad1::square::A1 as usize, 0);
    assert_eq!(E1 as usize, 4);
    assert_eq!(G8 as usize, 62);
    assert_eq!(F7 as usize, 53);
}
