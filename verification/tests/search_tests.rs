//! The search end to end: mates found, stalemates avoided, deterministic
//! answers, and agreement with a plain negamax oracle.

use rad1::agent::ab::AlphaBetaChessAgent;
use rad1::agent::{alpha_beta_agent, random_chess_agent, ChessAgent};
use rad1::eval::naive::NaiveEvaluator;
use rad1::eval::{MAX_EVAL, MIN_EVAL};
use rad1::square::{A1, B2, E1, E8};
use rad1::tt::TranspositionTable;
use rad1::{Action, BoardStatus, ChessGame, Move, Position};

fn engine_move(fen: &str, depth: u8) -> Move {
    let position = Position::from_fen(fen).expect("readable position");
    let mut engine = alpha_beta_agent(depth, TranspositionTable::new(1 << 14));
    match engine.best_action(&position) {
        Action::MakeMove(m) => m,
        other => panic!("the engine must move, got {:?}", other),
    }
}

#[test]
fn mate_in_one_is_found() {
    // A back-rank mate: the rook lands on e8 and the pawns seal the king.
    let fen = "6k1/5ppp/8/8/8/8/5PPP/4R1K1 w - - 0 1";
    for depth in 1..4 {
        let position = Position::from_fen(fen).unwrap();
        let m = engine_move(fen, depth);
        assert!(position.legal(m));
        let after = position.make_move_new(m);
        assert_eq!(after.status(), BoardStatus::Checkmate);
        assert_eq!(m, Move::new(E1, E8, None));
    }
}

#[test]
fn opening_move_is_legal() {
    let fen = "rnbqkbnr/pppppppp/8/8/8/8/PPPPPPPP/RNBQKBNR w KQkq - 0 1";
    let position = Position::from_fen(fen).unwrap();
    let m = engine_move(fen, 4);
    assert!(position.legal(m));
    let after = position.make_move_new(m);
    assert!(!after.side_to_move().is_white_exec());
}

#[test]
fn black_mates_with_the_queen() {
    // The queen drops to g2, guarded by its king, and mates the cornered
    // white king.
    let fen = "8/8/8/8/6q1/6k1/8/7K b - - 0 1";
    let position = Position::from_fen(fen).expect("readable position");
    let m = engine_move(fen, 2);
    assert!(position.legal(m));
    let after = position.make_move_new(m);
    assert_eq!(after.status(), BoardStatus::Checkmate);
}

#[test]
fn stalemate_trap_is_avoided() {
    // g5f6 would stalemate Black; g5g7 mates. The engine must not pick a
    // stalemating move.
    let fen = "7k/8/6K1/6Q1/8/8/8/8 w - - 0 1";
    let position = Position::from_fen(fen).unwrap();
    let m = engine_move(fen, 2);
    assert!(position.legal(m));
    let after = position.make_move_new(m);
    assert_ne!(after.status(), BoardStatus::Stalemate);
    assert_eq!(after.status(), BoardStatus::Checkmate);
}

#[test]
fn check_evasion_with_null_move_depths() {
    // White stands in check, where the null move is illegal; at depths
    // where null-move pruning is armed the engine must still answer the
    // one legal evasion, the king's capture of the queen.
    let fen = "k7/8/8/8/8/8/1q6/K7 w - - 0 1";
    let position = Position::from_fen(fen).unwrap();
    assert!(position.in_check());
    for depth in 3..5 {
        let m = engine_move(fen, depth);
        assert!(position.legal(m));
        assert_eq!(m, Move::new(A1, B2, None));
    }
}

#[test]
fn shallow_depths_terminate_with_legal_moves() {
    let fen = "rnbqkbnr/pppppppp/8/8/8/8/PPPPPPPP/RNBQKBNR w KQkq - 0 1";
    let position = Position::from_fen(fen).unwrap();
    for depth in 1..3 {
        let m = engine_move(fen, depth);
        assert!(position.legal(m));
    }
}

#[test]
fn deepening_twice_is_idempotent() {
    let fen = "r1bqkbnr/pppp1ppp/2n5/4p3/4P3/5N2/PPPP1PPP/RNBQKB1R w KQkq - 2 3";
    let first = engine_move(fen, 3);
    let second = engine_move(fen, 3);
    assert_eq!(first, second);
}

#[test]
fn replay_on_same_table_gives_same_move() {
    let game = ChessGame::new();
    let mut engine = alpha_beta_agent(3, TranspositionTable::new(1 << 14));
    let first = engine.get_action(&game);
    let second = engine.get_action(&game);
    assert_eq!(first, second);
}

#[test]
fn search_agrees_with_plain_negamax() {
    // With the check extension off and the null move dormant below depth
    // 3, the table-backed principal-variation search must score the root
    // exactly as the plain negamax oracle does.
    let fens = [
        "rnbqkbnr/pppppppp/8/8/8/8/PPPPPPPP/RNBQKBNR w KQkq - 0 1",
        "r1bqkbnr/pppp1ppp/2n5/4p3/4P3/5N2/PPPP1PPP/RNBQKB1R w KQkq - 2 3",
        "8/8/8/8/6q1/6k1/8/7K b - - 0 1",
    ];
    let evaluator = NaiveEvaluator;
    for fen in fens {
        let position = Position::from_fen(fen).unwrap();
        for depth in 0..3 {
            let mut tt = TranspositionTable::new(1 << 14);
            let searched = AlphaBetaChessAgent::<NaiveEvaluator>::alpha_beta(
                &evaluator,
                &mut tt,
                &position,
                depth,
                MIN_EVAL,
                MAX_EVAL,
                false,
            );
            let plain = AlphaBetaChessAgent::<NaiveEvaluator>::null_alpha_beta(
                &evaluator,
                &position,
                depth,
                MIN_EVAL,
                MAX_EVAL,
            );
            assert_eq!(searched, plain, "depth {} of {}", depth, fen);
        }
    }
}

#[test]
fn random_agent_moves_legally() {
    let game = ChessGame::new();
    let mut agent = random_chess_agent();
    for _ in 0..16 {
        match agent.get_action(&game) {
            Action::MakeMove(m) => {
                assert!(game.current_position().legal(m));
            },
            other => panic!("the random agent always moves, got {:?}", other),
        }
    }
}

#[test]
fn referee_plays_engine_against_engine() {
    let command = rad1::command::play();
    let mut game = command
        .start("6k1/5ppp/8/8/8/8/5PPP/4R1K1 w - - 0 1")
        .expect("readable position");
    let mut white = alpha_beta_agent(2, TranspositionTable::new(1 << 14));
    let mut black = alpha_beta_agent(2, TranspositionTable::new(1 << 14));
    let result = command.play_turn(&mut white, &mut black, &mut game);
    assert_eq!(result, Some(rad1::GameResult::WhiteCheckmates));
    // A finished game is left untouched; the result just repeats.
    let again = command.play_turn(&mut white, &mut black, &mut game);
    assert_eq!(again, Some(rad1::GameResult::WhiteCheckmates));
}

#[test]
fn referee_reports_no_result_midgame() {
    let command = rad1::command::play();
    let mut game = rad1::ChessGame::default();
    let mut white = alpha_beta_agent(1, TranspositionTable::new(1 << 12));
    let mut black = alpha_beta_agent(1, TranspositionTable::new(1 << 12));
    for _ in 0..4 {
        let result = command.play_turn(&mut white, &mut black, &mut game);
        assert!(result.is_none());
    }
    assert!(command.start("not a fen").is_none());
}

#[test]
fn analyze_run_parses_and_searches() {
    let command = rad1::command::analyze();
    let m = command.run("6k1/5ppp/8/8/8/8/5PPP/4R1K1 w - - 0 1", 2, 1 << 14);
    assert_eq!(m, Some(Move::new(E1, E8, None)));
    assert_eq!(command.run("broken fen", 2, 1 << 14), None);
}

#[test]
fn analyze_command_reports_the_mate() {
    let command = rad1::command::analyze();
    let position = Position::from_fen("6k1/5ppp/8/8/8/8/5PPP/4R1K1 w - - 0 1").unwrap();
    let m = command.best_move(&position, 2, 1 << 14).unwrap();
    assert_eq!(m, Move::new(E1, E8, None));
    // A finished game has no move to report.
    let mated = position.make_move_new(m);
    assert!(command.best_move(&mated, 2, 1 << 14).is_none());
}
