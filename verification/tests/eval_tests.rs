//! The static evaluators: balanced at the start, and leaning to the
//! mover's opponent right after White gains ground with 1. e4.

use rad1::eval::naive::NaiveEvaluator;
use rad1::eval::{Evaluation, Evaluator};
use rad1::square::{E2, E4};
use rad1::{Move, Position};

#[test]
fn naive_initial_board_eval() {
    let board = Position::default();
    let evaluator = NaiveEvaluator;
    let evaluation = evaluator.evaluate(&board);
    assert_eq!(evaluation, 0);
}

#[test]
fn naive_e4_black_turn_eval() {
    let board = Position::default();
    let chess_move = Move::new(E2, E4, None);
    let board = board.make_move_new(chess_move);
    let evaluator = NaiveEvaluator;
    let evaluation = evaluator.evaluate(&board);
    assert_eq!(evaluation, -3);
}

#[test]
fn eval_initial_board_eval() {
    let game = Position::default();
    let evaluation = Evaluation::evaluate(&game);
    assert_eq!(evaluation, 0);
}

#[test]
fn eval_e4_black_turn_eval() {
    let game = Position::default();
    let chess_move = Move::new(E2, E4, None);
    let game = game.make_move_new(chess_move);
    let evaluation = Evaluation::evaluate(&game);
    assert_eq!(evaluation, -2);
}

#[test]
fn evaluator_bounds_on_mate() {
    // A checkmated side to move scores the minimum.
    let position = Position::from_fen("6k1/5ppp/8/8/8/8/5PPP/4R1K1 w - - 0 1").unwrap();
    let mated = position.make_move_new(Move::new(rad1::square::E1, rad1::square::E8, None));
    let evaluator = NaiveEvaluator;
    assert_eq!(evaluator.evaluate(&mated), rad1::eval::MIN_EVAL);
}

#[test]
fn position_evaluate_matches_naive() {
    let position = Position::default();
    let evaluator = NaiveEvaluator;
    assert_eq!(position.evaluate(), evaluator.evaluate(&position));
}
