//! The flat addressing of the tunable evaluation constants, and the
//! evaluator built over them.

use rad1::tuning::{EvaluationConfig, EvaluationConstants, PositionEvaluator};
use rad1::{Piece, Position};

#[test]
fn test_index_mut() {
    let mut constants = EvaluationConstants::default();
    for i in 0..constants.size() {
        constants.set(i, i as i16);
    }
    for i in 0..constants.size() {
        assert_eq!(constants.get(i), i as i16);
    }
}

#[test]
fn config_flat_addressing() {
    let mut config = EvaluationConfig::default();
    assert_eq!(config.size(), 782);
    for i in 0..config.size() {
        config.set(i, (i % 100) as i16);
    }
    for i in 0..config.size() {
        assert_eq!(config.get(i), (i % 100) as i16);
    }
    assert_eq!(config.opening_weight, 0);
    assert_eq!(config.endgame_weight, 1);
}

#[test]
fn zero_constants_evaluate_to_zero() {
    let constants = EvaluationConstants::default();
    let position = Position::default();
    assert_eq!(constants.evaluate(&position), 0);
}

#[test]
fn piece_scores_scale_with_counts() {
    let mut constants = EvaluationConstants::default();
    // Flat entry 0 is the pawn's material value, 4 the queen's.
    constants.set(0, 10);
    constants.set(4, 90);
    assert_eq!(constants.piece_value(Piece::Pawn), 10);
    assert_eq!(constants.piece_value(Piece::Queen), 90);
    assert_eq!(constants.pawn_score(8, 6), 20);
    assert_eq!(constants.queen_score(1, 2), -90);
    assert_eq!(constants.piece_score(3, 3, Piece::Queen), 0);
}

#[test]
fn total_piece_score_sums_material() {
    let mut config = EvaluationConfig::default();
    config.set(2, 10);  // opening pawn value
    config.set(6, 90);  // opening queen value
    let evaluator = PositionEvaluator::new(config);
    // 16 pawns and 2 queens on the board.
    assert_eq!(evaluator.total_piece_score(16, 0, 0, 0, 2, 0), 16 * 10 + 2 * 90);
}
