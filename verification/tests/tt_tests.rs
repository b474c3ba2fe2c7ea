//! The two-tier transposition table's store and probe policies.

use rad1::node::NodeValue;
use rad1::square::{D2, D4, E2, E4};
use rad1::tt::TranspositionTable;
use rad1::{Move, Position};

#[test]
fn insert_new_value() {
    let mut tt = TranspositionTable::new(1000);
    let position = Position::default();
    tt.update_evaluation_and_best_move(
        &position,
        1,
        NodeValue::pv_node(50),
        Some(Move::new(E2, E4, None)),
    );
    let (eval, depth) = tt.get_evaluation_and_depth(&position).unwrap();
    assert_eq!(depth, 1);
    assert_eq!(eval, NodeValue::pv_node(50));

    let chess_move = tt.best_move(&position).unwrap();
    assert_eq!(chess_move, Move::new(E2, E4, None));
}

#[test]
fn update_shallow_hash() {
    let mut tt = TranspositionTable::new(1000);
    let position = Position::default();
    tt.update_evaluation_and_best_move(
        &position,
        1,
        NodeValue::pv_node(50),
        Some(Move::new(E2, E4, None)),
    );

    tt.update_evaluation_and_best_move(
        &position,
        8,
        NodeValue::pv_node(100),
        Some(Move::new(D2, D4, None)),
    );
    let (eval, depth) = tt.get_evaluation_and_depth(&position).unwrap();
    assert_eq!(depth, 1);
    assert_eq!(eval, NodeValue::pv_node(50));

    let chess_move = tt.best_move(&position).unwrap();
    assert_eq!(chess_move, Move::new(D2, D4, None));
}

#[test]
fn update_deep_hash() {
    let mut tt = TranspositionTable::new(1000);
    let position = Position::default();
    tt.update_evaluation_and_best_move(
        &position,
        1,
        NodeValue::pv_node(50),
        Some(Move::new(E2, E4, None)),
    );

    tt.update_evaluation_and_best_move(
        &position,
        0,
        NodeValue::pv_node(100),
        Some(Move::new(D2, D4, None)),
    );
    let (eval, depth) = tt.get_evaluation_and_depth(&position).unwrap();
    assert_eq!(depth, 0);
    assert_eq!(eval, NodeValue::pv_node(100));

    let chess_move = tt.best_move(&position).unwrap();
    assert_eq!(chess_move, Move::new(E2, E4, None));
}

#[test]
fn miss_on_unseen_position() {
    let tt = TranspositionTable::new(1000);
    let position = Position::default();
    assert!(tt.get_evaluation_and_depth(&position).is_none());
    assert!(tt.best_move(&position).is_none());
}

#[test]
fn store_without_move_stays_invisible() {
    // A store that carries no best move leaves the slot's zero move code
    // in place, and a probe refuses entries without one.
    let mut tt = TranspositionTable::new(1000);
    let position = Position::default();
    tt.update_evaluation_and_best_move(&position, 3, NodeValue::cut_node(7), None);
    assert!(tt.get_evaluation_and_depth(&position).is_none());
    assert!(tt.best_move(&position).is_none());
}

#[test]
fn store_keeps_previous_move_when_none_given() {
    let mut tt = TranspositionTable::new(1000);
    let position = Position::default();
    tt.update_evaluation_and_best_move(
        &position,
        1,
        NodeValue::pv_node(50),
        Some(Move::new(E2, E4, None)),
    );
    // A later, deeper store without a move keeps the shallow slot's move.
    tt.update_evaluation_and_best_move(&position, 5, NodeValue::all_node(-20), None);
    let (eval, depth) = tt.get_evaluation_and_depth(&position).unwrap();
    assert_eq!(depth, 1);
    assert_eq!(eval, NodeValue::pv_node(50));
    assert_eq!(tt.best_move(&position).unwrap(), Move::new(E2, E4, None));
}
