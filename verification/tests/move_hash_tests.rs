//! The 16-bit move encoding round-trips over every code.

use rad1::move_hash::{get_hash, get_move, HASH_SIZE};
use rad1::square::{A1, A7, A8, E2, E4};
use rad1::{Move, Piece};

#[test]
fn hash_test() {
    for i in 0..(HASH_SIZE) {
        let chess_move = get_move(i as u16);
        assert_eq!(get_hash(chess_move), i as u16);
    }
}

#[test]
fn encode_concrete_values() {
    // e2 is square 12, e4 is square 28: (12 * 64 + 28) * 5 = 3980.
    assert_eq!(get_hash(Move::new(E2, E4, None)), 3980);
    // a1a1 with no promotion is the zero code.
    assert_eq!(get_hash(Move::new(A1, A1, None)), 0);
    // A promotion adds its index: queen 1, knight 2, rook 3, bishop 4.
    let base = (A7 as u16 * 64 + A8 as u16) * 5;
    assert_eq!(get_hash(Move::new(A7, A8, Some(Piece::Queen))), base + 1);
    assert_eq!(get_hash(Move::new(A7, A8, Some(Piece::Knight))), base + 2);
    assert_eq!(get_hash(Move::new(A7, A8, Some(Piece::Rook))), base + 3);
    assert_eq!(get_hash(Move::new(A7, A8, Some(Piece::Bishop))), base + 4);
}

#[test]
fn decode_then_encode_promotions() {
    let m = get_move((A7 as u16 * 64 + A8 as u16) * 5 + 1);
    assert_eq!(m, Move::new(A7, A8, Some(Piece::Queen)));
    let m = get_move(3980);
    assert_eq!(m, Move::new(E2, E4, None));
}
