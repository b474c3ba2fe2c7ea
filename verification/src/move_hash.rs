//! The 16-bit move encoding used inside transposition-table entries.
//!
//! A move packs into `(source * 64 + dest) * 5 + promotion`, with the
//! promotion index 0 for none and 1..=4 for queen, knight, rook and bishop.
//! Encoding and decoding are mutual inverses over all 20480 codes.

use vstd::prelude::*;
use crate::game::{promotion_index, Move, Piece};

verus! {

/// The number of distinct move codes: 64 sources, 64 destinations and 5
/// promotion states.
pub const HASH_SIZE: u16 = 20480;

/// The move a code decodes to.
pub open spec fn decoded(hash: int) -> Move {
    Move {
        source: (hash / 320) as u8,
        dest: ((hash / 5) % 64) as u8,
        promotion: decoded_promotion(hash % 5),
    }
}

/// The promotion piece a promotion index decodes to.
pub open spec fn decoded_promotion(p: int) -> Option<Piece> {
    if p == 1 {
        Option::Some(Piece::Queen)
    } else if p == 2 {
        Option::Some(Piece::Knight)
    } else if p == 3 {
        Option::Some(Piece::Rook)
    } else if p == 4 {
        Option::Some(Piece::Bishop)
    } else {
        Option::None
    }
}

/// Encode a move as its 16-bit code.
pub fn get_hash(chess_move: Move) -> (r: u16)
    requires
        chess_move.wf(),
    ensures
        r == chess_move.code(),
        r < HASH_SIZE,
{
    let promo: u16 = match chess_move.promotion {
        Option::None => 0,
        Option::Some(Piece::Queen) => 1,
        Option::Some(Piece::Knight) => 2,
        Option::Some(Piece::Rook) => 3,
        Option::Some(Piece::Bishop) => 4,
        Option::Some(Piece::Pawn) => 5,
        Option::Some(Piece::King) => 6,
    };
    ((chess_move.source as u16) * 64 + (chess_move.dest as u16)) * 5 + promo
}

/// Decode a 16-bit code back into a move.
pub fn get_move(hash: u16) -> (r: Move)
    requires
        hash < HASH_SIZE,
    ensures
        r == decoded(hash as int),
        r.wf(),
        r.code() == hash,
{
    let source: u8 = (hash / 320) as u8;
    let dest: u8 = ((hash / 5) % 64) as u8;
    let promotion: Option<Piece> = match hash % 5 {
        1 => Option::Some(Piece::Queen),
        2 => Option::Some(Piece::Knight),
        3 => Option::Some(Piece::Rook),
        4 => Option::Some(Piece::Bishop),
        _ => Option::None,
    };
    let r = Move { source, dest, promotion };
    proof {
        lemma_decode_encode(hash as int);
    }
    r
}

/// Decoding a code and encoding the result gives the code back, for every
/// one of the 20480 codes.
pub proof fn lemma_decode_encode(hash: int)
    requires
        0 <= hash < 20480,
    ensures
        decoded(hash).wf(),
        decoded(hash).code() == hash,
{
    let h = hash as u16;
    assert((h / 320 < 64) && ((h / 5) % 64 < 64) && (h % 5 < 5) && ((h / 320) * 64 + (h / 5) % 64)
        * 5 + h % 5 == h) by (bit_vector)
        requires
            h < 20480,
    ;
    assert(promotion_index(decoded_promotion(hash % 5)) == hash % 5);
}

/// Encoding a well-formed move and decoding the result gives the move
/// back: the encoding is a bijection between well-formed moves and codes.
pub proof fn lemma_encode_decode(m: Move)
    requires
        m.wf(),
    ensures
        0 <= m.code() < 20480,
        decoded(m.code()) == m,
{
    let s = m.source as u16;
    let d = m.dest as u16;
    let p = promotion_index(m.promotion) as u16;
    assert(((s * 64 + d) * 5 + p < 20480) && ((s * 64 + d) * 5 + p) / 320 == s && (((s * 64 + d)
        * 5 + p) / 5) % 64 == d && ((s * 64 + d) * 5 + p) % 5 == p) by (bit_vector)
        requires
            s < 64,
            d < 64,
            p < 5,
    ;
    assert(decoded_promotion(promotion_index(m.promotion)) == m.promotion);
}

} // verus!
