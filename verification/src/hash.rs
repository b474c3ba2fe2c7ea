//! The Zobrist hasher: a deterministic table of 781 random numbers — one
//! per piece placement, one for the side to move, four for castle rights,
//! eight for en-passant files — and the XOR folds over it.
//!
//! The full hash folds over every occupied square; the incremental update
//! re-folds only what changed between two boards, and agrees with the
//! full hash whenever the side to move flipped, as it does on every move.

use vstd::prelude::*;
use vstd::wrapping::u64_specs;
use crate::game::{
    castle_code, color_white_at, ep_file_of, piece_code_at, white_to_move, Position,
};

verus! {

/// How many random numbers the hasher draws.
pub const TABLE_SIZE: usize = 781;

/// One left rotation of a 64-bit word.
pub open spec fn rot_spec(x: u64, k: u64) -> u64 {
    (x << k) | (x >> (64 - k) as u64)
}

/// Rotate a 64-bit word left by `k` bits.
pub fn rot(x: u64, k: u8) -> (r: u64)
    requires
        0 < k < 64,
    ensures
        r == rot_spec(x, k as u64),
{
    (x << (k as u64)) | (x >> ((64 - k) as u64))
}

/// The generator's state after one step.
pub open spec fn next_state(s: (u64, u64, u64, u64)) -> (u64, u64, u64, u64) {
    let e = u64_specs::wrapping_sub(s.0, rot_spec(s.1, 7));
    let a = s.1 ^ rot_spec(s.2, 13);
    let b = u64_specs::wrapping_add(s.2, rot_spec(s.3, 37));
    let c = u64_specs::wrapping_add(s.3, e);
    let d = u64_specs::wrapping_add(e, a);
    (a, b, c, d)
}

/// The state a seed starts the generator in, before the warm-up.
pub open spec fn seeded_state(seed: u64) -> (u64, u64, u64, u64) {
    (0xf1ea5eed, seed, seed, seed)
}

/// The generator's state after `n` steps.
pub open spec fn state_after(s: (u64, u64, u64, u64), n: int) -> (u64, u64, u64, u64)
    decreases n,
{
    if n <= 0 {
        s
    } else {
        next_state(state_after(s, n - 1))
    }
}

/// A small-state pseudo-random generator; every value it hands out is a
/// pure function of the seed.
#[derive(Clone, Copy, PartialEq, Eq, Structural, Debug)]
pub struct RandomNumberGenerator {
    a: u64,
    b: u64,
    c: u64,
    d: u64,
}

impl RandomNumberGenerator {
    /// The generator's state, for contracts.
    pub closed spec fn state(self) -> (u64, u64, u64, u64) {
        (self.a, self.b, self.c, self.d)
    }

    /// A generator seeded and warmed up by twenty discarded draws.
    #[verifier::loop_isolation(false)]
    pub fn new(seed: u64) -> (r: RandomNumberGenerator)
        ensures
            r.state() == state_after(seeded_state(seed), 20),
    {
        let mut rng = RandomNumberGenerator { a: 0xf1ea5eed, b: seed, c: seed, d: seed };
        let mut i: usize = 0;
        while i < 20
            invariant
                i <= 20,
                rng.state() == state_after(seeded_state(seed), i as int),
            decreases 20 - i,
        {
            rng.next_value();
            i += 1;
        }
        rng
    }

    /// Step the generator and hand out the new state's last word.
    pub fn next_value(&mut self) -> (r: u64)
        ensures
            final(self).state() == next_state(old(self).state()),
            r == final(self).state().3,
    {
        let e = self.a.wrapping_sub(rot(self.b, 7));
        self.a = self.b ^ rot(self.c, 13);
        self.b = self.c.wrapping_add(rot(self.d, 37));
        self.c = self.d.wrapping_add(e);
        self.d = e.wrapping_add(self.a);
        self.d
    }
}

/// The table index of a piece of a color on a square: White's pieces
/// fill the first 384 slots, Black's the next 384.
pub open spec fn piece_index(white: bool, role: int, sq: int) -> int {
    (if white {
        0int
    } else {
        384int
    }) + role * 64 + sq
}

/// The hash contribution of one square: the table entry of its piece, or
/// zero when it is empty.
pub open spec fn square_hash(t: Seq<u64>, b: chess::Board, sq: int) -> u64 {
    match color_white_at(b, sq) {
        Option::None => 0,
        Option::Some(w) => match piece_code_at(b, sq) {
            Option::None => 0,
            Option::Some(role) => t[piece_index(w, role, sq)],
        },
    }
}

/// The XOR of the piece contributions of the first `n` squares.
pub open spec fn piece_xor(t: Seq<u64>, b: chess::Board, n: int) -> u64
    decreases n,
{
    if n <= 0 {
        0
    } else {
        piece_xor(t, b, n - 1) ^ square_hash(t, b, n - 1)
    }
}

/// The hash contribution of the side to move.
pub open spec fn color_hash(t: Seq<u64>, b: chess::Board) -> u64 {
    if white_to_move(b) {
        0
    } else {
        t[768]
    }
}

/// The hash contribution of one side's castle rights.
pub open spec fn castle_hash(t: Seq<u64>, code: int, white: bool) -> u64 {
    let base = if white {
        769int
    } else {
        771int
    };
    if code == 1 {
        t[base]
    } else if code == 2 {
        t[base + 1]
    } else if code == 3 {
        t[base] ^ t[base + 1]
    } else {
        0
    }
}

/// The hash contribution of the en-passant file, if one is set.
pub open spec fn ep_hash(t: Seq<u64>, ep: Option<int>) -> u64 {
    match ep {
        Option::None => 0,
        Option::Some(f) => t[773 + f],
    }
}

/// The full Zobrist hash of a board over a table.
pub open spec fn zobrist_spec(t: Seq<u64>, b: chess::Board) -> u64 {
    piece_xor(t, b, 64) ^ color_hash(t, b) ^ castle_hash(t, castle_code(b, true), true)
        ^ castle_hash(t, castle_code(b, false), false) ^ ep_hash(t, ep_file_of(b))
}

/// The XOR of what changed on the first `n` squares between two boards.
pub open spec fn diff_xor(t: Seq<u64>, b1: chess::Board, b2: chess::Board, n: int) -> u64
    decreases n,
{
    if n <= 0 {
        0
    } else {
        diff_xor(t, b1, b2, n - 1) ^ (square_hash(t, b1, n - 1) ^ square_hash(t, b2, n - 1))
    }
}

/// The incremental update of a hash from one board to the next: flip the
/// side to move, re-fold both boards' castle and en-passant terms, and
/// fold in every square whose contents changed.
pub open spec fn update_spec(t: Seq<u64>, h: u64, b1: chess::Board, b2: chess::Board) -> u64 {
    h ^ t[768] ^ castle_hash(t, castle_code(b1, true), true) ^ castle_hash(
        t,
        castle_code(b1, false),
        false,
    ) ^ castle_hash(t, castle_code(b2, true), true) ^ castle_hash(t, castle_code(b2, false), false)
        ^ ep_hash(t, ep_file_of(b1)) ^ ep_hash(t, ep_file_of(b2)) ^ diff_xor(t, b1, b2, 64)
}

/// The changed-square fold equals the XOR of the two boards' full piece
/// folds.
proof fn lemma_diff_xor(t: Seq<u64>, b1: chess::Board, b2: chess::Board, n: int)
    ensures
        diff_xor(t, b1, b2, n) == piece_xor(t, b1, n) ^ piece_xor(t, b2, n),
    decreases n,
{
    if n <= 0 {
        assert(0u64 ^ 0u64 == 0u64) by (bit_vector);
    } else {
        lemma_diff_xor(t, b1, b2, n - 1);
        let d = diff_xor(t, b1, b2, n - 1);
        let p1 = piece_xor(t, b1, n - 1);
        let p2 = piece_xor(t, b2, n - 1);
        let s1 = square_hash(t, b1, n - 1);
        let s2 = square_hash(t, b2, n - 1);
        assert(d == p1 ^ p2 ==> d ^ (s1 ^ s2) == (p1 ^ s1) ^ (p2 ^ s2)) by (bit_vector);
    }
}

/// Updating a board's full hash towards a board with the other side to
/// move gives that board's full hash: the incremental update agrees with
/// hashing from scratch.
pub proof fn lemma_update_matches_hash(t: Seq<u64>, b1: chess::Board, b2: chess::Board)
    requires
        white_to_move(b2) == !white_to_move(b1),
    ensures
        update_spec(t, zobrist_spec(t, b1), b1, b2) == zobrist_spec(t, b2),
{
    lemma_diff_xor(t, b1, b2, 64);
    let x1 = piece_xor(t, b1, 64);
    let x2 = piece_xor(t, b2, 64);
    let col1 = color_hash(t, b1);
    let col2 = color_hash(t, b2);
    let c1w = castle_hash(t, castle_code(b1, true), true);
    let c1b = castle_hash(t, castle_code(b1, false), false);
    let c2w = castle_hash(t, castle_code(b2, true), true);
    let c2b = castle_hash(t, castle_code(b2, false), false);
    let e1 = ep_hash(t, ep_file_of(b1));
    let e2 = ep_hash(t, ep_file_of(b2));
    let t768 = t[768];
    assert(col2 == col1 ^ t768) by {
        if white_to_move(b1) {
            assert(0u64 ^ t768 == t768) by (bit_vector);
        } else {
            assert(t768 ^ t768 == 0u64) by (bit_vector);
        }
    }
    let z1 = zobrist_spec(t, b1);
    assert(z1 == x1 ^ col1 ^ c1w ^ c1b ^ e1 && col2 == col1 ^ t768 ==> z1 ^ t768 ^ c1w ^ c1b ^ c2w
        ^ c2b ^ e1 ^ e2 ^ (x1 ^ x2) == x2 ^ col2 ^ c2w ^ c2b ^ e2) by (bit_vector);
}

/// The Zobrist hasher: a fixed table drawn from the seeded generator.
pub struct ChessHasher {
    random_numbers: Vec<u64>,
}

impl ChessHasher {
    /// The hasher's table, for contracts.
    pub closed spec fn table(self) -> Seq<u64> {
        self.random_numbers@
    }

    /// A well-formed hasher holds exactly the 781 numbers.
    pub open spec fn wf(self) -> bool {
        self.table().len() == TABLE_SIZE
    }

    /// The standard hasher: the table drawn in order from the generator
    /// seeded with 101.
    #[verifier::loop_isolation(false)]
    pub fn default() -> (r: ChessHasher)
        ensures
            r.wf(),
            forall|i: int|
                0 <= i < TABLE_SIZE ==> #[trigger] r.table()[i] == state_after(
                    seeded_state(101),
                    21 + i,
                ).3,
    {
        let mut rng = RandomNumberGenerator::new(101);
        let mut random_numbers: Vec<u64> = Vec::new();
        let mut i: usize = 0;
        while i < TABLE_SIZE
            invariant
                i <= TABLE_SIZE,
                random_numbers@.len() == i,
                rng.state() == state_after(seeded_state(101), 20 + i as int),
                forall|k: int|
                    0 <= k < i ==> #[trigger] random_numbers@[k] == state_after(
                        seeded_state(101),
                        21 + k,
                    ).3,
            decreases TABLE_SIZE - i,
        {
            let v = rng.next_value();
            random_numbers.push(v);
            i += 1;
        }
        ChessHasher { random_numbers }
    }

    /// The table entry of a piece of a color on a square.
    fn get_piece_hash(&self, white: bool, role: u8, sq: u8) -> (r: u64)
        requires
            self.wf(),
            role < 6,
            sq < 64,
        ensures
            r == self.table()[piece_index(white, role as int, sq as int)],
    {
        let base: usize = if white {
            0
        } else {
            384
        };
        self.random_numbers[base + (role as usize) * 64 + (sq as usize)]
    }

    /// The hash contribution of one square of a position.
    fn square_term(&self, position: &Position, sq: u8) -> (r: u64)
        requires
            self.wf(),
            sq < 64,
        ensures
            r == square_hash(self.table(), position.b(), sq as int),
    {
        match position.color_on(sq) {
            Option::None => 0,
            Option::Some(c) => match position.piece_on(sq) {
                Option::None => {
                    proof {
                        assert(false);
                    }
                    0
                },
                Option::Some(p) => self.get_piece_hash(c.is_white_exec(), p.index(), sq),
            },
        }
    }

    /// The hash contribution of one side's castle rights.
    fn castle_term(&self, position: &Position, white: bool) -> (r: u64)
        requires
            self.wf(),
        ensures
            r == castle_hash(self.table(), castle_code(position.b(), white), white),
    {
        let base: usize = if white {
            769
        } else {
            771
        };
        match position.castle_rights_code(white) {
            1 => self.random_numbers[base],
            2 => self.random_numbers[base + 1],
            3 => self.random_numbers[base] ^ self.random_numbers[base + 1],
            _ => 0,
        }
    }

    /// The hash contribution of the en-passant file.
    fn ep_term(&self, position: &Position) -> (r: u64)
        requires
            self.wf(),
        ensures
            r == ep_hash(self.table(), ep_file_of(position.b())),
    {
        match position.en_passant_file() {
            Option::None => 0,
            Option::Some(f) => self.random_numbers[773 + (f as usize)],
        }
    }

    /// The full Zobrist hash of a position.
    #[verifier::loop_isolation(false)]
    pub fn hash(&self, position: &Position) -> (r: u64)
        requires
            self.wf(),
        ensures
            r == zobrist_spec(self.table(), position.b()),
    {
        let mut h: u64 = 0;
        let mut sq: u8 = 0;
        while sq < 64
            invariant
                sq <= 64,
                h == piece_xor(self.table(), position.b(), sq as int),
            decreases 64 - sq,
        {
            h = h ^ self.square_term(position, sq);
            sq += 1;
        }
        h = h ^ (if position.side_to_move().is_white_exec() {
            0
        } else {
            self.random_numbers[768]
        });
        h = h ^ self.castle_term(position, true);
        h = h ^ self.castle_term(position, false);
        h ^ self.ep_term(position)
    }

    /// Flip the side-to-move component of a hash.
    pub fn update_color_hash(&self, original_hash: u64) -> (r: u64)
        requires
            self.wf(),
        ensures
            r == original_hash ^ self.table()[768],
    {
        original_hash ^ self.random_numbers[768]
    }

    /// Flipping the side-to-move component twice gives the hash back.
    pub proof fn lemma_update_color_hash_involutive(self, h: u64)
        ensures
            (h ^ self.table()[768]) ^ self.table()[768] == h,
    {
        let t = self.table()[768];
        assert((h ^ t) ^ t == h) by (bit_vector);
    }

    /// The incremental hash update from one position to the next.
    #[verifier::loop_isolation(false)]
    pub fn update_hash(
        &self,
        original_hash: u64,
        original_game: &Position,
        new_game: &Position,
    ) -> (r: u64)
        requires
            self.wf(),
        ensures
            r == update_spec(self.table(), original_hash, original_game.b(), new_game.b()),
    {
        let mut h: u64 = original_hash;
        h = h ^ self.random_numbers[768];
        h = h ^ self.castle_term(original_game, true);
        h = h ^ self.castle_term(original_game, false);
        h = h ^ self.castle_term(new_game, true);
        h = h ^ self.castle_term(new_game, false);
        h = h ^ self.ep_term(original_game);
        h = h ^ self.ep_term(new_game);
        let ghost base = h;
        proof {
            assert(base ^ 0u64 == base) by (bit_vector);
        }
        let mut sq: u8 = 0;
        while sq < 64
            invariant
                sq <= 64,
                h == base ^ diff_xor(self.table(), original_game.b(), new_game.b(), sq as int),
            decreases 64 - sq,
        {
            let d = self.square_term(original_game, sq) ^ self.square_term(new_game, sq);
            proof {
                let t = self.table();
                let b1 = original_game.b();
                let b2 = new_game.b();
                let old_acc = diff_xor(t, b1, b2, sq as int);
                let s1 = square_hash(t, b1, sq as int);
                let s2 = square_hash(t, b2, sq as int);
                assert((base ^ old_acc) ^ (s1 ^ s2) == base ^ (old_acc ^ (s1 ^ s2)))
                    by (bit_vector);
            }
            h = h ^ d;
            sq += 1;
        }
        proof {
            assert(base ^ diff_xor(
                self.table(),
                original_game.b(),
                new_game.b(),
                64,
            ) == update_spec(
                self.table(),
                original_hash,
                original_game.b(),
                new_game.b(),
            ));
        }
        h
    }
}

} // verus!
