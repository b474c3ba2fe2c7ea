//! The two-tier transposition table.
//!
//! Each key maps to one slot per tier. The shallow tier overwrites its
//! slot whenever the stored entry is no deeper than the new one, so it
//! tracks the deepest recent result; the deep tier overwrites only when
//! the stored entry is at least as deep as the new one, so it holds on to
//! the shallowest entry written so far — the asymmetry keeps both deep
//! analysis and frequently revisited shallow lines alive. A probe only
//! hits an entry whose full 64-bit key matches and whose best-move code is
//! set, so a never-written slot can not answer.

use vstd::prelude::*;
use crate::game::{zobrist_key, Move, Position};
use crate::move_hash;
use crate::node::NodeValue;

verus! {

/// One stored search result.
#[derive(Clone, Copy, Debug)]
pub struct Entry {
    pub key: u64,
    pub depth: u8,
    pub node: NodeValue<i16>,
    pub best_move_hash: u16,
}

/// An entry the table may hold: the score within the evaluation
/// sentinels, the move code in range.
pub open spec fn entry_inv(e: Entry) -> bool {
    &&& crate::eval::MIN_EVAL <= e.node.value_spec() <= crate::eval::MAX_EVAL
    &&& e.best_move_hash < move_hash::HASH_SIZE
}

/// The state a deep slot starts in: greatest depth, so the first store
/// always lands.
pub open spec fn initial_deep() -> Entry {
    Entry { key: 0, depth: 255, node: NodeValue::Principal { value: 0 }, best_move_hash: 0 }
}

/// The state a shallow slot starts in: least depth, so the first store
/// always lands.
pub open spec fn initial_shallow() -> Entry {
    Entry { key: 0, depth: 0, node: NodeValue::Principal { value: 0 }, best_move_hash: 0 }
}

/// The move code a store carries: 0 when it brings no best move.
pub open spec fn stored_code(best_move: Option<Move>) -> Option<int> {
    match best_move {
        Option::None => Option::None,
        Option::Some(m) => Option::Some(m.code()),
    }
}

/// A slot's entry after a store lands on it: key, depth and node are
/// replaced; the best-move code is replaced only when the store brings
/// one, else the slot's previous code survives.
pub open spec fn entry_after_store(
    e: Entry,
    key: u64,
    depth: u8,
    node: NodeValue<i16>,
    code: Option<int>,
) -> Entry {
    Entry {
        key,
        depth,
        node,
        best_move_hash: match code {
            Option::None => e.best_move_hash,
            Option::Some(c) => c as u16,
        },
    }
}

/// The deep tier after a store: overwritten only when the stored entry is
/// at least as deep as the new one.
pub open spec fn deep_after_store(
    deep: Seq<Entry>,
    slot: int,
    key: u64,
    depth: u8,
    node: NodeValue<i16>,
    code: Option<int>,
) -> Seq<Entry> {
    if deep[slot].depth >= depth {
        deep.update(slot, entry_after_store(deep[slot], key, depth, node, code))
    } else {
        deep
    }
}

/// The shallow tier after a store: overwritten when the stored entry is
/// no deeper than the new one.
pub open spec fn shallow_after_store(
    shallow: Seq<Entry>,
    slot: int,
    key: u64,
    depth: u8,
    node: NodeValue<i16>,
    code: Option<int>,
) -> Seq<Entry> {
    if shallow[slot].depth <= depth {
        shallow.update(slot, entry_after_store(shallow[slot], key, depth, node, code))
    } else {
        shallow
    }
}

/// What a probe for a value answers: the deep tier first, then the
/// shallow one; only an entry with a matching key and a set best-move
/// code counts.
pub open spec fn lookup_spec(deep: Seq<Entry>, shallow: Seq<Entry>, slot: int, key: u64) -> Option<
    (NodeValue<i16>, u8),
> {
    if deep[slot].key == key && deep[slot].best_move_hash != 0 {
        Option::Some((deep[slot].node, deep[slot].depth))
    } else if shallow[slot].key == key && shallow[slot].best_move_hash != 0 {
        Option::Some((shallow[slot].node, shallow[slot].depth))
    } else {
        Option::None
    }
}

/// What a probe for a best move answers: the shallow tier first, then the
/// deep one.
pub open spec fn best_code_spec(
    deep: Seq<Entry>,
    shallow: Seq<Entry>,
    slot: int,
    key: u64,
) -> Option<int> {
    if shallow[slot].key == key && shallow[slot].best_move_hash != 0 {
        Option::Some(shallow[slot].best_move_hash as int)
    } else if deep[slot].key == key && deep[slot].best_move_hash != 0 {
        Option::Some(deep[slot].best_move_hash as int)
    } else {
        Option::None
    }
}

/// The two-tier table itself.
pub struct TranspositionTable {
    slots: usize,
    deep: Vec<Entry>,
    shallow: Vec<Entry>,
}

impl TranspositionTable {
    /// The number of slots in each tier.
    pub closed spec fn capacity(self) -> int {
        self.slots as int
    }

    /// The deep tier's entries.
    pub closed spec fn deep_entries(self) -> Seq<Entry> {
        self.deep@
    }

    /// The shallow tier's entries.
    pub closed spec fn shallow_entries(self) -> Seq<Entry> {
        self.shallow@
    }

    /// A well-formed table: one entry per slot in each tier, and every
    /// entry within the table's invariant.
    pub open spec fn wf(self) -> bool {
        &&& self.capacity() >= 1
        &&& self.deep_entries().len() == self.capacity()
        &&& self.shallow_entries().len() == self.capacity()
        &&& forall|i: int|
            0 <= i < self.capacity() ==> entry_inv(#[trigger] self.deep_entries()[i])
        &&& forall|i: int|
            0 <= i < self.capacity() ==> entry_inv(#[trigger] self.shallow_entries()[i])
    }

    /// The slot a key maps to.
    pub open spec fn slot_of(self, key: u64) -> int {
        key as int % self.capacity()
    }

    /// A table fresh from `new`: every slot still in its initial state.
    pub open spec fn is_fresh(self) -> bool {
        &&& forall|i: int| 0 <= i < self.capacity() ==> self.deep_entries()[i] == initial_deep()
        &&& forall|i: int|
            0 <= i < self.capacity() ==> self.shallow_entries()[i] == initial_shallow()
    }

    /// A table with one slot pair per two entries of the asked-for size.
    pub fn new(cache_size: usize) -> (r: TranspositionTable)
        requires
            cache_size >= 2,
        ensures
            r.wf(),
            r.capacity() == cache_size as int / 2,
            r.is_fresh(),
    {
        let size = cache_size / 2;
        let mut deep: Vec<Entry> = Vec::new();
        let mut shallow: Vec<Entry> = Vec::new();
        let mut i: usize = 0;
        while i < size
            invariant
                i <= size,
                deep@.len() == i,
                shallow@.len() == i,
                forall|k: int| 0 <= k < i ==> deep@[k] == initial_deep(),
                forall|k: int| 0 <= k < i ==> shallow@[k] == initial_shallow(),
            decreases size - i,
        {
            deep.push(
                Entry {
                    key: 0,
                    depth: 255,
                    node: NodeValue::Principal { value: 0 },
                    best_move_hash: 0,
                },
            );
            shallow.push(
                Entry { key: 0, depth: 0, node: NodeValue::Principal { value: 0 }, best_move_hash: 0 },
            );
            i += 1;
        }
        TranspositionTable { slots: size, deep, shallow }
    }

    /// The stored value and depth for a key, if a tier holds its entry.
    pub fn lookup(&self, key: u64) -> (r: Option<(NodeValue<i16>, u8)>)
        requires
            self.wf(),
        ensures
            r == lookup_spec(
                self.deep_entries(),
                self.shallow_entries(),
                self.slot_of(key),
                key,
            ),
            r matches Some(v) ==> crate::eval::MIN_EVAL <= v.0.value_spec()
                <= crate::eval::MAX_EVAL,
    {
        let slot = (key % (self.slots as u64)) as usize;
        assert(slot == self.slot_of(key));
        let d = self.deep[slot];
        if d.key == key && d.best_move_hash != 0 {
            return Option::Some((d.node, d.depth));
        }
        let s = self.shallow[slot];
        if s.key == key && s.best_move_hash != 0 {
            return Option::Some((s.node, s.depth));
        }
        Option::None
    }

    /// The stored best move for a key, if a tier holds its entry.
    pub fn best_move_for(&self, key: u64) -> (r: Option<Move>)
        requires
            self.wf(),
        ensures
            match best_code_spec(
                self.deep_entries(),
                self.shallow_entries(),
                self.slot_of(key),
                key,
            ) {
                Option::None => r is None,
                Option::Some(code) => (r == Option::Some(move_hash::decoded(code))
                    && move_hash::decoded(code).wf() && move_hash::decoded(code).code() == code),
            },
    {
        let slot = (key % (self.slots as u64)) as usize;
        assert(slot == self.slot_of(key));
        let s = self.shallow[slot];
        if s.key == key && s.best_move_hash != 0 {
            return Option::Some(move_hash::get_move(s.best_move_hash));
        }
        let d = self.deep[slot];
        if d.key == key && d.best_move_hash != 0 {
            return Option::Some(move_hash::get_move(d.best_move_hash));
        }
        Option::None
    }

    /// Store a search result for a key, under each tier's replacement
    /// policy.
    pub fn store(&mut self, key: u64, depth: u8, node: NodeValue<i16>, best_move: Option<Move>)
        requires
            old(self).wf(),
            crate::eval::MIN_EVAL <= node.value_spec() <= crate::eval::MAX_EVAL,
            best_move matches Some(m) ==> m.wf(),
        ensures
            final(self).wf(),
            final(self).capacity() == old(self).capacity(),
            final(self).deep_entries() == deep_after_store(
                old(self).deep_entries(),
                old(self).slot_of(key),
                key,
                depth,
                node,
                stored_code(best_move),
            ),
            final(self).shallow_entries() == shallow_after_store(
                old(self).shallow_entries(),
                old(self).slot_of(key),
                key,
                depth,
                node,
                stored_code(best_move),
            ),
    {
        let slot = (key % (self.slots as u64)) as usize;
        assert(slot == self.slot_of(key));
        let code: u16 = match best_move {
            Option::None => 0,
            Option::Some(m) => move_hash::get_hash(m),
        };
        proof {
            if best_move is Some {
                move_hash::lemma_encode_decode(best_move->Some_0);
            }
        }
        let s = self.shallow[slot];
        if s.depth <= depth {
            let bm = if best_move.is_some() { code } else { s.best_move_hash };
            self.shallow.set(slot, Entry { key, depth, node, best_move_hash: bm });
        }
        let d = self.deep[slot];
        if d.depth >= depth {
            let bm = if best_move.is_some() { code } else { d.best_move_hash };
            self.deep.set(slot, Entry { key, depth, node, best_move_hash: bm });
        }
    }

    /// The stored best move of a position, verified legal by nobody: the
    /// caller re-checks it before use.
    pub fn best_move(&self, position: &Position) -> (r: Option<Move>)
        requires
            self.wf(),
        ensures
            match best_code_spec(
                self.deep_entries(),
                self.shallow_entries(),
                self.slot_of(zobrist_key(position.b())),
                zobrist_key(position.b()),
            ) {
                Option::None => r is None,
                Option::Some(code) => (r == Option::Some(move_hash::decoded(code))
                    && move_hash::decoded(code).wf() && move_hash::decoded(code).code() == code),
            },
    {
        self.best_move_for(position.get_hash())
    }

    /// The stored value and depth of a position.
    pub fn get_evaluation_and_depth(&self, position: &Position) -> (r: Option<
        (NodeValue<i16>, u8),
    >)
        requires
            self.wf(),
        ensures
            r == lookup_spec(
                self.deep_entries(),
                self.shallow_entries(),
                self.slot_of(zobrist_key(position.b())),
                zobrist_key(position.b()),
            ),
            r matches Some(v) ==> crate::eval::MIN_EVAL <= v.0.value_spec()
                <= crate::eval::MAX_EVAL,
    {
        self.lookup(position.get_hash())
    }

    /// Store a search result for a position.
    pub fn update_evaluation_and_best_move(
        &mut self,
        position: &Position,
        depth: u8,
        node: NodeValue<i16>,
        best_move: Option<Move>,
    )
        requires
            old(self).wf(),
            crate::eval::MIN_EVAL <= node.value_spec() <= crate::eval::MAX_EVAL,
            best_move matches Some(m) ==> m.wf(),
        ensures
            final(self).wf(),
            final(self).capacity() == old(self).capacity(),
            final(self).deep_entries() == deep_after_store(
                old(self).deep_entries(),
                old(self).slot_of(zobrist_key(position.b())),
                zobrist_key(position.b()),
                depth,
                node,
                stored_code(best_move),
            ),
            final(self).shallow_entries() == shallow_after_store(
                old(self).shallow_entries(),
                old(self).slot_of(zobrist_key(position.b())),
                zobrist_key(position.b()),
                depth,
                node,
                stored_code(best_move),
            ),
    {
        self.store(position.get_hash(), depth, node, best_move)
    }
}

impl Default for TranspositionTable {
    /// A fresh table at the default size.
    fn default() -> (r: TranspositionTable)
        ensures
            r.wf(),
            r.is_fresh(),
    {
        TranspositionTable::new(30000000)
    }
}

/// Storing a result and probing the same key gives the result back: the
/// value with its depth, and the best move. This holds whenever both
/// tiers accept the write — in particular always on a fresh table — and
/// the store carries a move.
pub proof fn lemma_store_then_probe(
    deep: Seq<Entry>,
    shallow: Seq<Entry>,
    slot: int,
    key: u64,
    depth: u8,
    node: NodeValue<i16>,
    m: Move,
)
    requires
        0 <= slot < deep.len(),
        0 <= slot < shallow.len(),
        deep[slot].depth >= depth,
        shallow[slot].depth <= depth,
        m.wf(),
        m.code() != 0,
    ensures
        lookup_spec(
            deep_after_store(deep, slot, key, depth, node, Option::Some(m.code())),
            shallow_after_store(shallow, slot, key, depth, node, Option::Some(m.code())),
            slot,
            key,
        ) == Option::Some((node, depth)),
        best_code_spec(
            deep_after_store(deep, slot, key, depth, node, Option::Some(m.code())),
            shallow_after_store(shallow, slot, key, depth, node, Option::Some(m.code())),
            slot,
            key,
        ) == Option::Some(m.code()),
{
}

/// The deep tier is depth-preferred downwards: once a shallow result for
/// a key sits in it, a later, deeper store for the same key leaves the
/// deep slot untouched.
pub proof fn lemma_deep_keeps_shallower(
    deep: Seq<Entry>,
    slot: int,
    key: u64,
    d1: u8,
    n1: NodeValue<i16>,
    c1: Option<int>,
    d2: u8,
    n2: NodeValue<i16>,
    c2: Option<int>,
)
    requires
        0 <= slot < deep.len(),
        deep[slot].depth >= d1,
        d2 > d1,
    ensures
        deep_after_store(deep_after_store(deep, slot, key, d1, n1, c1), slot, key, d2, n2, c2)
            == deep_after_store(deep, slot, key, d1, n1, c1),
        deep_after_store(deep, slot, key, d1, n1, c1)[slot].depth == d1,
        deep_after_store(deep, slot, key, d1, n1, c1)[slot].node == n1,
{
    let once = deep_after_store(deep, slot, key, d1, n1, c1);
    assert(once[slot].depth == d1);
    assert(deep_after_store(once, slot, key, d2, n2, c2) =~= once);
}

/// The shallow tier is recency-preferring upwards: a later store for the
/// same key at a depth at least as great replaces the slot, so the best
/// move the table answers afterwards is the later one.
pub proof fn lemma_shallow_takes_deeper(
    deep: Seq<Entry>,
    shallow: Seq<Entry>,
    slot: int,
    key: u64,
    d1: u8,
    n1: NodeValue<i16>,
    m1: Move,
    d2: u8,
    n2: NodeValue<i16>,
    m2: Move,
)
    requires
        0 <= slot < deep.len(),
        0 <= slot < shallow.len(),
        shallow[slot].depth <= d1,
        d1 <= d2,
        m1.wf(),
        m2.wf(),
        m2.code() != 0,
    ensures
        best_code_spec(
            deep_after_store(
                deep_after_store(deep, slot, key, d1, n1, Option::Some(m1.code())),
                slot,
                key,
                d2,
                n2,
                Option::Some(m2.code()),
            ),
            shallow_after_store(
                shallow_after_store(shallow, slot, key, d1, n1, Option::Some(m1.code())),
                slot,
                key,
                d2,
                n2,
                Option::Some(m2.code()),
            ),
            slot,
            key,
        ) == Option::Some(m2.code()),
{
    let s1 = shallow_after_store(shallow, slot, key, d1, n1, Option::Some(m1.code()));
    assert(s1[slot].depth == d1);
    let s2 = shallow_after_store(s1, slot, key, d2, n2, Option::Some(m2.code()));
    assert(s2[slot].key == key && s2[slot].best_move_hash == m2.code());
}

} // verus!
