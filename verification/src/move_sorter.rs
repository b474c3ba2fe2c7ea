//! Move ordering for the alpha-beta search.
//!
//! A transposition-table hint, when legal, comes first. The remaining
//! moves follow in ascending capture score — attacker value minus victim
//! value over the scale 1, 3, 3, 5, 9, 0 for pawn through king — so the
//! most promising captures lead; non-capturing promotions score 10, and
//! quiet moves score 127 and come last. The sort is a stable insertion
//! sort, so the order is a pure function of the position and the hint.

use vstd::multiset::Multiset;
use vstd::prelude::*;
use crate::game::{
    is_capture_move, legal_move_facts, piece_code_at, Move, Piece, Position,
};
use crate::move_hash;

verus! {

/// The capture scale: what a role is worth when it takes or is taken.
pub open spec fn mvv_value(role: int) -> int {
    if role == 0 {
        1
    } else if role == 1 || role == 2 {
        3
    } else if role == 3 {
        5
    } else if role == 4 {
        9
    } else {
        0
    }
}

/// A move's ordering score: ascending, so smaller sorts earlier.
pub open spec fn capture_score_spec(b: chess::Board, m: Move) -> int {
    if is_capture_move(b, m) {
        mvv_value(piece_code_at(b, m.source as int)->Some_0) - mvv_value(
            piece_code_at(b, m.dest as int)->Some_0,
        )
    } else if m.promotion is Some {
        10
    } else {
        127
    }
}

/// The move the legal-move list holds at an index.
pub open spec fn legal_move_at(b: chess::Board, i: int) -> Move {
    move_hash::decoded(crate::game::legal_codes(b)[i])
}

/// What holds of every scored move the sorter handles: a well-formed
/// legal move, carrying its ordering score.
pub open spec fn scored_elem_ok(b: chess::Board, p: (i8, Move)) -> bool {
    &&& p.1.wf()
    &&& crate::game::legal_codes(b).contains(p.1.code())
    &&& legal_move_facts(b, p.1)
    &&& p.0 == capture_score_spec(b, p.1) as i8
}

/// The scored legal moves among the first `n`, skipping the one with code
/// `hcode` (pass -1 to skip none).
pub open spec fn scored_prefix(b: chess::Board, n: int, hcode: int) -> Seq<(i8, Move)>
    decreases n,
{
    if n <= 0 {
        Seq::empty()
    } else {
        let m = legal_move_at(b, n - 1);
        let prev = scored_prefix(b, n - 1, hcode);
        if m.code() == hcode {
            prev
        } else {
            prev.push((capture_score_spec(b, m) as i8, m))
        }
    }
}

/// Insert one scored move into a sorted run, after any equal scores: the
/// step of a stable insertion sort.
pub open spec fn insert_sorted(s: Seq<(i8, Move)>, x: (i8, Move)) -> Seq<(i8, Move)>
    decreases s.len(),
{
    if s.len() == 0 {
        seq![x]
    } else if x.0 < s.last().0 {
        insert_sorted(s.drop_last(), x).push(s.last())
    } else {
        s.push(x)
    }
}

/// The stable insertion sort of a scored-move sequence.
pub open spec fn sort_spec(s: Seq<(i8, Move)>) -> Seq<(i8, Move)>
    decreases s.len(),
{
    if s.len() == 0 {
        Seq::empty()
    } else {
        insert_sorted(sort_spec(s.drop_last()), s.last())
    }
}

/// Ascending by score.
pub open spec fn sorted_by_score(s: Seq<(i8, Move)>) -> bool {
    forall|i: int, j: int| 0 <= i < j < s.len() ==> s[i].0 <= s[j].0
}

/// The hint's code when it is well-formed and legal, and -1 otherwise.
pub open spec fn hint_code_of(b: chess::Board, hint: Option<Move>) -> int {
    match hint {
        Option::None => -1,
        Option::Some(h) => if h.wf() && crate::game::legal_codes(b).contains(h.code()) {
            h.code()
        } else {
            -1
        },
    }
}

/// The full ordering: the legal hint first, then every other legal move
/// in stable ascending capture-score order.
pub open spec fn ordered_spec(b: chess::Board, hint: Option<Move>) -> Seq<Move> {
    let hcode = hint_code_of(b, hint);
    let sorted = sort_spec(
        scored_prefix(b, crate::game::legal_codes(b).len() as int, hcode),
    ).map_values(|p: (i8, Move)| p.1);
    if hcode >= 0 {
        seq![hint->Some_0] + sorted
    } else {
        sorted
    }
}

/// The quiescence ordering's raw material: the captures among the first
/// `n` legal moves, scored.
pub open spec fn captures_prefix(b: chess::Board, n: int) -> Seq<(i8, Move)>
    decreases n,
{
    if n <= 0 {
        Seq::empty()
    } else {
        let m = legal_move_at(b, n - 1);
        let prev = captures_prefix(b, n - 1);
        if is_capture_move(b, m) {
            prev.push((capture_score_spec(b, m) as i8, m))
        } else {
            prev
        }
    }
}

/// The quiescence ordering: the captures alone, in stable ascending
/// capture-score order.
pub open spec fn sorted_captures_spec(b: chess::Board) -> Seq<Move> {
    sort_spec(captures_prefix(b, crate::game::legal_codes(b).len() as int)).map_values(
        |p: (i8, Move)| p.1,
    )
}

/// Inserting into a sorted run keeps it sorted, adds the element to the
/// contents, and grows the length by one.
pub proof fn lemma_insert_sorted(s: Seq<(i8, Move)>, x: (i8, Move))
    requires
        sorted_by_score(s),
    ensures
        sorted_by_score(insert_sorted(s, x)),
        insert_sorted(s, x).to_multiset() == s.to_multiset().insert(x),
        insert_sorted(s, x).len() == s.len() + 1,
    decreases s.len(),
{
    broadcast use vstd::seq_lib::group_to_multiset_ensures;

    if s.len() == 0 {
        assert(seq![x] =~= Seq::empty().push(x));
        assert(Seq::<(i8, Move)>::empty().to_multiset() =~= Multiset::empty());
    } else if x.0 < s.last().0 {
        assert(sorted_by_score(s.drop_last()));
        lemma_insert_sorted(s.drop_last(), x);
        let t = insert_sorted(s.drop_last(), x);
        assert forall|i: int| 0 <= i < t.len() implies (#[trigger] t[i]).0 <= s.last().0 by {
            assert(t.contains(t[i]));
            assert(t.to_multiset().contains(t[i]));
            if t[i] != x {
                assert(s.drop_last().to_multiset().contains(t[i]));
                assert(s.drop_last().contains(t[i]));
                let j = choose|j: int| 0 <= j < s.drop_last().len() && s.drop_last()[j] == t[i];
                assert(s[j] == t[i] && s[j].0 <= s.last().0);
            }
        }
        assert(s.drop_last().push(s.last()) =~= s);
        assert(insert_sorted(s, x).to_multiset() =~= s.to_multiset().insert(x));
    } else {
        assert(forall|i: int| 0 <= i < s.len() ==> (#[trigger] s[i]).0 <= s.last().0);
    }
}

/// The insertion sort sorts: its result is ascending by score and holds
/// exactly the input's scored moves, in equal number.
pub proof fn lemma_sort_spec(s: Seq<(i8, Move)>)
    ensures
        sorted_by_score(sort_spec(s)),
        sort_spec(s).to_multiset() == s.to_multiset(),
        sort_spec(s).len() == s.len(),
    decreases s.len(),
{
    broadcast use vstd::seq_lib::group_to_multiset_ensures;

    if s.len() > 0 {
        lemma_sort_spec(s.drop_last());
        lemma_insert_sorted(sort_spec(s.drop_last()), s.last());
        assert(s.drop_last().push(s.last()) =~= s);
        assert(sort_spec(s).to_multiset() =~= s.to_multiset());
    } else {
        assert(sort_spec(s).to_multiset() =~= s.to_multiset());
    }
}

/// A sorted sequence holds the same moves as what it was sorted from.
pub proof fn lemma_sort_keeps_elems(s: Seq<(i8, Move)>, b: chess::Board)
    requires
        forall|k: int| 0 <= k < s.len() ==> scored_elem_ok(b, #[trigger] s[k]),
    ensures
        forall|k: int| 0 <= k < sort_spec(s).len() ==> scored_elem_ok(b, #[trigger] sort_spec(s)[k]),
{
    broadcast use vstd::seq_lib::group_to_multiset_ensures;

    lemma_sort_spec(s);
    assert forall|k: int| 0 <= k < sort_spec(s).len() implies scored_elem_ok(
        b,
        #[trigger] sort_spec(s)[k],
    ) by {
        let p = sort_spec(s)[k];
        assert(sort_spec(s).contains(p));
        assert(sort_spec(s).to_multiset().contains(p));
        assert(s.to_multiset().contains(p));
        assert(s.contains(p));
        let j = choose|j: int| 0 <= j < s.len() && s[j] == p;
        assert(scored_elem_ok(b, s[j]));
    }
}

/// Everything in a scored prefix is a well-formed legal move with its
/// score.
pub proof fn lemma_scored_prefix_elems(b: chess::Board, moves: Seq<Move>, n: int, hcode: int)
    requires
        0 <= n <= moves.len(),
        moves.len() == crate::game::legal_codes(b).len(),
        forall|i: int|
            0 <= i < moves.len() ==> (#[trigger] moves[i]).wf() && moves[i].code()
                == crate::game::legal_codes(b)[i],
        forall|i: int| 0 <= i < moves.len() ==> legal_move_facts(b, #[trigger] moves[i]),
    ensures
        forall|k: int|
            0 <= k < scored_prefix(b, n, hcode).len() ==> scored_elem_ok(
                b,
                #[trigger] scored_prefix(b, n, hcode)[k],
            ),
    decreases n,
{
    if n > 0 {
        lemma_scored_prefix_elems(b, moves, n - 1, hcode);
        let m = legal_move_at(b, n - 1);
        move_hash::lemma_encode_decode(moves[n - 1]);
        assert(m == moves[n - 1]);
        assert(crate::game::legal_codes(b)[n - 1] == m.code());
        assert(crate::game::legal_codes(b).contains(m.code()));
        let prev = scored_prefix(b, n - 1, hcode);
        let cur = scored_prefix(b, n, hcode);
        assert forall|k: int| 0 <= k < cur.len() implies scored_elem_ok(b, #[trigger] cur[k]) by {
            if m.code() == hcode {
                assert(cur[k] == prev[k]);
            } else if k < prev.len() {
                assert(cur[k] == prev[k]);
            } else {
                assert(cur[k] == (capture_score_spec(b, m) as i8, m));
            }
        }
    }
}

/// Everything in a captures prefix is a well-formed legal capture with
/// its score.
pub proof fn lemma_captures_prefix_elems(b: chess::Board, moves: Seq<Move>, n: int)
    requires
        0 <= n <= moves.len(),
        moves.len() == crate::game::legal_codes(b).len(),
        forall|i: int|
            0 <= i < moves.len() ==> (#[trigger] moves[i]).wf() && moves[i].code()
                == crate::game::legal_codes(b)[i],
        forall|i: int| 0 <= i < moves.len() ==> legal_move_facts(b, #[trigger] moves[i]),
    ensures
        forall|k: int|
            0 <= k < captures_prefix(b, n).len() ==> scored_elem_ok(
                b,
                #[trigger] captures_prefix(b, n)[k],
            ) && is_capture_move(b, captures_prefix(b, n)[k].1),
    decreases n,
{
    if n > 0 {
        lemma_captures_prefix_elems(b, moves, n - 1);
        let m = legal_move_at(b, n - 1);
        move_hash::lemma_encode_decode(moves[n - 1]);
        assert(m == moves[n - 1]);
        assert(crate::game::legal_codes(b)[n - 1] == m.code());
        assert(crate::game::legal_codes(b).contains(m.code()));
        let prev = captures_prefix(b, n - 1);
        let cur = captures_prefix(b, n);
        assert forall|k: int| 0 <= k < cur.len() implies scored_elem_ok(b, #[trigger] cur[k])
            && is_capture_move(b, cur[k].1) by {
            if !is_capture_move(b, m) {
                assert(cur[k] == prev[k]);
            } else if k < prev.len() {
                assert(cur[k] == prev[k]);
            } else {
                assert(cur[k] == (capture_score_spec(b, m) as i8, m));
            }
        }
    }
}

/// The captures keep the same moves once sorted.
pub proof fn lemma_sorted_captures_elems(s: Seq<(i8, Move)>, b: chess::Board)
    requires
        forall|k: int|
            0 <= k < s.len() ==> scored_elem_ok(b, #[trigger] s[k]) && is_capture_move(b, s[k].1),
    ensures
        forall|k: int|
            0 <= k < sort_spec(s).len() ==> scored_elem_ok(b, #[trigger] sort_spec(s)[k])
                && is_capture_move(b, sort_spec(s)[k].1),
{
    broadcast use vstd::seq_lib::group_to_multiset_ensures;

    lemma_sort_spec(s);
    assert forall|k: int| 0 <= k < sort_spec(s).len() implies scored_elem_ok(
        b,
        #[trigger] sort_spec(s)[k],
    ) && is_capture_move(b, sort_spec(s)[k].1) by {
        let p = sort_spec(s)[k];
        assert(sort_spec(s).contains(p));
        assert(sort_spec(s).to_multiset().contains(p));
        assert(s.to_multiset().contains(p));
        assert(s.contains(p));
        let j = choose|j: int| 0 <= j < s.len() && s[j] == p;
        assert(scored_elem_ok(b, s[j]) && is_capture_move(b, s[j].1));
    }
}

/// A well-formed legal hint is emitted first, ahead of every other move.
pub proof fn lemma_hint_emitted_first(b: chess::Board, h: Move)
    requires
        h.wf(),
        crate::game::legal_codes(b).contains(h.code()),
    ensures
        ordered_spec(b, Option::Some(h)).len() > 0,
        ordered_spec(b, Option::Some(h))[0] == h,
{
    assert(h.code() >= 0);
    assert(hint_code_of(b, Option::Some(h)) == h.code());
}

/// Inserting at the position an ascending scan from the right finds is
/// the same as the recursive stable insertion.
proof fn lemma_insert_at(s: Seq<(i8, Move)>, x: (i8, Move), k: int)
    requires
        sorted_by_score(s),
        0 <= k <= s.len(),
        forall|j: int| k <= j < s.len() ==> (#[trigger] s[j]).0 > x.0,
        k > 0 ==> s[k - 1].0 <= x.0,
    ensures
        insert_sorted(s, x) == s.insert(k, x),
    decreases s.len(),
{
    if s.len() == 0 {
        assert(insert_sorted(s, x) =~= s.insert(0, x));
    } else if k == s.len() {
        assert(!(x.0 < s.last().0));
        assert(insert_sorted(s, x) =~= s.insert(k, x));
    } else {
        assert(s[s.len() - 1].0 > x.0);
        assert(x.0 < s.last().0);
        assert(sorted_by_score(s.drop_last()));
        lemma_insert_at(s.drop_last(), x, k);
        assert(insert_sorted(s.drop_last(), x).push(s.last()) =~= s.insert(k, x));
    }
}

/// The move sorter. It holds no state; ordering is a pure function of
/// the position and the hint.
pub struct MoveSorter;

impl MoveSorter {
    /// A move's ordering score in this position.
    fn capture_score(position: &Position, m: Move) -> (r: i8)
        requires
            m.wf(),
            legal_move_facts(position.b(), m),
        ensures
            r as int == capture_score_spec(position.b(), m),
    {
        let stm_white = position.side_to_move().is_white_exec();
        let capture = match position.color_on(m.dest) {
            Option::Some(c) => c.is_white_exec() != stm_white,
            Option::None => false,
        };
        if capture {
            let attacker = match position.piece_on(m.source) {
                Option::Some(p) => p,
                Option::None => {
                    proof {
                        assert(false);
                    }
                    Piece::Pawn
                },
            };
            let victim = match position.piece_on(m.dest) {
                Option::Some(p) => p,
                Option::None => {
                    proof {
                        assert(false);
                    }
                    Piece::Pawn
                },
            };
            Self::mvv(attacker) - Self::mvv(victim)
        } else if m.promotion.is_some() {
            10
        } else {
            127
        }
    }

    /// The capture value of a piece.
    fn mvv(piece: Piece) -> (r: i8)
        ensures
            r as int == mvv_value(piece.index_spec()),
            0 <= r <= 9,
    {
        match piece {
            Piece::Pawn => 1,
            Piece::Knight => 3,
            Piece::Bishop => 3,
            Piece::Rook => 5,
            Piece::Queen => 9,
            Piece::King => 0,
        }
    }

    /// Stable insertion sort, ascending by score.
    #[verifier::loop_isolation(false)]
    fn sort_scored(input: &Vec<(i8, Move)>) -> (r: Vec<(i8, Move)>)
        ensures
            r@ == sort_spec(input@),
    {
        let mut out: Vec<(i8, Move)> = Vec::new();
        let mut i: usize = 0;
        while i < input.len()
            invariant
                i <= input@.len(),
                out@ == sort_spec(input@.take(i as int)),
                out@.len() == i,
                sorted_by_score(out@),
            decreases input@.len() - i,
        {
            let x = input[i];
            let mut k: usize = out.len();
            while k > 0 && out[k - 1].0 > x.0
                invariant
                    k <= out@.len(),
                    forall|j: int| k <= j < out@.len() ==> (#[trigger] out@[j]).0 > x.0,
                decreases k,
            {
                k -= 1;
            }
            proof {
                lemma_insert_at(out@, x, k as int);
                assert(input@.take(i + 1).drop_last() =~= input@.take(i as int));
                assert(input@.take(i + 1).last() == x);
                lemma_insert_sorted(out@, x);
            }
            out.insert(k, x);
            i += 1;
        }
        proof {
            assert(input@.take(input@.len() as int) =~= input@);
        }
        out
    }

    /// The legal moves of the position, the hint first when it is legal,
    /// the rest in stable ascending capture-score order.
    #[verifier::loop_isolation(false)]
    pub fn sorted_moves(&self, position: &Position, best_move: Option<Move>) -> (r: Vec<Move>)
        ensures
            r@ == ordered_spec(position.b(), best_move),
            r@.len() == crate::game::legal_codes(position.b()).len(),
            forall|i: int|
                0 <= i < r@.len() ==> (#[trigger] r@[i]).wf() && crate::game::legal_codes(
                    position.b(),
                ).contains(r@[i].code()) && legal_move_facts(position.b(), r@[i]),
    {
        let ghost b = position.b();
        let moves = position.legal_moves();
        let hint: Option<(u16, Move)> = match best_move {
            Option::Some(h) => {
                if h.is_wf() && position.legal(h) {
                    Option::Some((move_hash::get_hash(h), h))
                } else {
                    Option::None
                }
            },
            Option::None => Option::None,
        };
        let ghost hcode = hint_code_of(b, best_move);
        proof {
            match hint {
                Option::Some((hc, h)) => {
                    assert(hcode == h.code());
                    assert(hc as int == h.code());
                },
                Option::None => {
                    assert(hcode == -1);
                },
            }
        }
        let mut scored: Vec<(i8, Move)> = Vec::new();
        let mut i: usize = 0;
        let mut skipped = false;
        while i < moves.len()
            invariant
                i <= moves@.len(),
                scored@ == scored_prefix(b, i as int, hcode),
                skipped <==> exists|k: int| 0 <= k < i && (#[trigger] moves@[k]).code() == hcode,
                scored@.len() == if skipped {
                    i - 1
                } else {
                    i as int
                },
            decreases moves@.len() - i,
        {
            let m = moves[i];
            proof {
                assert(moves@[i as int].wf());
                move_hash::lemma_encode_decode(m);
                assert(legal_move_at(b, i as int) == m);
            }
            let mcode = move_hash::get_hash(m);
            let is_hint = match hint {
                Option::Some((hc, _)) => mcode == hc,
                Option::None => false,
            };
            if is_hint {
                skipped = true;
            } else {
                let score = Self::capture_score(position, m);
                scored.push((score, m));
            }
            i += 1;
        }
        proof {
            lemma_scored_prefix_elems(b, moves@, moves@.len() as int, hcode);
            lemma_sort_keeps_elems(scored@, b);
            lemma_sort_spec(scored@);
        }
        let ghost run = scored@;
        let sorted = Self::sort_scored(&scored);
        let mut r: Vec<Move> = Vec::new();
        match hint {
            Option::Some((_, h)) => {
                r.push(h);
                proof {
                    let codes = crate::game::legal_codes(b);
                    assert(codes.contains(h.code()));
                    let k = choose|k: int| 0 <= k < codes.len() && codes[k] == h.code();
                    assert(moves@[k].wf());
                    assert(moves@[k].code() == hcode);
                    assert(skipped);
                }
            },
            Option::None => {
                proof {
                    if skipped {
                        let k = choose|k: int|
                            0 <= k < moves@.len() && (#[trigger] moves@[k]).code() == hcode;
                        assert(moves@[k].code() >= 0);
                        assert(false);
                    }
                }
            },
        }
        let ghost prefix = r@;
        let mut j: usize = 0;
        while j < sorted.len()
            invariant
                j <= sorted@.len(),
                r@ == prefix + sorted@.map_values(|p: (i8, Move)| p.1).take(j as int),
            decreases sorted@.len() - j,
        {
            let m = sorted[j].1;
            r.push(m);
            proof {
                assert(r@ =~= prefix + sorted@.map_values(|p: (i8, Move)| p.1).take(j + 1));
            }
            j += 1;
        }
        proof {
            let mapped = sort_spec(run).map_values(|p: (i8, Move)| p.1);
            assert(r@ =~= prefix + mapped);
            assert(r@ =~= ordered_spec(b, best_move));
            assert forall|i: int| 0 <= i < r@.len() implies (#[trigger] r@[i]).wf()
                && crate::game::legal_codes(b).contains(r@[i].code()) && legal_move_facts(
                b,
                r@[i],
            ) by {
                if i >= prefix.len() {
                    let p = sort_spec(run)[i - prefix.len()];
                    assert(r@[i] == p.1);
                    assert(scored_elem_ok(b, p));
                } else {
                    let h = best_move->Some_0;
                    let codes = crate::game::legal_codes(b);
                    let k = choose|k: int| 0 <= k < codes.len() && codes[k] == h.code();
                    assert(moves@[k].wf());
                    assert(legal_move_facts(b, moves@[k]));
                    move_hash::lemma_encode_decode(h);
                    move_hash::lemma_encode_decode(moves@[k]);
                    assert(moves@[k] == h);
                }
            }
        }
        r
    }

    /// The legal captures of the position, in stable ascending
    /// capture-score order.
    #[verifier::loop_isolation(false)]
    pub fn sorted_captures(&self, position: &Position) -> (r: Vec<Move>)
        ensures
            r@ == sorted_captures_spec(position.b()),
            forall|i: int|
                0 <= i < r@.len() ==> (#[trigger] r@[i]).wf() && crate::game::legal_codes(
                    position.b(),
                ).contains(r@[i].code()) && legal_move_facts(position.b(), r@[i])
                    && is_capture_move(position.b(), r@[i]),
    {
        let ghost b = position.b();
        let moves = position.legal_moves();
        let stm_white = position.side_to_move().is_white_exec();
        let mut scored: Vec<(i8, Move)> = Vec::new();
        let mut i: usize = 0;
        while i < moves.len()
            invariant
                i <= moves@.len(),
                scored@ == captures_prefix(b, i as int),
            decreases moves@.len() - i,
        {
            let m = moves[i];
            proof {
                assert(moves@[i as int].wf());
                move_hash::lemma_encode_decode(m);
                assert(legal_move_at(b, i as int) == m);
            }
            let capture = match position.color_on(m.dest) {
                Option::Some(c) => c.is_white_exec() != stm_white,
                Option::None => false,
            };
            if capture {
                let score = Self::capture_score(position, m);
                scored.push((score, m));
            }
            i += 1;
        }
        proof {
            lemma_captures_prefix_elems(b, moves@, moves@.len() as int);
            lemma_sorted_captures_elems(scored@, b);
            lemma_sort_spec(scored@);
        }
        let ghost run = scored@;
        let sorted = Self::sort_scored(&scored);
        let mut r: Vec<Move> = Vec::new();
        let mut j: usize = 0;
        while j < sorted.len()
            invariant
                j <= sorted@.len(),
                r@ == sorted@.map_values(|p: (i8, Move)| p.1).take(j as int),
            decreases sorted@.len() - j,
        {
            let m = sorted[j].1;
            r.push(m);
            proof {
                assert(r@ =~= sorted@.map_values(|p: (i8, Move)| p.1).take(j + 1));
            }
            j += 1;
        }
        proof {
            assert(r@ =~= sort_spec(run).map_values(|p: (i8, Move)| p.1));
            assert forall|i: int| 0 <= i < r@.len() implies (#[trigger] r@[i]).wf()
                && crate::game::legal_codes(b).contains(r@[i].code()) && legal_move_facts(
                b,
                r@[i],
            ) && is_capture_move(b, r@[i]) by {
                let p = sort_spec(run)[i];
                assert(r@[i] == p.1);
                assert(scored_elem_ok(b, p));
            }
        }
        r
    }
}

} // verus!
