//! The iterative-deepening principal-variation search.
//!
//! A fail-soft negamax with alpha-beta pruning, quiescence search at the
//! horizon, null-move pruning from depth 3, one check extension per path,
//! and the two-tier transposition table for bounds and move ordering.
//!
//! Everything the search computes is pinned to a spec-level mirror: the
//! quiescence search and the null-move oracle compute exactly
//! [`q_value`] and [`nm_value`]; one driver node computes exactly
//! [`ab_spec`] — probe, terminal, horizon, null-move cutoff, then the
//! principal-variation pass [`pvs_spec`] with its classified store — and
//! also satisfies the readable step contract [`search_node_post`]; the
//! deepening leaves exactly the table [`deepen_spec`] folds out, and the
//! move the agent answers with is the head of that final table's
//! ordering, legal in the root position.

use vstd::prelude::*;
use crate::eval::{Evaluator, MAX_EVAL, MIN_EVAL};
use crate::game::{
    game_board, in_check_of, legal_codes, status_of, Action, BoardStatus, ChessGame, Move,
    Position,
};
use crate::node::NodeValue;
use crate::tt::TranspositionTable;

verus! {

/// The fail-hard negamax value at a fixed depth, dropping to the
/// quiescence value at the horizon, over the hint-free move ordering:
/// what the null-move heuristic's plain search computes.
pub open spec fn nm_value<E: Evaluator>(
    e: E,
    b: chess::Board,
    depth: int,
    alpha: int,
    beta: int,
    fuel: nat,
) -> int
    decreases depth, 1int, 0int,
{
    if depth <= 0 {
        q_value(e, b, alpha, beta, fuel)
    } else {
        nm_loop(e, b, crate::move_sorter::ordered_spec(b, Option::None), 0, depth, alpha, beta, fuel)
    }
}

/// The move loop of the fixed-depth negamax value.
pub open spec fn nm_loop<E: Evaluator>(
    e: E,
    b: chess::Board,
    moves: Seq<Move>,
    i: int,
    depth: int,
    alpha: int,
    beta: int,
    fuel: nat,
) -> int
    decreases depth, 0int, moves.len() - i,
{
    if i < 0 || i >= moves.len() || depth <= 0 {
        alpha
    } else {
        let v = -nm_value(
            e,
            crate::game::moved_board(b, moves[i].code()),
            depth - 1,
            -beta,
            -alpha,
            fuel,
        );
        if v >= beta {
            beta
        } else {
            nm_loop(
                e,
                b,
                moves,
                i + 1,
                depth,
                if v > alpha {
                    v
                } else {
                    alpha
                },
                beta,
                fuel,
            )
        }
    }
}

/// How a finished node is classified against the window it was searched
/// with: at or below the original alpha an upper bound, at or above beta
/// a lower bound, in between exact.
pub open spec fn classify_node(alpha: int, beta: int, value: i16) -> NodeValue<i16> {
    if value <= alpha {
        NodeValue::All { value }
    } else if value >= beta {
        NodeValue::Cut { value }
    } else {
        NodeValue::Principal { value }
    }
}

/// What the table probe decides: the answer (if the node is settled) and
/// the tightened window. An exact entry deep enough answers at once; a
/// lower bound raises alpha, an upper bound lowers beta, and a window
/// those bounds close answers with the stored value.
pub open spec fn probe_spec(
    deep: Seq<crate::tt::Entry>,
    shallow: Seq<crate::tt::Entry>,
    slot: int,
    key: u64,
    depth: int,
    alpha: int,
    beta: int,
) -> (Option<i16>, int, int) {
    match crate::tt::lookup_spec(deep, shallow, slot, key) {
        Option::None => (Option::None, alpha, beta),
        Option::Some((node, evaluation_depth)) => {
            if evaluation_depth >= depth {
                match node {
                    NodeValue::Principal { value } => (Option::Some(value), alpha, beta),
                    NodeValue::Cut { value } => {
                        let a = if value > alpha {
                            value as int
                        } else {
                            alpha
                        };
                        if a >= beta {
                            (Option::Some(value), a, beta)
                        } else {
                            (Option::None, a, beta)
                        }
                    },
                    NodeValue::All { value } => {
                        let b = if value < beta {
                            value as int
                        } else {
                            beta
                        };
                        if alpha >= b {
                            (Option::Some(value), alpha, b)
                        } else {
                            (Option::None, alpha, b)
                        }
                    },
                }
            } else {
                (Option::None, alpha, beta)
            }
        },
    }
}

/// The fail-hard quiescence value: stand pat on the evaluation, then the
/// captures in their sorted order. Fuel bounds the recursion; any fuel
/// above the board's piece count gives the same value, since every
/// capture removes a piece.
pub open spec fn q_value<E: Evaluator>(e: E, b: chess::Board, alpha: int, beta: int, fuel: nat) -> int
    decreases fuel, 0int, 0int,
{
    if fuel == 0 {
        alpha
    } else {
        let stand = e.eval_spec(b);
        if stand >= beta {
            beta
        } else {
            let a = if alpha < stand {
                stand
            } else {
                alpha
            };
            q_loop(e, b, crate::move_sorter::sorted_captures_spec(b), 0, a, beta, (fuel - 1) as nat)
        }
    }
}

/// The capture loop of the quiescence value: fail-hard over the tail of
/// the capture list.
pub open spec fn q_loop<E: Evaluator>(
    e: E,
    b: chess::Board,
    moves: Seq<Move>,
    i: int,
    alpha: int,
    beta: int,
    fuel: nat,
) -> int
    decreases fuel, 1int, moves.len() - i,
{
    if i < 0 || i >= moves.len() {
        alpha
    } else {
        let s = -q_value(e, crate::game::moved_board(b, moves[i].code()), -beta, -alpha, fuel);
        if s >= beta {
            beta
        } else {
            q_loop(
                e,
                b,
                moves,
                i + 1,
                if s > alpha {
                    s
                } else {
                    alpha
                },
                beta,
                fuel,
            )
        }
    }
}

/// The slot a key maps to in a table with `n` slots per tier.
pub open spec fn slot_at(n: int, key: u64) -> int {
    key as int % n
}

/// The move hint two table tiers hold for a slot, if one is set.
pub open spec fn hint_of(
    deep: Seq<crate::tt::Entry>,
    shallow: Seq<crate::tt::Entry>,
    slot: int,
    key: u64,
) -> Option<Move> {
    match crate::tt::best_code_spec(deep, shallow, slot, key) {
        Option::None => Option::None,
        Option::Some(code) => Option::Some(crate::move_hash::decoded(code)),
    }
}

/// The table's move hint for a board: the stored best move of the
/// board's slot, if one is set.
pub open spec fn table_hint(tt: TranspositionTable, b: chess::Board) -> Option<Move> {
    hint_of(
        tt.deep_entries(),
        tt.shallow_entries(),
        tt.slot_of(crate::game::zobrist_key(b)),
        crate::game::zobrist_key(b),
    )
}

/// The depth a node is searched to: one deeper when the check extension
/// is still available and the side to move stands in check.
pub open spec fn effective_depth(b: chess::Board, depth: u8, extension: bool) -> int {
    if extension && crate::game::in_check_of(b) {
        depth + 1
    } else {
        depth as int
    }
}

/// Whether the null-move heuristic cuts a node off: the hint-free
/// reduced-depth search of the position with the turn handed over, probed
/// with a null window under beta, comes back at or above beta.
pub open spec fn null_move_cuts<E: Evaluator>(e: E, b: chess::Board, d: int, beta: int) -> bool {
    -nm_value(
        e,
        crate::game::null_board(b),
        d - 3,
        -beta,
        -beta + 1,
        (crate::game::piece_total(b) + 1) as nat,
    ) >= beta
}

/// What one search node does, case by case, following the fixed step
/// order of the driver. `tt0` and `tt1` are the table before and after;
/// `probe` is what the table answered and how it tightened the window.
/// A settled probe answers at once; a finished game answers its static
/// evaluation; the horizon answers the quiescence value and stores it
/// exact; a null-move cutoff answers beta and stores nothing; and the
/// principal-variation pass answers within the sentinels and stores its
/// value, classified against the post-probe window, under some legal
/// best move.
pub open spec fn search_node_post<E: Evaluator>(
    e: E,
    tt0: TranspositionTable,
    tt1: TranspositionTable,
    b: chess::Board,
    depth: u8,
    alpha: int,
    beta: int,
    extension: bool,
    r: i16,
) -> bool {
    let d = effective_depth(b, depth, extension);
    let key = crate::game::zobrist_key(b);
    let slot = tt0.slot_of(key);
    let probe = probe_spec(tt0.deep_entries(), tt0.shallow_entries(), slot, key, d, alpha, beta);
    let unchanged = tt1.deep_entries() == tt0.deep_entries() && tt1.shallow_entries()
        == tt0.shallow_entries();
    &&& (probe.0 matches Some(v) ==> r == v && unchanged)
    &&& (probe.0 is None && crate::game::status_of(b) != 0 ==> r as int == e.eval_spec(b)
        && unchanged)
    &&& (probe.0 is None && crate::game::status_of(b) == 0 && d == 0 ==> (forall|fuel: nat|
        fuel > crate::game::piece_total(b) ==> r as int == q_value(e, b, probe.1, probe.2, fuel))
        && tt1.deep_entries() == crate::tt::deep_after_store(
        tt0.deep_entries(),
        slot,
        key,
        0,
        NodeValue::Principal { value: r },
        Option::None,
    ) && tt1.shallow_entries() == crate::tt::shallow_after_store(
        tt0.shallow_entries(),
        slot,
        key,
        0,
        NodeValue::Principal { value: r },
        Option::None,
    ))
    &&& (probe.0 is None && crate::game::status_of(b) == 0 && d >= 3 && !crate::game::in_check_of(
        b,
    ) && null_move_cuts(e, b, d, probe.2) ==> r as int == probe.2 && unchanged)
    &&& (probe.0 is None && crate::game::status_of(b) == 0 && d >= 1 && !(d >= 3
        && !crate::game::in_check_of(b) && null_move_cuts(e, b, d, probe.2)) ==> MIN_EVAL <= r
        <= MAX_EVAL && exists|m: Move, dmid: Seq<crate::tt::Entry>, smid: Seq<crate::tt::Entry>|
        #![trigger crate::tt::deep_after_store(dmid, slot, key, d as u8, classify_node(probe.1, probe.2, r), Option::Some(m.code())), crate::tt::shallow_after_store(smid, slot, key, d as u8, classify_node(probe.1, probe.2, r), Option::Some(m.code()))]
        m.wf() && crate::game::legal_codes(b).contains(m.code()) && tt1.deep_entries()
            == crate::tt::deep_after_store(
            dmid,
            slot,
            key,
            d as u8,
            classify_node(probe.1, probe.2, r),
            Option::Some(m.code()),
        ) && tt1.shallow_entries() == crate::tt::shallow_after_store(
            smid,
            slot,
            key,
            d as u8,
            classify_node(probe.1, probe.2, r),
            Option::Some(m.code()),
        ))
}

/// One node of the search, at spec level: the value it answers and the
/// two table tiers it leaves behind, as a function of the evaluator, the
/// table state, the board, the window and the flags — fuel-indexed like
/// [`q_value`], and following the driver's step order exactly.
pub open spec fn ab_spec<E: Evaluator>(
    e: E,
    deep: Seq<crate::tt::Entry>,
    shallow: Seq<crate::tt::Entry>,
    n: int,
    b: chess::Board,
    depth: u8,
    alpha: int,
    beta: int,
    extension: bool,
    fuel: nat,
) -> (int, Seq<crate::tt::Entry>, Seq<crate::tt::Entry>)
    decreases search_measure(depth, extension), 3int, 0int,
{
    let d = effective_depth(b, depth, extension);
    let ext2 = if extension && crate::game::in_check_of(b) {
        false
    } else {
        extension
    };
    let key = crate::game::zobrist_key(b);
    let slot = slot_at(n, key);
    let probe = probe_spec(deep, shallow, slot, key, d, alpha, beta);
    if probe.0 is Some {
        (probe.0->0 as int, deep, shallow)
    } else {
        let a = probe.1;
        let bb = probe.2;
        if crate::game::status_of(b) != 0 {
            (e.eval_spec(b), deep, shallow)
        } else if d == 0 {
            let v = q_value(e, b, a, bb, fuel);
            (
                v,
                crate::tt::deep_after_store(
                    deep,
                    slot,
                    key,
                    0,
                    NodeValue::Principal { value: v as i16 },
                    Option::None,
                ),
                crate::tt::shallow_after_store(
                    shallow,
                    slot,
                    key,
                    0,
                    NodeValue::Principal { value: v as i16 },
                    Option::None,
                ),
            )
        } else if d >= 3 && !crate::game::in_check_of(b) && null_move_cuts(e, b, d, bb) {
            (bb, deep, shallow)
        } else {
            let moves = crate::move_sorter::ordered_spec(b, hint_of(deep, shallow, slot, key));
            let r = pvs_spec(e, deep, shallow, n, b, moves, (d as u8), a, bb, ext2, fuel);
            (
                r.0,
                crate::tt::deep_after_store(
                    r.2,
                    slot,
                    key,
                    d as u8,
                    classify_node(a, bb, r.0 as i16),
                    Option::Some(r.1.code()),
                ),
                crate::tt::shallow_after_store(
                    r.3,
                    slot,
                    key,
                    d as u8,
                    classify_node(a, bb, r.0 as i16),
                    Option::Some(r.1.code()),
                ),
            )
        }
    }
}

/// The principal-variation pass, at spec level: the first move with the
/// full window, the rest through the null-window probe, answering the
/// raised alpha, the move that last raised it, and the table state the
/// child searches left behind.
pub open spec fn pvs_spec<E: Evaluator>(
    e: E,
    deep: Seq<crate::tt::Entry>,
    shallow: Seq<crate::tt::Entry>,
    n: int,
    b: chess::Board,
    moves: Seq<Move>,
    depth: u8,
    alpha: int,
    beta: int,
    extension: bool,
    fuel: nat,
) -> (int, Move, Seq<crate::tt::Entry>, Seq<crate::tt::Entry>)
    decreases search_measure(depth, extension), 2int, 0int,
{
    if depth == 0 {
        (alpha, moves[0], deep, shallow)
    } else {
        let r0 = ab_spec(
            e,
            deep,
            shallow,
            n,
            crate::game::moved_board(b, moves[0].code()),
            (depth - 1) as u8,
            -beta,
            -alpha,
            extension,
            fuel,
        );
        let a1 = if -r0.0 > alpha {
            -r0.0
        } else {
            alpha
        };
        if a1 >= beta {
            (a1, moves[0], r0.1, r0.2)
        } else {
            pvs_loop_spec(e, r0.1, r0.2, n, b, moves, 1, depth, a1, beta, extension, fuel, moves[0])
        }
    }
}

/// The tail of the principal-variation pass over the remaining moves.
pub open spec fn pvs_loop_spec<E: Evaluator>(
    e: E,
    deep: Seq<crate::tt::Entry>,
    shallow: Seq<crate::tt::Entry>,
    n: int,
    b: chess::Board,
    moves: Seq<Move>,
    i: int,
    depth: u8,
    alpha: int,
    beta: int,
    extension: bool,
    fuel: nat,
    best: Move,
) -> (int, Move, Seq<crate::tt::Entry>, Seq<crate::tt::Entry>)
    decreases search_measure(depth, extension), 1int, moves.len() - i,
{
    if i < 1 || i >= moves.len() {
        (alpha, best, deep, shallow)
    } else {
        let rn = nws_spec(
            e,
            deep,
            shallow,
            n,
            crate::game::moved_board(b, moves[i].code()),
            depth,
            alpha,
            beta,
            extension,
            fuel,
        );
        let a2 = if rn.0 > alpha {
            rn.0
        } else {
            alpha
        };
        let best2 = if rn.0 > alpha {
            moves[i]
        } else {
            best
        };
        if a2 >= beta {
            (a2, best2, rn.1, rn.2)
        } else {
            pvs_loop_spec(e, rn.1, rn.2, n, b, moves, i + 1, depth, a2, beta, extension, fuel, best2)
        }
    }
}

/// The null-window probe of one child, at spec level: probe just under
/// alpha, and re-search with the full window when the probe lands
/// strictly inside it.
pub open spec fn nws_spec<E: Evaluator>(
    e: E,
    deep: Seq<crate::tt::Entry>,
    shallow: Seq<crate::tt::Entry>,
    n: int,
    child: chess::Board,
    depth: u8,
    alpha: int,
    beta: int,
    extension: bool,
    fuel: nat,
) -> (int, Seq<crate::tt::Entry>, Seq<crate::tt::Entry>)
    decreases search_measure(depth, extension), 0int, 0int,
{
    if depth == 0 {
        (alpha, deep, shallow)
    } else {
        let r1 = ab_spec(
            e,
            deep,
            shallow,
            n,
            child,
            (depth - 1) as u8,
            -alpha - 1,
            -alpha,
            extension,
            fuel,
        );
        let v = -r1.0;
        if alpha < v && v < beta {
            let r2 = ab_spec(
                e,
                r1.1,
                r1.2,
                n,
                child,
                (depth - 1) as u8,
                -beta,
                -alpha,
                extension,
                fuel,
            );
            (-r2.0, r2.1, r2.2)
        } else {
            (v, r1.1, r1.2)
        }
    }
}

/// That a search node's answer and final tables are exactly what
/// [`ab_spec`] computes from its starting tables.
pub open spec fn ab_agrees<E: Evaluator>(
    e: E,
    deep0: Seq<crate::tt::Entry>,
    shallow0: Seq<crate::tt::Entry>,
    n: int,
    b: chess::Board,
    depth: u8,
    alpha: int,
    beta: int,
    extension: bool,
    fuel: nat,
    r: int,
    deep1: Seq<crate::tt::Entry>,
    shallow1: Seq<crate::tt::Entry>,
) -> bool {
    let rs = ab_spec(e, deep0, shallow0, n, b, depth, alpha, beta, extension, fuel);
    r == rs.0 && deep1 == rs.1 && shallow1 == rs.2
}

/// That a principal-variation pass agrees with [`pvs_spec`].
pub open spec fn pvs_agrees<E: Evaluator>(
    e: E,
    deep0: Seq<crate::tt::Entry>,
    shallow0: Seq<crate::tt::Entry>,
    n: int,
    b: chess::Board,
    moves: Seq<Move>,
    depth: u8,
    alpha: int,
    beta: int,
    extension: bool,
    fuel: nat,
    r: int,
    best: Move,
    deep1: Seq<crate::tt::Entry>,
    shallow1: Seq<crate::tt::Entry>,
) -> bool {
    let rs = pvs_spec(e, deep0, shallow0, n, b, moves, depth, alpha, beta, extension, fuel);
    r == rs.0 && best == rs.1 && deep1 == rs.2 && shallow1 == rs.3
}

/// That a null-window probe agrees with [`nws_spec`].
pub open spec fn nws_agrees<E: Evaluator>(
    e: E,
    deep0: Seq<crate::tt::Entry>,
    shallow0: Seq<crate::tt::Entry>,
    n: int,
    child: chess::Board,
    depth: u8,
    alpha: int,
    beta: int,
    extension: bool,
    fuel: nat,
    r: int,
    deep1: Seq<crate::tt::Entry>,
    shallow1: Seq<crate::tt::Entry>,
) -> bool {
    let rs = nws_spec(e, deep0, shallow0, n, child, depth, alpha, beta, extension, fuel);
    r == rs.0 && deep1 == rs.1 && shallow1 == rs.2
}

/// The table state after the iterative-deepening root searches 1..=D:
/// each iteration searches the root over the tables the previous one
/// left, with the full window and the extension armed.
pub open spec fn deepen_spec<E: Evaluator>(
    e: E,
    deep: Seq<crate::tt::Entry>,
    shallow: Seq<crate::tt::Entry>,
    n: int,
    b: chess::Board,
    i: int,
    depth: u8,
    fuel: nat,
) -> (Seq<crate::tt::Entry>, Seq<crate::tt::Entry>)
    decreases depth + 1 - i,
{
    if i < 1 || i > depth {
        (deep, shallow)
    } else {
        let r = ab_spec(e, deep, shallow, n, b, i as u8, MIN_EVAL as int, MAX_EVAL as int, true, fuel);
        deepen_spec(e, r.1, r.2, n, b, i + 1, depth, fuel)
    }
}

/// That an agent's table went from its old state to the state the
/// deepening fold computes.
pub open spec fn deepen_agrees<E: Evaluator>(
    e: E,
    deep0: Seq<crate::tt::Entry>,
    shallow0: Seq<crate::tt::Entry>,
    n: int,
    b: chess::Board,
    depth: u8,
    fuel: nat,
    deep1: Seq<crate::tt::Entry>,
    shallow1: Seq<crate::tt::Entry>,
) -> bool {
    let tabs = deepen_spec(e, deep0, shallow0, n, b, 1, depth, fuel);
    deep1 == tabs.0 && shallow1 == tabs.1
}

/// The termination measure of the mutually recursive search functions:
/// the remaining depth, plus one while the check extension is still
/// available, since spending it searches one ply deeper.
pub open spec fn search_measure(depth: u8, extension: bool) -> int {
    depth as int + if extension {
        1int
    } else {
        0int
    }
}

/// The main agent: a search depth, the transposition table it keeps
/// between moves, and the evaluator it scores leaves with.
pub struct AlphaBetaChessAgent<E: Evaluator> {
    depth: u8,
    tt: TranspositionTable,
    evaluator: E,
}

impl<E: Evaluator> AlphaBetaChessAgent<E> {
    /// A usable agent: a positive depth the extension cannot overflow,
    /// and a well-formed table.
    pub closed spec fn wf(self) -> bool {
        &&& 1 <= self.depth < 255
        &&& self.tt.wf()
    }

    /// The agent's transposition table, for contracts.
    pub closed spec fn table(self) -> TranspositionTable {
        self.tt
    }

    /// The agent's search depth, for contracts.
    pub closed spec fn depth_spec(self) -> u8 {
        self.depth
    }

    /// The agent's evaluator, for contracts.
    pub closed spec fn evaluator_spec(self) -> E {
        self.evaluator
    }

    pub fn new(depth: u8, tt: TranspositionTable, evaluator: E) -> (r: AlphaBetaChessAgent<E>)
        requires
            1 <= depth < 255,
            tt.wf(),
        ensures
            r.wf(),
            r.table() == tt,
            r.depth_spec() == depth,
            r.evaluator_spec() == evaluator,
    {
        AlphaBetaChessAgent { depth, tt, evaluator }
    }

    /// Swap the evaluator; the search relies only on its contract. The
    /// depth and the table stay.
    pub fn set_evaluator(&mut self, evaluator: E)
        requires
            old(self).wf(),
        ensures
            final(self).wf(),
            final(self).evaluator_spec() == evaluator,
            final(self).table() == old(self).table(),
            final(self).depth_spec() == old(self).depth_spec(),
    {
        self.evaluator = evaluator;
    }

    /// Quiescence search: stand pat on the static evaluation, then try
    /// the captures alone, best first. Each capture removes a piece, so
    /// the recursion is bounded by the pieces on the board, and the
    /// result is exactly the fail-hard quiescence value.
    #[verifier::loop_isolation(false)]
    pub fn q_search(evaluator: &E, position: &Position, alpha: i16, beta: i16) -> (r: i16)
        requires
            MIN_EVAL <= alpha < beta <= MAX_EVAL,
        ensures
            alpha <= r <= beta,
            evaluator.eval_spec(position.b()) >= beta ==> r == beta,
            evaluator.eval_spec(position.b()) < beta ==> r >= evaluator.eval_spec(position.b()),
            forall|fuel: nat|
                fuel > crate::game::piece_total(position.b()) ==> r as int == q_value(
                    *evaluator,
                    position.b(),
                    alpha as int,
                    beta as int,
                    fuel,
                ),
        decreases crate::game::piece_total(position.b()),
    {
        let ghost e = *evaluator;
        let ghost b = position.b();
        let ghost pt = crate::game::piece_total(b);
        let ghost alpha0 = alpha;
        let mut alpha = alpha;
        let evaluation = evaluator.evaluate(position);
        if evaluation >= beta {
            return beta;
        }
        if alpha < evaluation {
            alpha = evaluation;
        }
        let ghost alpha1 = alpha;
        let captures = position.sorted_captures();
        let ghost scs = crate::move_sorter::sorted_captures_spec(b);
        let mut i: usize = 0;
        while i < captures.len()
            invariant
                i <= captures@.len(),
                MIN_EVAL <= alpha < beta,
                alpha1 <= alpha,
                forall|fuel: nat|
                    fuel >= pt ==> q_loop(e, b, scs, 0, alpha1 as int, beta as int, fuel)
                        == #[trigger] q_loop(e, b, scs, i as int, alpha as int, beta as int, fuel),
            decreases captures@.len() - i,
        {
            let m = captures[i];
            let child = position.make_move_new(m);
            let score = -Self::q_search(evaluator, &child, -beta, -alpha);
            proof {
                assert forall|fuel: nat| fuel >= pt implies q_loop(
                    e,
                    b,
                    scs,
                    i as int,
                    alpha as int,
                    beta as int,
                    fuel,
                ) == (if score >= beta {
                    beta as int
                } else {
                    q_loop(
                        e,
                        b,
                        scs,
                        i + 1,
                        if score > alpha {
                            score as int
                        } else {
                            alpha as int
                        },
                        beta as int,
                        fuel,
                    )
                }) by {
                    assert(crate::game::piece_total(child.b()) < pt);
                    assert(fuel > crate::game::piece_total(child.b()));
                    assert((-score) as int == q_value(
                        e,
                        child.b(),
                        (-beta) as int,
                        (-alpha) as int,
                        fuel,
                    ));
                    assert(child.b() == crate::game::moved_board(b, scs[i as int].code()));
                }
            }
            if score >= beta {
                proof {
                    assert forall|fuel: nat|
                        fuel > pt implies beta as int == q_value(
                        e,
                        b,
                        alpha0 as int,
                        beta as int,
                        fuel,
                    ) by {
                        let f1 = (fuel - 1) as nat;
                        assert(q_loop(e, b, scs, 0, alpha1 as int, beta as int, f1) == q_loop(
                            e,
                            b,
                            scs,
                            i as int,
                            alpha as int,
                            beta as int,
                            f1,
                        ));
                        assert(q_loop(e, b, scs, i as int, alpha as int, beta as int, f1)
                            == beta as int);
                    }
                }
                return beta;
            }
            let ghost prev_alpha = alpha;
            if score > alpha {
                alpha = score;
            }
            proof {
                assert forall|fuel: nat|
                    fuel >= pt implies q_loop(e, b, scs, 0, alpha1 as int, beta as int, fuel)
                    == #[trigger] q_loop(
                    e,
                    b,
                    scs,
                    i + 1,
                    alpha as int,
                    beta as int,
                    fuel,
                ) by {
                    assert(q_loop(e, b, scs, 0, alpha1 as int, beta as int, fuel) == q_loop(
                        e,
                        b,
                        scs,
                        i as int,
                        prev_alpha as int,
                        beta as int,
                        fuel,
                    ));
                    assert(q_loop(e, b, scs, i as int, prev_alpha as int, beta as int, fuel)
                        == q_loop(e, b, scs, i + 1, alpha as int, beta as int, fuel));
                }
            }
            i += 1;
        }
        proof {
            assert forall|fuel: nat|
                fuel > pt implies alpha as int == q_value(e, b, alpha0 as int, beta as int, fuel) by {
                assert(q_loop(e, b, scs, scs.len() as int, alpha as int, beta as int, (fuel
                    - 1) as nat) == alpha as int);
                assert(q_loop(e, b, scs, 0, alpha1 as int, beta as int, (fuel - 1) as nat)
                    == alpha as int);
            }
        }
        alpha
    }

    /// A plain fail-hard negamax without the table, the extensions or the
    /// principal-variation windows: the oracle the null-move heuristic
    /// consults. It shares the evaluator, the quiescence search and the
    /// move ordering (without a table hint) with the main search, and its
    /// result is exactly the fixed-depth negamax value.
    #[verifier::loop_isolation(false)]
    pub fn null_alpha_beta(evaluator: &E, position: &Position, depth: u8, alpha: i16, beta: i16) -> (r:
        i16)
        requires
            MIN_EVAL <= alpha < beta <= MAX_EVAL,
        ensures
            alpha <= r <= beta,
            forall|fuel: nat|
                fuel > crate::game::piece_total(position.b()) ==> r as int == nm_value(
                    *evaluator,
                    position.b(),
                    depth as int,
                    alpha as int,
                    beta as int,
                    fuel,
                ),
        decreases depth,
    {
        let ghost e = *evaluator;
        let ghost b = position.b();
        let ghost pt = crate::game::piece_total(b);
        let ghost alpha0 = alpha;
        let mut alpha = alpha;
        if depth == 0 {
            return Self::q_search(evaluator, position, alpha, beta);
        }
        let moves = position.sorted_moves(Option::None);
        let ghost oms = crate::move_sorter::ordered_spec(b, Option::None);
        let mut i: usize = 0;
        while i < moves.len()
            invariant
                i <= moves@.len(),
                MIN_EVAL <= alpha < beta,
                alpha0 <= alpha,
                forall|fuel: nat|
                    fuel > pt ==> nm_loop(
                        e,
                        b,
                        oms,
                        0,
                        depth as int,
                        alpha0 as int,
                        beta as int,
                        fuel,
                    ) == #[trigger] nm_loop(
                        e,
                        b,
                        oms,
                        i as int,
                        depth as int,
                        alpha as int,
                        beta as int,
                        fuel,
                    ),
            decreases moves@.len() - i,
        {
            let m = moves[i];
            let child = position.make_move_new(m);
            let val = -Self::null_alpha_beta(evaluator, &child, depth - 1, -beta, -alpha);
            proof {
                assert forall|fuel: nat| fuel > pt implies nm_loop(
                    e,
                    b,
                    oms,
                    i as int,
                    depth as int,
                    alpha as int,
                    beta as int,
                    fuel,
                ) == (if val >= beta {
                    beta as int
                } else {
                    nm_loop(
                        e,
                        b,
                        oms,
                        i + 1,
                        depth as int,
                        if val > alpha {
                            val as int
                        } else {
                            alpha as int
                        },
                        beta as int,
                        fuel,
                    )
                }) by {
                    assert(crate::game::piece_total(child.b()) <= pt);
                    assert((-val) as int == nm_value(
                        e,
                        child.b(),
                        depth - 1,
                        (-beta) as int,
                        (-alpha) as int,
                        fuel,
                    ));
                    assert(child.b() == crate::game::moved_board(b, oms[i as int].code()));
                }
            }
            if val >= beta {
                proof {
                    assert forall|fuel: nat|
                        fuel > pt implies beta as int == nm_value(
                        e,
                        b,
                        depth as int,
                        alpha0 as int,
                        beta as int,
                        fuel,
                    ) by {
                        assert(nm_loop(e, b, oms, 0, depth as int, alpha0 as int, beta as int, fuel)
                            == nm_loop(
                            e,
                            b,
                            oms,
                            i as int,
                            depth as int,
                            alpha as int,
                            beta as int,
                            fuel,
                        ));
                        assert(nm_loop(
                            e,
                            b,
                            oms,
                            i as int,
                            depth as int,
                            alpha as int,
                            beta as int,
                            fuel,
                        ) == beta as int);
                    }
                }
                return beta;
            }
            let ghost prev_alpha = alpha;
            if val > alpha {
                alpha = val;
            }
            proof {
                assert forall|fuel: nat|
                    fuel > pt implies nm_loop(
                    e,
                    b,
                    oms,
                    0,
                    depth as int,
                    alpha0 as int,
                    beta as int,
                    fuel,
                ) == #[trigger] nm_loop(
                    e,
                    b,
                    oms,
                    i + 1,
                    depth as int,
                    alpha as int,
                    beta as int,
                    fuel,
                ) by {
                    assert(nm_loop(e, b, oms, 0, depth as int, alpha0 as int, beta as int, fuel)
                        == nm_loop(
                        e,
                        b,
                        oms,
                        i as int,
                        depth as int,
                        prev_alpha as int,
                        beta as int,
                        fuel,
                    ));
                    assert(nm_loop(
                        e,
                        b,
                        oms,
                        i as int,
                        depth as int,
                        prev_alpha as int,
                        beta as int,
                        fuel,
                    ) == nm_loop(
                        e,
                        b,
                        oms,
                        i + 1,
                        depth as int,
                        alpha as int,
                        beta as int,
                        fuel,
                    ));
                }
            }
            i += 1;
        }
        proof {
            assert forall|fuel: nat|
                fuel > pt implies alpha as int == nm_value(
                e,
                b,
                depth as int,
                alpha0 as int,
                beta as int,
                fuel,
            ) by {
                assert(nm_loop(e, b, oms, 0, depth as int, alpha0 as int, beta as int, fuel)
                    == nm_loop(
                    e,
                    b,
                    oms,
                    oms.len() as int,
                    depth as int,
                    alpha as int,
                    beta as int,
                    fuel,
                ));
            }
        }
        alpha
    }

    /// One check extension per path: when allowed and the side to move is
    /// in check, search one ply deeper and spend the allowance.
    fn check_extension(position: &Position, depth: &mut u8, check_extension_enabled: &mut bool)
        requires
            *old(depth) < 255,
        ensures
            *old(check_extension_enabled) && in_check_of(position.b()) ==> *final(depth) == *old(
                depth,
            ) + 1 && *final(check_extension_enabled) == false,
            !(*old(check_extension_enabled) && in_check_of(position.b())) ==> *final(depth) == *old(
                depth,
            ) && *final(check_extension_enabled) == *old(check_extension_enabled),
    {
        if *check_extension_enabled && position.in_check() {
            *depth += 1;
            *check_extension_enabled = false;
        }
    }

    /// The transposition-table probe: an exact entry deep enough answers
    /// at once; a lower bound raises alpha, an upper bound lowers beta,
    /// and a window closed by those bounds answers with the stored value.
    fn cached_evaluation(
        tt: &TranspositionTable,
        position: &Position,
        depth: u8,
        alpha: &mut i16,
        beta: &mut i16,
    ) -> (r: Option<i16>)
        requires
            tt.wf(),
            MIN_EVAL <= *old(alpha) < *old(beta) <= MAX_EVAL,
        ensures
            ({
                let probe = probe_spec(
                    tt.deep_entries(),
                    tt.shallow_entries(),
                    tt.slot_of(crate::game::zobrist_key(position.b())),
                    crate::game::zobrist_key(position.b()),
                    depth as int,
                    *old(alpha) as int,
                    *old(beta) as int,
                );
                r == probe.0 && *final(alpha) == probe.1 && *final(beta) == probe.2
            }),
            r matches Some(v) ==> MIN_EVAL <= v <= MAX_EVAL,
            r is None ==> MIN_EVAL <= *final(alpha) < *final(beta) <= MAX_EVAL,
            r is None ==> *old(alpha) <= *final(alpha) && *final(beta) <= *old(beta),
    {
        match tt.get_evaluation_and_depth(position) {
            Option::None => Option::None,
            Option::Some((node, evaluation_depth)) => {
                if evaluation_depth >= depth {
                    match node {
                        NodeValue::Principal { value } => Option::Some(value),
                        NodeValue::Cut { value } => {
                            if value > *alpha {
                                *alpha = value;
                            }
                            if *alpha >= *beta {
                                Option::Some(value)
                            } else {
                                Option::None
                            }
                        },
                        NodeValue::All { value } => {
                            if value < *beta {
                                *beta = value;
                            }
                            if *alpha >= *beta {
                                Option::Some(value)
                            } else {
                                Option::None
                            }
                        },
                    }
                } else {
                    Option::None
                }
            },
        }
    }

    /// Classify a finished node against the window it was searched with
    /// and write it back to the table: at or below the original alpha an
    /// upper bound, at or above beta a lower bound, in between exact.
    fn update_cache(
        tt: &mut TranspositionTable,
        position: &Position,
        depth: u8,
        alpha: i16,
        beta: i16,
        value: i16,
        best_move: Move,
    )
        requires
            old(tt).wf(),
            MIN_EVAL <= value <= MAX_EVAL,
            best_move.wf(),
        ensures
            final(tt).wf(),
            final(tt).capacity() == old(tt).capacity(),
            final(tt).deep_entries() == crate::tt::deep_after_store(
                old(tt).deep_entries(),
                old(tt).slot_of(crate::game::zobrist_key(position.b())),
                crate::game::zobrist_key(position.b()),
                depth,
                classify_node(alpha as int, beta as int, value),
                Option::Some(best_move.code()),
            ),
            final(tt).shallow_entries() == crate::tt::shallow_after_store(
                old(tt).shallow_entries(),
                old(tt).slot_of(crate::game::zobrist_key(position.b())),
                crate::game::zobrist_key(position.b()),
                depth,
                classify_node(alpha as int, beta as int, value),
                Option::Some(best_move.code()),
            ),
    {
        let node = if value <= alpha {
            NodeValue::all_node(value)
        } else if value >= beta {
            NodeValue::cut_node(value)
        } else {
            NodeValue::pv_node(value)
        };
        tt.update_evaluation_and_best_move(position, depth, node, Option::Some(best_move));
    }

    /// The moves to search, best table move first.
    fn expand(tt: &TranspositionTable, position: &Position) -> (r: Vec<Move>)
        requires
            tt.wf(),
        ensures
            r@ == crate::move_sorter::ordered_spec(
                position.b(),
                table_hint(*tt, position.b()),
            ),
            r@.len() == legal_codes(position.b()).len(),
            forall|i: int|
                0 <= i < r@.len() ==> (#[trigger] r@[i]).wf() && legal_codes(position.b()).contains(
                    r@[i].code(),
                ) && crate::game::legal_move_facts(position.b(), r@[i]),
    {
        position.sorted_moves(tt.best_move(position))
    }

    /// Search a child with a null window around alpha, and re-search it
    /// with the full window when the probe lands inside it: the probe is
    /// one search node at the null window, and the answer is either its
    /// (negated) value or, when that value lands strictly inside the
    /// window, the value of one more search node at the full window —
    /// each node behaving as [`search_node_post`] says.
    /// Search a child with a null window around alpha, and re-search it
    /// with the full window when the probe lands inside it — exactly as
    /// [`nws_spec`] computes.
    fn null_window_search(
        evaluator: &E,
        tt: &mut TranspositionTable,
        position: &Position,
        depth: u8,
        alpha: i16,
        beta: i16,
        check_extension_enabled: bool,
    ) -> (r: i16)
        requires
            old(tt).wf(),
            MIN_EVAL <= alpha < beta <= MAX_EVAL,
            1 <= depth,
        ensures
            final(tt).wf(),
            final(tt).capacity() == old(tt).capacity(),
            MIN_EVAL <= r <= MAX_EVAL,
            forall|fuel: nat|
                fuel > crate::game::piece_total(position.b()) ==> #[trigger] nws_agrees(
                    *evaluator,
                    old(tt).deep_entries(),
                    old(tt).shallow_entries(),
                    old(tt).capacity(),
                    position.b(),
                    depth,
                    alpha as int,
                    beta as int,
                    check_extension_enabled,
                    fuel,
                    r as int,
                    final(tt).deep_entries(),
                    final(tt).shallow_entries(),
                ),
        decreases search_measure(depth, check_extension_enabled), 0int,
    {
        let ghost e = *evaluator;
        let ghost cb = position.b();
        let ghost tt0 = *tt;
        let ghost pt = crate::game::piece_total(cb);
        let probe = Self::alpha_beta(
            evaluator,
            tt,
            position,
            depth - 1,
            -alpha - 1,
            -alpha,
            check_extension_enabled,
        );
        let ghost ttm = *tt;
        let value = -probe;
        if alpha < value && value < beta {
            let full = Self::alpha_beta(
                evaluator,
                tt,
                position,
                depth - 1,
                -beta,
                -alpha,
                check_extension_enabled,
            );
            let r = -full;
            proof {
                assert forall|fuel: nat| fuel > pt implies #[trigger] nws_agrees(
                    e,
                    tt0.deep_entries(),
                    tt0.shallow_entries(),
                    tt0.capacity(),
                    cb,
                    depth,
                    alpha as int,
                    beta as int,
                    check_extension_enabled,
                    fuel,
                    r as int,
                    tt.deep_entries(),
                    tt.shallow_entries(),
                ) by {
                    assert(ab_agrees(
                        e,
                        tt0.deep_entries(),
                        tt0.shallow_entries(),
                        tt0.capacity(),
                        cb,
                        (depth - 1) as u8,
                        -alpha - 1,
                        -alpha as int,
                        check_extension_enabled,
                        fuel,
                        probe as int,
                        ttm.deep_entries(),
                        ttm.shallow_entries(),
                    ));
                    assert(ab_agrees(
                        e,
                        ttm.deep_entries(),
                        ttm.shallow_entries(),
                        ttm.capacity(),
                        cb,
                        (depth - 1) as u8,
                        -beta as int,
                        -alpha as int,
                        check_extension_enabled,
                        fuel,
                        full as int,
                        tt.deep_entries(),
                        tt.shallow_entries(),
                    ));
                }
            }
            r
        } else {
            proof {
                assert forall|fuel: nat| fuel > pt implies #[trigger] nws_agrees(
                    e,
                    tt0.deep_entries(),
                    tt0.shallow_entries(),
                    tt0.capacity(),
                    cb,
                    depth,
                    alpha as int,
                    beta as int,
                    check_extension_enabled,
                    fuel,
                    value as int,
                    tt.deep_entries(),
                    tt.shallow_entries(),
                ) by {
                    assert(ab_agrees(
                        e,
                        tt0.deep_entries(),
                        tt0.shallow_entries(),
                        tt0.capacity(),
                        cb,
                        (depth - 1) as u8,
                        -alpha - 1,
                        -alpha as int,
                        check_extension_enabled,
                        fuel,
                        probe as int,
                        ttm.deep_entries(),
                        ttm.shallow_entries(),
                    ));
                }
            }
            value
        }
    }

    /// The principal-variation pass over the ordered moves: the first
    /// move with the full window, the rest through null-window probes.
    /// Answers fail-soft within the sentinels, with the move that raised
    /// alpha last — always one of the position's legal moves.
    #[verifier::loop_isolation(false)]
    fn principal_variation_search(
        evaluator: &E,
        tt: &mut TranspositionTable,
        position: &Position,
        depth: u8,
        alpha: i16,
        beta: i16,
        check_extension_enabled: bool,
    ) -> (r: (i16, Move))
        requires
            old(tt).wf(),
            MIN_EVAL <= alpha < beta <= MAX_EVAL,
            1 <= depth,
            status_of(position.b()) == 0,
            legal_codes(position.b()).len() > 0,
        ensures
            final(tt).wf(),
            final(tt).capacity() == old(tt).capacity(),
            MIN_EVAL <= r.0 <= MAX_EVAL,
            alpha <= r.0,
            r.1.wf(),
            legal_codes(position.b()).contains(r.1.code()),
            forall|fuel: nat|
                fuel > crate::game::piece_total(position.b()) ==> #[trigger] pvs_agrees(
                    *evaluator,
                    old(tt).deep_entries(),
                    old(tt).shallow_entries(),
                    old(tt).capacity(),
                    position.b(),
                    crate::move_sorter::ordered_spec(
                        position.b(),
                        table_hint(*old(tt), position.b()),
                    ),
                    depth,
                    alpha as int,
                    beta as int,
                    check_extension_enabled,
                    fuel,
                    r.0 as int,
                    r.1,
                    final(tt).deep_entries(),
                    final(tt).shallow_entries(),
                ),
        decreases search_measure(depth, check_extension_enabled), 1int,
    {
        let ghost e = *evaluator;
        let ghost b = position.b();
        let ghost tt0 = *tt;
        let ghost n0 = tt0.capacity();
        let ghost pt = crate::game::piece_total(b);
        let ghost ext = check_extension_enabled;
        let ghost alpha_in = alpha;
        let ghost beta_in = beta as int;
        let mut alpha = alpha;
        let moves = Self::expand(tt, position);
        let ghost mv = moves@;
        proof {
            assert(mv == crate::move_sorter::ordered_spec(b, table_hint(tt0, b)));
        }
        let mut best_move = moves[0];
        let first_child = position.make_move_new(moves[0]);
        let value = -Self::alpha_beta(
            evaluator,
            tt,
            &first_child,
            depth - 1,
            -beta,
            -alpha,
            check_extension_enabled,
        );
        let ghost tt1 = *tt;
        let ghost first = (-value) as i16;
        if value > alpha {
            alpha = value;
        }
        if alpha >= beta {
            proof {
                assert forall|fuel: nat| fuel > pt implies #[trigger] pvs_agrees(
                    e,
                    tt0.deep_entries(),
                    tt0.shallow_entries(),
                    n0,
                    b,
                    mv,
                    depth,
                    alpha_in as int,
                    beta_in,
                    ext,
                    fuel,
                    alpha as int,
                    best_move,
                    tt.deep_entries(),
                    tt.shallow_entries(),
                ) by {
                    assert(ab_agrees(
                        e,
                        tt0.deep_entries(),
                        tt0.shallow_entries(),
                        n0,
                        first_child.b(),
                        (depth - 1) as u8,
                        -beta_in,
                        -(alpha_in as int),
                        ext,
                        fuel,
                        first as int,
                        tt1.deep_entries(),
                        tt1.shallow_entries(),
                    ));
                    assert(first_child.b() == crate::game::moved_board(b, mv[0].code()));
                }
            }
            return (alpha, best_move);
        }
        proof {
            assert forall|fuel: nat| fuel > pt implies pvs_spec(
                e,
                tt0.deep_entries(),
                tt0.shallow_entries(),
                n0,
                b,
                mv,
                depth,
                alpha_in as int,
                beta_in,
                ext,
                fuel,
            ) == #[trigger] pvs_loop_spec(
                e,
                tt.deep_entries(),
                tt.shallow_entries(),
                n0,
                b,
                mv,
                1,
                depth,
                alpha as int,
                beta as int,
                ext,
                fuel,
                best_move,
            ) by {
                assert(ab_agrees(
                    e,
                    tt0.deep_entries(),
                    tt0.shallow_entries(),
                    n0,
                    first_child.b(),
                    (depth - 1) as u8,
                    -beta_in,
                    -(alpha_in as int),
                    ext,
                    fuel,
                    first as int,
                    tt1.deep_entries(),
                    tt1.shallow_entries(),
                ));
                assert(first_child.b() == crate::game::moved_board(b, mv[0].code()));
            }
        }
        let mut i: usize = 1;
        while i < moves.len()
            invariant
                1 <= i <= moves@.len(),
                MIN_EVAL <= alpha < beta,
                alpha_in <= alpha,
                tt.wf(),
                tt.capacity() == old(tt).capacity(),
                best_move.wf(),
                legal_codes(position.b()).contains(best_move.code()),
                forall|fuel: nat|
                    fuel > pt ==> pvs_spec(
                        e,
                        tt0.deep_entries(),
                        tt0.shallow_entries(),
                        n0,
                        b,
                        mv,
                        depth,
                        alpha_in as int,
                        beta_in,
                        ext,
                        fuel,
                    ) == #[trigger] pvs_loop_spec(
                        e,
                        tt.deep_entries(),
                        tt.shallow_entries(),
                        n0,
                        b,
                        mv,
                        i as int,
                        depth,
                        alpha as int,
                        beta as int,
                        ext,
                        fuel,
                        best_move,
                    ),
            decreases moves@.len() - i,
        {
            let ghost ttc = *tt;
            let ghost alpha_c = alpha;
            let ghost best_c = best_move;
            let child = position.make_move_new(moves[i]);
            let value = Self::null_window_search(
                evaluator,
                tt,
                &child,
                depth,
                alpha,
                beta,
                check_extension_enabled,
            );
            proof {
                assert forall|fuel: nat| fuel > pt implies #[trigger] pvs_loop_spec(
                    e,
                    ttc.deep_entries(),
                    ttc.shallow_entries(),
                    n0,
                    b,
                    mv,
                    i as int,
                    depth,
                    alpha_c as int,
                    beta as int,
                    ext,
                    fuel,
                    best_c,
                ) == (if value >= beta {
                    (value as int, moves@[i as int], tt.deep_entries(), tt.shallow_entries())
                } else if value > alpha_c {
                    pvs_loop_spec(
                        e,
                        tt.deep_entries(),
                        tt.shallow_entries(),
                        n0,
                        b,
                        mv,
                        i + 1,
                        depth,
                        value as int,
                        beta as int,
                        ext,
                        fuel,
                        moves@[i as int],
                    )
                } else {
                    pvs_loop_spec(
                        e,
                        tt.deep_entries(),
                        tt.shallow_entries(),
                        n0,
                        b,
                        mv,
                        i + 1,
                        depth,
                        alpha_c as int,
                        beta as int,
                        ext,
                        fuel,
                        best_c,
                    )
                }) by {
                    assert(nws_agrees(
                        e,
                        ttc.deep_entries(),
                        ttc.shallow_entries(),
                        ttc.capacity(),
                        child.b(),
                        depth,
                        alpha_c as int,
                        beta as int,
                        ext,
                        fuel,
                        value as int,
                        tt.deep_entries(),
                        tt.shallow_entries(),
                    ));
                    assert(child.b() == crate::game::moved_board(b, mv[i as int].code()));
                }
            }
            if value > alpha {
                alpha = value;
                best_move = moves[i];
            }
            if alpha >= beta {
                proof {
                    assert forall|fuel: nat|
                        #![trigger pvs_spec(e, tt0.deep_entries(), tt0.shallow_entries(), n0, b, mv, depth, alpha_in as int, beta_in, ext, fuel)]
                        fuel > pt implies pvs_spec(
                        e,
                        tt0.deep_entries(),
                        tt0.shallow_entries(),
                        n0,
                        b,
                        mv,
                        depth,
                        alpha_in as int,
                        beta_in,
                        ext,
                        fuel,
                    ) == (alpha as int, best_move, tt.deep_entries(), tt.shallow_entries()) by {
                        assert(pvs_spec(
                            e,
                            tt0.deep_entries(),
                            tt0.shallow_entries(),
                            n0,
                            b,
                            mv,
                            depth,
                            alpha_in as int,
                            beta_in,
                            ext,
                            fuel,
                        ) == pvs_loop_spec(
                            e,
                            ttc.deep_entries(),
                            ttc.shallow_entries(),
                            n0,
                            b,
                            mv,
                            i as int,
                            depth,
                            alpha_c as int,
                            beta as int,
                            ext,
                            fuel,
                            best_c,
                        ));
                    }
                }
                return (alpha, best_move);
            }
            proof {
                assert forall|fuel: nat| fuel > pt implies pvs_spec(
                    e,
                    tt0.deep_entries(),
                    tt0.shallow_entries(),
                    n0,
                    b,
                    mv,
                    depth,
                    alpha_in as int,
                    beta_in,
                    ext,
                    fuel,
                ) == #[trigger] pvs_loop_spec(
                    e,
                    tt.deep_entries(),
                    tt.shallow_entries(),
                    n0,
                    b,
                    mv,
                    i + 1,
                    depth,
                    alpha as int,
                    beta as int,
                    ext,
                    fuel,
                    best_move,
                ) by {
                    assert(pvs_spec(
                        e,
                        tt0.deep_entries(),
                        tt0.shallow_entries(),
                        n0,
                        b,
                        mv,
                        depth,
                        alpha_in as int,
                        beta_in,
                        ext,
                        fuel,
                    ) == pvs_loop_spec(
                        e,
                        ttc.deep_entries(),
                        ttc.shallow_entries(),
                        n0,
                        b,
                        mv,
                        i as int,
                        depth,
                        alpha_c as int,
                        beta as int,
                        ext,
                        fuel,
                        best_c,
                    ));
                }
            }
            i += 1;
        }
        proof {
            assert forall|fuel: nat| fuel > pt implies #[trigger] pvs_agrees(
                e,
                tt0.deep_entries(),
                tt0.shallow_entries(),
                n0,
                b,
                mv,
                depth,
                alpha_in as int,
                beta_in,
                ext,
                fuel,
                alpha as int,
                best_move,
                tt.deep_entries(),
                tt.shallow_entries(),
            ) by {
                assert(pvs_spec(
                    e,
                    tt0.deep_entries(),
                    tt0.shallow_entries(),
                    n0,
                    b,
                    mv,
                    depth,
                    alpha_in as int,
                    beta_in,
                    ext,
                    fuel,
                ) == pvs_loop_spec(
                    e,
                    tt.deep_entries(),
                    tt.shallow_entries(),
                    n0,
                    b,
                    mv,
                    mv.len() as int,
                    depth,
                    alpha as int,
                    beta as int,
                    ext,
                    fuel,
                    best_move,
                ));
            }
        }
        (alpha, best_move)
    }

    /// One node of the search, following the fixed step order: extend on
    /// check, probe the table, answer terminal positions by evaluation,
    /// drop to quiescence at the horizon, try the null-move cutoff, then
    /// run the principal-variation pass and store its result.
    pub fn alpha_beta(
        evaluator: &E,
        tt: &mut TranspositionTable,
        position: &Position,
        depth: u8,
        alpha: i16,
        beta: i16,
        check_extension_enabled: bool,
    ) -> (r: i16)
        requires
            old(tt).wf(),
            MIN_EVAL <= alpha < beta <= MAX_EVAL,
            depth < 255,
        ensures
            final(tt).wf(),
            final(tt).capacity() == old(tt).capacity(),
            MIN_EVAL <= r <= MAX_EVAL,
            search_node_post(
                *evaluator,
                *old(tt),
                *final(tt),
                position.b(),
                depth,
                alpha as int,
                beta as int,
                check_extension_enabled,
                r,
            ),
            forall|fuel: nat|
                fuel > crate::game::piece_total(position.b()) ==> #[trigger] ab_agrees(
                    *evaluator,
                    old(tt).deep_entries(),
                    old(tt).shallow_entries(),
                    old(tt).capacity(),
                    position.b(),
                    depth,
                    alpha as int,
                    beta as int,
                    check_extension_enabled,
                    fuel,
                    r as int,
                    final(tt).deep_entries(),
                    final(tt).shallow_entries(),
                ),
        decreases search_measure(depth, check_extension_enabled), 2int,
    {
        let ghost e = *evaluator;
        let ghost b = position.b();
        let ghost tt0 = *tt;
        let ghost n0 = tt0.capacity();
        let ghost key0 = crate::game::zobrist_key(b);
        let ghost pt = crate::game::piece_total(b);
        let ghost ext0 = check_extension_enabled;
        let ghost alpha_in = alpha as int;
        let ghost beta_in = beta as int;
        let mut depth_here = depth;
        let mut extension_allowed = check_extension_enabled;
        let mut alpha = alpha;
        let mut beta = beta;
        Self::check_extension(position, &mut depth_here, &mut extension_allowed);
        proof {
            assert(depth_here as int == effective_depth(b, depth, ext0));
            assert(tt0.slot_of(key0) == slot_at(n0, key0));
            assert(extension_allowed == (if ext0 && crate::game::in_check_of(b) {
                false
            } else {
                ext0
            }));
        }
        let ghost probe0 = probe_spec(
            tt0.deep_entries(),
            tt0.shallow_entries(),
            slot_at(n0, key0),
            key0,
            depth_here as int,
            alpha_in,
            beta_in,
        );
        let status = position.status();
        if let Option::Some(value) = Self::cached_evaluation(
            tt,
            position,
            depth_here,
            &mut alpha,
            &mut beta,
        ) {
            proof {
                assert forall|fuel: nat| fuel > pt implies #[trigger] ab_agrees(
                    e,
                    tt0.deep_entries(),
                    tt0.shallow_entries(),
                    n0,
                    b,
                    depth,
                    alpha_in,
                    beta_in,
                    ext0,
                    fuel,
                    value as int,
                    tt.deep_entries(),
                    tt.shallow_entries(),
                ) by {
                    assert(probe0.0 == Option::Some(value));
                }
            }
            return value;
        }
        let alpha_orig = alpha;
        proof {
            assert(probe0.0 is None && alpha as int == probe0.1 && beta as int == probe0.2);
        }
        if !matches!(status, BoardStatus::Ongoing) {
            let value = evaluator.evaluate(position);
            proof {
                assert forall|fuel: nat| fuel > pt implies #[trigger] ab_agrees(
                    e,
                    tt0.deep_entries(),
                    tt0.shallow_entries(),
                    n0,
                    b,
                    depth,
                    alpha_in,
                    beta_in,
                    ext0,
                    fuel,
                    value as int,
                    tt.deep_entries(),
                    tt.shallow_entries(),
                ) by {
                    assert(crate::game::status_of(b) != 0);
                }
            }
            return value;
        }
        if depth_here == 0 {
            let value = Self::q_search(evaluator, position, alpha, beta);
            tt.update_evaluation_and_best_move(
                position,
                0,
                NodeValue::pv_node(value),
                Option::None,
            );
            proof {
                assert forall|fuel: nat| fuel > pt implies #[trigger] ab_agrees(
                    e,
                    tt0.deep_entries(),
                    tt0.shallow_entries(),
                    n0,
                    b,
                    depth,
                    alpha_in,
                    beta_in,
                    ext0,
                    fuel,
                    value as int,
                    tt.deep_entries(),
                    tt.shallow_entries(),
                ) by {
                    assert(value as int == q_value(e, b, probe0.1, probe0.2, fuel));
                }
            }
            return value;
        }
        if depth_here >= 3 {
            if let Option::Some(null_position) = position.null_move() {
                let score = -Self::null_alpha_beta(
                    evaluator,
                    &null_position,
                    depth_here - 3,
                    -beta,
                    -beta + 1,
                );
                proof {
                    assert((-score) as int == nm_value(
                        e,
                        null_position.b(),
                        depth_here - 3,
                        (-beta) as int,
                        (-beta + 1) as int,
                        (crate::game::piece_total(b) + 1) as nat,
                    ));
                    assert(score >= beta <==> null_move_cuts(
                        e,
                        b,
                        depth_here as int,
                        beta as int,
                    ));
                }
                if score >= beta {
                    proof {
                        assert forall|fuel: nat| fuel > pt implies #[trigger] ab_agrees(
                            e,
                            tt0.deep_entries(),
                            tt0.shallow_entries(),
                            n0,
                            b,
                            depth,
                            alpha_in,
                            beta_in,
                            ext0,
                            fuel,
                            beta as int,
                            tt.deep_entries(),
                            tt.shallow_entries(),
                        ) by {
                            assert(!crate::game::in_check_of(b));
                            assert(null_move_cuts(e, b, effective_depth(b, depth, ext0), probe0.2));
                        }
                    }
                    return beta;
                }
            }
        }
        let (value, best_move) = Self::principal_variation_search(
            evaluator,
            tt,
            position,
            depth_here,
            alpha,
            beta,
            extension_allowed,
        );
        let ghost dmid = tt.deep_entries();
        let ghost smid = tt.shallow_entries();
        Self::update_cache(tt, position, depth_here, alpha_orig, beta, value, best_move);
        proof {
            let d = effective_depth(b, depth, ext0);
            let key = key0;
            let slot = slot_at(n0, key0);
            let probe = probe0;
            assert(exists|m: Move, dm: Seq<crate::tt::Entry>, sm: Seq<crate::tt::Entry>|
                #![trigger crate::tt::deep_after_store(dm, slot, key, d as u8, classify_node(probe.1, probe.2, value), Option::Some(m.code())), crate::tt::shallow_after_store(sm, slot, key, d as u8, classify_node(probe.1, probe.2, value), Option::Some(m.code()))]
                m.wf() && crate::game::legal_codes(b).contains(m.code()) && tt.deep_entries()
                    == crate::tt::deep_after_store(
                    dm,
                    slot,
                    key,
                    d as u8,
                    classify_node(probe.1, probe.2, value),
                    Option::Some(m.code()),
                ) && tt.shallow_entries() == crate::tt::shallow_after_store(
                    sm,
                    slot,
                    key,
                    d as u8,
                    classify_node(probe.1, probe.2, value),
                    Option::Some(m.code()),
                )) by {
                assert(tt.deep_entries() == crate::tt::deep_after_store(
                    dmid,
                    slot,
                    key,
                    d as u8,
                    classify_node(probe.1, probe.2, value),
                    Option::Some(best_move.code()),
                ));
                assert(tt.shallow_entries() == crate::tt::shallow_after_store(
                    smid,
                    slot,
                    key,
                    d as u8,
                    classify_node(probe.1, probe.2, value),
                    Option::Some(best_move.code()),
                ));
            }
            assert forall|fuel: nat| fuel > pt implies #[trigger] ab_agrees(
                e,
                tt0.deep_entries(),
                tt0.shallow_entries(),
                n0,
                b,
                depth,
                alpha_in,
                beta_in,
                ext0,
                fuel,
                value as int,
                tt.deep_entries(),
                tt.shallow_entries(),
            ) by {
                assert(pvs_agrees(
                    e,
                    tt0.deep_entries(),
                    tt0.shallow_entries(),
                    n0,
                    b,
                    crate::move_sorter::ordered_spec(b, table_hint(tt0, b)),
                    depth_here,
                    probe0.1,
                    probe0.2,
                    extension_allowed,
                    fuel,
                    value as int,
                    best_move,
                    dmid,
                    smid,
                ));
                assert(table_hint(tt0, b) == hint_of(
                    tt0.deep_entries(),
                    tt0.shallow_entries(),
                    slot_at(n0, key0),
                    key0,
                ));
                assert(!(effective_depth(b, depth, ext0) >= 3 && !crate::game::in_check_of(b)
                    && null_move_cuts(e, b, effective_depth(b, depth, ext0), probe0.2)));
            }
        }
        value
    }

    /// Deepen the search from 1 to the agent's depth — the table carries
    /// each iteration's results into the next one's move ordering — and
    /// answer the best move of the final ordering at the root.
    #[verifier::loop_isolation(false)]
    pub fn best_action(&mut self, position: &Position) -> (r: Action)
        requires
            old(self).wf(),
            status_of(position.b()) == 0,
        ensures
            final(self).wf(),
            final(self).depth_spec() == old(self).depth_spec(),
            final(self).evaluator_spec() == old(self).evaluator_spec(),
            final(self).table().capacity() == old(self).table().capacity(),
            r matches Action::MakeMove(m) && m.wf() && legal_codes(position.b()).contains(m.code()),
            r == Action::MakeMove(
                crate::move_sorter::ordered_spec(
                    position.b(),
                    table_hint(final(self).table(), position.b()),
                )[0],
            ),
            forall|fuel: nat|
                fuel > crate::game::piece_total(position.b()) ==> #[trigger] deepen_agrees(
                    old(self).evaluator_spec(),
                    old(self).table().deep_entries(),
                    old(self).table().shallow_entries(),
                    old(self).table().capacity(),
                    position.b(),
                    old(self).depth_spec(),
                    fuel,
                    final(self).table().deep_entries(),
                    final(self).table().shallow_entries(),
                ),
    {
        let ghost e0 = old(self).evaluator_spec();
        let ghost b = position.b();
        let ghost tt0 = old(self).table();
        let ghost n0 = tt0.capacity();
        let ghost pt = crate::game::piece_total(b);
        let ghost depth0 = old(self).depth_spec();
        let _status = position.status();
        let alpha = self.evaluator.min_value();
        let beta = self.evaluator.max_value();
        let mut i: u8 = 1;
        while i <= self.depth
            invariant
                1 <= i <= self.depth + 1,
                self.tt.wf(),
                self.tt.capacity() == n0,
                self.depth == old(self).depth,
                self.evaluator == old(self).evaluator,
                forall|fuel: nat|
                    fuel > pt ==> deepen_spec(
                        e0,
                        tt0.deep_entries(),
                        tt0.shallow_entries(),
                        n0,
                        b,
                        1,
                        depth0,
                        fuel,
                    ) == #[trigger] deepen_spec(
                        e0,
                        self.tt.deep_entries(),
                        self.tt.shallow_entries(),
                        n0,
                        b,
                        i as int,
                        depth0,
                        fuel,
                    ),
            decreases self.depth + 1 - i,
        {
            let ghost ttc = self.tt;
            let ghost ic = i;
            let root_value = Self::alpha_beta(
                &self.evaluator,
                &mut self.tt,
                position,
                i,
                alpha,
                beta,
                true,
            );
            proof {
                assert forall|fuel: nat| fuel > pt implies deepen_spec(
                    e0,
                    tt0.deep_entries(),
                    tt0.shallow_entries(),
                    n0,
                    b,
                    1,
                    depth0,
                    fuel,
                ) == #[trigger] deepen_spec(
                    e0,
                    self.tt.deep_entries(),
                    self.tt.shallow_entries(),
                    n0,
                    b,
                    ic + 1,
                    depth0,
                    fuel,
                ) by {
                    assert(deepen_spec(
                        e0,
                        tt0.deep_entries(),
                        tt0.shallow_entries(),
                        n0,
                        b,
                        1,
                        depth0,
                        fuel,
                    ) == deepen_spec(
                        e0,
                        ttc.deep_entries(),
                        ttc.shallow_entries(),
                        n0,
                        b,
                        ic as int,
                        depth0,
                        fuel,
                    ));
                    assert(ab_agrees(
                        e0,
                        ttc.deep_entries(),
                        ttc.shallow_entries(),
                        n0,
                        b,
                        ic,
                        MIN_EVAL as int,
                        MAX_EVAL as int,
                        true,
                        fuel,
                        root_value as int,
                        self.tt.deep_entries(),
                        self.tt.shallow_entries(),
                    ));
                }
            }
            i += 1;
        }
        proof {
            assert forall|fuel: nat| fuel > pt implies #[trigger] deepen_agrees(
                e0,
                tt0.deep_entries(),
                tt0.shallow_entries(),
                n0,
                b,
                depth0,
                fuel,
                self.tt.deep_entries(),
                self.tt.shallow_entries(),
            ) by {
                assert(deepen_spec(
                    e0,
                    tt0.deep_entries(),
                    tt0.shallow_entries(),
                    n0,
                    b,
                    1,
                    depth0,
                    fuel,
                ) == deepen_spec(
                    e0,
                    self.tt.deep_entries(),
                    self.tt.shallow_entries(),
                    n0,
                    b,
                    i as int,
                    depth0,
                    fuel,
                ));
            }
        }
        let moves = Self::expand(&self.tt, position);
        let best_move = moves[0];
        Action::MakeMove(best_move)
    }
}

impl<E: Evaluator> crate::agent::ChessAgent for AlphaBetaChessAgent<E> {
    open spec fn inv(&self) -> bool {
        self.wf()
    }

    /// The engine always answers with a move: the head of the final
    /// table's ordering for the game's current board, the table being the
    /// old one advanced by the iterative-deepening root searches.
    fn get_action(&mut self, game: &ChessGame) -> (r: Action)
        ensures
            r is MakeMove,
            final(self).inv(),
            r matches Action::MakeMove(m) ==> m.wf() && crate::game::legal_codes(
                crate::game::game_board(game.g()),
            ).contains(m.code()),
            r == Action::MakeMove(
                crate::move_sorter::ordered_spec(
                    crate::game::game_board(game.g()),
                    table_hint(final(self).table(), crate::game::game_board(game.g())),
                )[0],
            ),
            forall|fuel: nat|
                fuel > crate::game::piece_total(crate::game::game_board(game.g()))
                    ==> #[trigger] deepen_agrees(
                    old(self).evaluator_spec(),
                    old(self).table().deep_entries(),
                    old(self).table().shallow_entries(),
                    old(self).table().capacity(),
                    crate::game::game_board(game.g()),
                    old(self).depth_spec(),
                    fuel,
                    final(self).table().deep_entries(),
                    final(self).table().shallow_entries(),
                ),
    {
        let position = game.current_position();
        self.best_action(&position)
    }
}

} // verus!
