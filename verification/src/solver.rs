//! Iterative-deepening depth-first search from a scrambled reduced state
//! back to the solved state.
//!
//! Nodes are reduced states; edges are the eight possible moves (two
//! directions at each of the four fixed corners). Each depth limit gets a
//! fresh depth-limited search whose visited list is a path-cycle guard: it
//! holds exactly the states on the active path, so the search never loops
//! back through an ancestor, yet may still re-reach a state in a sibling
//! subtree. The search also skips the corner its last move turned, since
//! two successive moves there always combine into at most one.
//!
//! `solution` is proved sound and complete up to the depth ceiling, with
//! a fixed tie-break: the returned sequence solves the state, is of
//! minimal length, and comes first in lexicographic order over the
//! search's move order among the minimal solutions; the state itself is
//! restored, and whenever any solving sequence of at most 19 moves
//! exists, one is returned.

use vstd::prelude::*;
use vstd::pervasive::unreached;

use crate::cube::Corner;
use crate::cube::is_fixed_corner;
use crate::normalized::Move;
use crate::normalized::Direction;
use crate::normalized::NormalizedSkewb;
use crate::normalized::NormalizedView;
use crate::normalized::apply_move;
use crate::normalized::lemma_do_undo;
use crate::normalized::lemma_turn_fb_inverts_turn_lr;
use crate::normalized::lemma_turn_lr_three;
use crate::normalized::lemma_turn_lr_preserves_dims;
use crate::normalized::reduced_dims;
use crate::normalized::reduced_turn_fb;
use crate::normalized::reduced_turn_lr;
use crate::normalized::solved_reduced;
use crate::normalized::valid_move;

verus! {

/// The state reached by performing the moves of `ms` in order, starting
/// from `s`.
pub open spec fn apply_moves(s: NormalizedView, ms: Seq<Move>) -> NormalizedView
    decreases ms.len(),
{
    if ms.len() == 0 {
        s
    } else {
        apply_moves(apply_move(s, ms[0]), ms.skip(1))
    }
}

/// The state reached after the first `i + 1` moves of `ms`.
pub open spec fn path_state(s: NormalizedView, ms: Seq<Move>, i: int) -> NormalizedView {
    apply_moves(s, ms.take(i + 1))
}

/// The corner of the last move of `stack`, if any.
pub open spec fn last_corner(stack: Seq<Move>) -> Option<Corner> {
    if stack.len() == 0 {
        None
    } else {
        Some(stack.last().corner)
    }
}

/// The position of a fixed corner in the order the search tries corners.
pub open spec fn corner_order(c: Corner) -> int {
    match c {
        (0u8, 0u8, 0u8) => 0,
        (0u8, 1u8, 1u8) => 1,
        (1u8, 0u8, 1u8) => 2,
        (1u8, 1u8, 0u8) => 3,
        _ => 4,
    }
}

/// The position of a direction in the order the search tries directions.
pub open spec fn direction_order(d: Direction) -> int {
    match d {
        Direction::FB => 0,
        Direction::LR => 1,
    }
}

/// `m1` comes strictly before `m2` in the order the search tries moves:
/// an earlier corner, or the same corner with `FB` before `LR`.
pub open spec fn move_precedes(m1: Move, m2: Move) -> bool {
    ||| corner_order(m1.corner) < corner_order(m2.corner)
    ||| (corner_order(m1.corner) == corner_order(m2.corner) && direction_order(m1.direction)
        < direction_order(m2.direction))
}

/// `a` comes no later than `b` in lexicographic order over the search's
/// move order; a shorter sequence comes before its extensions.
pub open spec fn seq_lex_le(a: Seq<Move>, b: Seq<Move>) -> bool
    decreases a.len(),
{
    if a.len() == 0 {
        true
    } else if b.len() == 0 {
        false
    } else if move_precedes(a[0], b[0]) {
        true
    } else if a[0] == b[0] {
        seq_lex_le(a.skip(1), b.skip(1))
    } else {
        false
    }
}

/// A sequence without search-defeating defects: it never turns one corner
/// twice in a row, and its path states neither return to the start nor
/// repeat.
pub open spec fn simple_moves(s: NormalizedView, ms: Seq<Move>) -> bool {
    &&& forall|k: int| 0 <= k < ms.len() - 1 ==> (#[trigger] ms[k]).corner != ms[k + 1].corner
    &&& forall|i: int| 0 <= i < ms.len() ==> #[trigger] path_state(s, ms, i) != s
    &&& forall|i: int, j: int|
        #![trigger path_state(s, ms, i), path_state(s, ms, j)]
        0 <= i < j < ms.len() ==> path_state(s, ms, i) != path_state(s, ms, j)
}

/// A solving sequence that one depth-limited search step, entered at state
/// `s` with visited list `disc` and last-turned corner `lastc`, cannot
/// miss: it reaches the solved state through legal moves, never turns one
/// corner twice in a row (nor `lastc` first), and its path states are
/// pairwise distinct and avoid both `s` and every visited state.
#[verifier::opaque]
pub open spec fn searchable(
    s: NormalizedView,
    ms: Seq<Move>,
    disc: Seq<NormalizedSkewb>,
    lastc: Option<Corner>,
) -> bool {
    &&& apply_moves(s, ms) == solved_reduced()
    &&& forall|k: int| 0 <= k < ms.len() ==> valid_move(#[trigger] ms[k])
    &&& forall|k: int| 0 <= k < ms.len() - 1 ==> (#[trigger] ms[k]).corner != ms[k + 1].corner
    &&& lastc matches Some(c) ==> (ms.len() > 0 ==> ms[0].corner != c)
    &&& forall|i: int| 0 <= i < ms.len() ==> #[trigger] path_state(s, ms, i) != s
    &&& forall|i: int, j: int|
        #![trigger path_state(s, ms, i), path_state(s, ms, j)]
        0 <= i < j < ms.len() ==> path_state(s, ms, i) != path_state(s, ms, j)
    &&& forall|i: int, d: int|
        #![trigger path_state(s, ms, i), disc[d]]
        0 <= i < ms.len() && 0 <= d < disc.len() ==> path_state(s, ms, i) != disc[d]@
    &&& forall|d: int| 0 <= d < disc.len() ==> (#[trigger] disc[d])@ != s
}

/// A simple solving sequence: one that a fresh search, with nothing
/// visited and no last move, cannot miss.
pub open spec fn simple_solution(s: NormalizedView, ms: Seq<Move>) -> bool {
    searchable(s, ms, Seq::empty(), None)
}

/// A legal solving sequence: every move turns a fixed corner, and the
/// moves performed in order bring `s` to the solved state.
pub open spec fn solves(s: NormalizedView, ms: Seq<Move>) -> bool {
    &&& apply_moves(s, ms) == solved_reduced()
    &&& forall|k: int| 0 <= k < ms.len() ==> valid_move(#[trigger] ms[k])
}

/// Performing one move keeps the state's dimensions.
proof fn lemma_apply_move_dims(s: NormalizedView, m: Move)
    requires
        reduced_dims(s),
    ensures
        reduced_dims(apply_move(s, m)),
{
    lemma_turn_lr_preserves_dims(s, m.corner);
    lemma_turn_lr_preserves_dims(reduced_turn_lr(s, m.corner), m.corner);
}

/// Performing any move sequence keeps the state's dimensions.
proof fn lemma_apply_moves_dims(s: NormalizedView, ms: Seq<Move>)
    requires
        reduced_dims(s),
    ensures
        reduced_dims(apply_moves(s, ms)),
    decreases ms.len(),
{
    if ms.len() > 0 {
        lemma_apply_move_dims(s, ms[0]);
        lemma_apply_moves_dims(apply_move(s, ms[0]), ms.skip(1));
    }
}

/// Performing a concatenation performs the two parts in order.
proof fn lemma_apply_moves_concat(s: NormalizedView, a: Seq<Move>, b: Seq<Move>)
    ensures
        apply_moves(s, a + b) == apply_moves(apply_moves(s, a), b),
    decreases a.len(),
{
    if a.len() == 0 {
        assert(a + b =~= b);
    } else {
        assert((a + b)[0] == a[0]);
        assert((a + b).skip(1) =~= a.skip(1) + b);
        lemma_apply_moves_concat(apply_move(s, a[0]), a.skip(1), b);
    }
}

/// Performing a sequence performs its first `k` moves, then the rest.
proof fn lemma_apply_moves_split(s: NormalizedView, ms: Seq<Move>, k: int)
    requires
        0 <= k <= ms.len(),
    ensures
        apply_moves(s, ms) == apply_moves(apply_moves(s, ms.take(k)), ms.skip(k)),
{
    assert(ms.take(k) + ms.skip(k) =~= ms);
    lemma_apply_moves_concat(s, ms.take(k), ms.skip(k));
}

/// What two successive moves at one corner amount to: three elementary
/// steps cancel, two make an `FB` move, four make an `LR` move.
pub open spec fn combined_moves(m1: Move, m2: Move) -> Seq<Move> {
    match (m1.direction, m2.direction) {
        (Direction::LR, Direction::LR) => seq![
            Move { direction: Direction::FB, corner: m1.corner },
        ],
        (Direction::FB, Direction::FB) => seq![
            Move { direction: Direction::LR, corner: m1.corner },
        ],
        _ => Seq::empty(),
    }
}

/// Two successive moves at the same corner have the same effect as the at
/// most one move `combined_moves` gives.
#[verifier::rlimit(40)]
proof fn lemma_combine_same_corner(x: NormalizedView, m1: Move, m2: Move)
    requires
        reduced_dims(x),
        valid_move(m1),
        valid_move(m2),
        m1.corner == m2.corner,
    ensures
        apply_move(apply_move(x, m1), m2) == apply_moves(x, combined_moves(m1, m2)),
        combined_moves(m1, m2).len() <= 1,
        forall|k: int|
            0 <= k < combined_moves(m1, m2).len() ==> valid_move(
                #[trigger] combined_moves(m1, m2)[k],
            ),
{
    let c = m1.corner;
    let rep = combined_moves(m1, m2);
    lemma_turn_lr_preserves_dims(x, c);
    lemma_turn_lr_preserves_dims(reduced_turn_lr(x, c), c);
    if rep.len() == 1 {
        assert(rep.skip(1) =~= Seq::<Move>::empty());
        assert(apply_moves(apply_move(x, rep[0]), Seq::<Move>::empty()) == apply_move(
            x,
            rep[0],
        ));
        assert(apply_moves(x, rep) == apply_move(x, rep[0]));
    }
    match (m1.direction, m2.direction) {
        (Direction::LR, Direction::LR) => {
            assert(rep[0] == (Move { direction: Direction::FB, corner: c }));
            assert(apply_move(x, rep[0]) == reduced_turn_fb(x, c));
            assert(apply_move(apply_move(x, m1), m2) == reduced_turn_lr(
                reduced_turn_lr(x, c),
                c,
            ));
        },
        (Direction::FB, Direction::FB) => {
            lemma_turn_lr_three(reduced_turn_lr(x, c), c);
            assert(rep[0] == (Move { direction: Direction::LR, corner: c }));
            assert(apply_move(x, rep[0]) == reduced_turn_lr(x, c));
            assert(apply_move(apply_move(x, m1), m2) == reduced_turn_fb(
                reduced_turn_fb(x, c),
                c,
            ));
        },
        _ => {
            lemma_turn_fb_inverts_turn_lr(x, c);
            assert(apply_moves(x, rep) == x);
        },
    }
}

/// A solving sequence without defects is a simple solution.
proof fn lemma_simple_from_parts(s: NormalizedView, ms: Seq<Move>)
    requires
        solves(s, ms),
        simple_moves(s, ms),
    ensures
        simple_solution(s, ms),
{
    reveal(searchable);
}

/// A solving sequence with a defect can be strictly shortened: cut the
/// piece of its path that returns to an earlier state, or merge two
/// successive moves at one corner into at most one.
#[verifier::rlimit(100)]
proof fn lemma_defect_shortens(s: NormalizedView, ms: Seq<Move>)
    requires
        reduced_dims(s),
        solves(s, ms),
        !simple_moves(s, ms),
    ensures
        exists|ms3: Seq<Move>| solves(s, ms3) && ms3.len() < ms.len(),
{
    if exists|i: int| 0 <= i < ms.len() && #[trigger] path_state(s, ms, i) == s {
        let i = choose|i: int| 0 <= i < ms.len() && #[trigger] path_state(s, ms, i) == s;
        let tail = ms.skip(i + 1);
        lemma_apply_moves_split(s, ms, i + 1);
        assert(apply_moves(s, tail) == solved_reduced());
        assert forall|k: int| 0 <= k < tail.len() implies valid_move(#[trigger] tail[k]) by {
            assert(tail[k] == ms[k + i + 1]);
        }
        assert(solves(s, tail) && tail.len() < ms.len());
    } else if exists|i: int, j: int|
        #![trigger path_state(s, ms, i), path_state(s, ms, j)]
        0 <= i < j < ms.len() && path_state(s, ms, i) == path_state(s, ms, j) {
        let (i, j) = choose|i: int, j: int|
            #![trigger path_state(s, ms, i), path_state(s, ms, j)]
            0 <= i < j < ms.len() && path_state(s, ms, i) == path_state(s, ms, j);
        let ms_new = ms.take(i + 1) + ms.skip(j + 1);
        lemma_apply_moves_concat(s, ms.take(i + 1), ms.skip(j + 1));
        lemma_apply_moves_split(s, ms, j + 1);
        assert(apply_moves(s, ms_new) == solved_reduced());
        assert forall|k: int| 0 <= k < ms_new.len() implies valid_move(#[trigger] ms_new[k]) by {
            if k < i + 1 {
                assert(ms_new[k] == ms[k]);
            } else {
                assert(ms_new[k] == ms[k + j - i]);
            }
        }
        assert(solves(s, ms_new) && ms_new.len() < ms.len());
    } else {
        let k = choose|k: int|
            0 <= k < ms.len() - 1 && (#[trigger] ms[k]).corner == ms[k + 1].corner;
        let x = apply_moves(s, ms.take(k));
        lemma_apply_moves_dims(s, ms.take(k));
        lemma_combine_same_corner(x, ms[k], ms[k + 1]);
        let rep = combined_moves(ms[k], ms[k + 1]);
        let ms_new = ms.take(k) + (rep + ms.skip(k + 2));
        lemma_apply_moves_split(s, ms, k);
        assert(ms.skip(k)[0] == ms[k]);
        assert(ms.skip(k).skip(1) =~= ms.skip(k + 1));
        assert(ms.skip(k + 1)[0] == ms[k + 1]);
        assert(ms.skip(k + 1).skip(1) =~= ms.skip(k + 2));
        assert(apply_moves(x, ms.skip(k)) == apply_moves(
            apply_move(x, ms[k]),
            ms.skip(k + 1),
        ));
        assert(apply_moves(apply_move(x, ms[k]), ms.skip(k + 1)) == apply_moves(
            apply_move(apply_move(x, ms[k]), ms[k + 1]),
            ms.skip(k + 2),
        ));
        lemma_apply_moves_concat(x, rep, ms.skip(k + 2));
        lemma_apply_moves_concat(s, ms.take(k), rep + ms.skip(k + 2));
        assert(apply_moves(s, ms_new) == solved_reduced());
        assert forall|n: int| 0 <= n < ms_new.len() implies valid_move(#[trigger] ms_new[n]) by {
            if n < k {
                assert(ms_new[n] == ms[n]);
            } else if n < k + rep.len() {
                assert(ms_new[n] == rep[n - k]);
            } else {
                assert(ms_new[n] == ms[n - rep.len() + 2]);
            }
        }
        assert(solves(s, ms_new) && ms_new.len() < ms.len());
    }
}

/// Any legal solving sequence can be thinned to a simple one that is no
/// longer, by cutting and merging until no defect is left.
pub proof fn lemma_simple_solution_exists(s: NormalizedView, ms: Seq<Move>)
    requires
        reduced_dims(s),
        solves(s, ms),
    ensures
        exists|ms2: Seq<Move>| ms2.len() <= ms.len() && simple_solution(s, ms2),
    decreases ms.len(),
{
    if !simple_moves(s, ms) {
        lemma_defect_shortens(s, ms);
        let ms3 = choose|ms3: Seq<Move>| solves(s, ms3) && ms3.len() < ms.len();
        lemma_simple_solution_exists(s, ms3);
        let w = choose|w: Seq<Move>| w.len() <= ms3.len() && simple_solution(s, w);
        assert(w.len() <= ms.len() && simple_solution(s, w));
    } else {
        lemma_simple_from_parts(s, ms);
        assert(ms.len() <= ms.len() && simple_solution(s, ms));
    }
}

/// Stepping the start of a path forward by its first move shifts its path
/// states down by one.
proof fn lemma_path_state_shift(s: NormalizedView, ms: Seq<Move>, i: int)
    requires
        0 <= i < ms.len() - 1,
    ensures
        path_state(apply_move(s, ms[0]), ms.skip(1), i) == path_state(s, ms, i + 1),
{
    let t = ms.take(i + 2);
    assert(t[0] == ms[0]);
    assert(t.skip(1) =~= ms.skip(1).take(i + 1));
    assert(apply_moves(s, t) == apply_moves(apply_move(s, t[0]), t.skip(1)));
}

/// The first path state of a nonempty path is the first move's result.
proof fn lemma_path_state_zero(s: NormalizedView, ms: Seq<Move>)
    requires
        ms.len() > 0,
    ensures
        path_state(s, ms, 0) == apply_move(s, ms[0]),
{
    let t = ms.take(1);
    assert(t[0] == ms[0]);
    assert(t.skip(1) =~= Seq::<Move>::empty());
    assert(apply_moves(s, t) == apply_moves(apply_move(s, t[0]), t.skip(1)));
}

/// The tail of a searchable sequence is itself searchable: from the state
/// the first move reaches, past the visited list extended with the start
/// state, with the first move's corner as the last-turned corner.
proof fn lemma_searchable_suffix(
    s: NormalizedView,
    ms: Seq<Move>,
    disc0: Seq<NormalizedSkewb>,
    s0: NormalizedSkewb,
    lastc: Option<Corner>,
)
    requires
        ms.len() > 0,
        s0@ == s,
        searchable(s, ms, disc0, lastc),
    ensures
        searchable(apply_move(s, ms[0]), ms.skip(1), disc0.push(s0), Some(ms[0].corner)),
{
    reveal(searchable);
    let child = apply_move(s, ms[0]);
    let ms2 = ms.skip(1);
    let disc1 = disc0.push(s0);
    lemma_path_state_zero(s, ms);
    assert forall|k: int| 0 <= k < ms2.len() implies #[trigger] ms2[k] == ms[k + 1] by {}
    assert(apply_moves(s, ms) == apply_moves(child, ms2));
    assert forall|i: int| 0 <= i < ms2.len() implies #[trigger] path_state(child, ms2, i)
        == path_state(s, ms, i + 1) by {
        lemma_path_state_shift(s, ms, i);
    }
    assert forall|i: int| 0 <= i < ms2.len() implies #[trigger] path_state(child, ms2, i)
        != child by {
        assert(path_state(s, ms, i + 1) != path_state(s, ms, 0));
    }
    assert forall|i: int, j: int|
        #![trigger path_state(child, ms2, i), path_state(child, ms2, j)]
        0 <= i < j < ms2.len() implies path_state(child, ms2, i) != path_state(
        child,
        ms2,
        j,
    ) by {
        assert(path_state(s, ms, i + 1) != path_state(s, ms, j + 1));
    }
    assert forall|i: int, d: int|
        #![trigger path_state(child, ms2, i), disc1[d]]
        0 <= i < ms2.len() && 0 <= d < disc1.len() implies path_state(child, ms2, i) != disc1[d]@
        by {
        if d < disc0.len() {
            assert(disc1[d] == disc0[d]);
            assert(path_state(s, ms, i + 1) != disc0[d]@);
        } else {
            assert(disc1[d] == s0);
            assert(path_state(s, ms, i + 1) != s);
        }
    }
    assert forall|d: int| 0 <= d < disc1.len() implies (#[trigger] disc1[d])@ != child by {
        if d < disc0.len() {
            assert(disc1[d] == disc0[d]);
            assert(path_state(s, ms, 0) != disc0[d]@);
        } else {
            assert(disc1[d] == s0);
            assert(path_state(s, ms, 0) != s);
        }
    }
    assert(searchable(child, ms2, disc1, Some(ms[0].corner)));
}

/// The first move of a nonempty searchable sequence is a legal move at a
/// corner other than the last-turned one.
proof fn lemma_searchable_head(
    s: NormalizedView,
    ms: Seq<Move>,
    disc: Seq<NormalizedSkewb>,
    lastc: Option<Corner>,
)
    requires
        searchable(s, ms, disc, lastc),
        ms.len() > 0,
    ensures
        valid_move(ms[0]),
        lastc matches Some(c) ==> ms[0].corner != c,
{
    reveal(searchable);
}

/// At an unsolved state, nothing is searchable once the depth budget is
/// exhausted or the state already sits on the active path.
#[verifier::rlimit(40)]
proof fn lemma_fail_at_entry(
    s: NormalizedView,
    disc: Seq<NormalizedSkewb>,
    stack: Seq<Move>,
    max_length: int,
    at_limit: bool,
)
    requires
        s != solved_reduced(),
        at_limit ==> stack.len() >= max_length,
        !at_limit ==> exists|i: int| 0 <= i < disc.len() && (#[trigger] disc[i])@ == s,
    ensures
        forall|ms: Seq<Move>|
            ms.len() + stack.len() <= max_length ==> !searchable(s, ms, disc, last_corner(stack)),
{
    reveal(searchable);
    assert forall|ms: Seq<Move>| ms.len() + stack.len() <= max_length implies !searchable(
        s,
        ms,
        disc,
        last_corner(stack),
    ) by {
        if searchable(s, ms, disc, last_corner(stack)) {
            if at_limit {
                assert(ms.len() == 0);
                assert(apply_moves(s, ms) == s);
            } else {
                let i = choose|i: int| 0 <= i < disc.len() && (#[trigger] disc[i])@ == s;
                assert(disc[i]@ != s);
            }
        }
    }
}

/// Once the child a move leads to has been searched without success, no
/// searchable sequence starts with that move.
proof fn lemma_direction_step(
    entry_view: NormalizedView,
    disc0: Seq<NormalizedSkewb>,
    s0: NormalizedSkewb,
    entry_stack: Seq<Move>,
    max_length: int,
    move_: Move,
)
    requires
        s0@ == entry_view,
        forall|ms2: Seq<Move>|
            ms2.len() + entry_stack.len() + 1 <= max_length ==> !searchable(
                apply_move(entry_view, move_),
                ms2,
                disc0.push(s0),
                Some(move_.corner),
            ),
    ensures
        forall|ms: Seq<Move>|
            !(ms.len() + entry_stack.len() <= max_length && searchable(
                entry_view,
                ms,
                disc0,
                last_corner(entry_stack),
            ) && ms.len() > 0 && ms[0] == move_),
{
    assert forall|ms: Seq<Move>|
        !(ms.len() + entry_stack.len() <= max_length && searchable(
            entry_view,
            ms,
            disc0,
            last_corner(entry_stack),
        ) && ms.len() > 0 && ms[0] == move_) by {
        if ms.len() + entry_stack.len() <= max_length && searchable(
            entry_view,
            ms,
            disc0,
            last_corner(entry_stack),
        ) && ms.len() > 0 && ms[0] == move_ {
            lemma_searchable_suffix(entry_view, ms, disc0, s0, last_corner(entry_stack));
            assert(!searchable(
                apply_move(entry_view, ms[0]),
                ms.skip(1),
                disc0.push(s0),
                Some(ms[0].corner),
            ));
        }
    }
}

/// At an unsolved state a searchable sequence cannot be empty.
proof fn lemma_searchable_nonempty(
    s: NormalizedView,
    ms: Seq<Move>,
    disc: Seq<NormalizedSkewb>,
    lastc: Option<Corner>,
)
    requires
        searchable(s, ms, disc, lastc),
        s != solved_reduced(),
    ensures
        ms.len() > 0,
{
    reveal(searchable);
    if ms.len() == 0 {
        assert(apply_moves(s, ms) == s);
    }
}

/// A fixed corner comes before position 4 in the corner order, and two
/// fixed corners with the same position are the same corner.
proof fn lemma_corner_order_fixed(c: Corner)
    requires
        is_fixed_corner(c),
    ensures
        0 <= corner_order(c) < 4,
        forall|d: Corner|
            is_fixed_corner(d) && corner_order(d) == corner_order(c) ==> d == c,
{
}

/// When the move just tried succeeds, the continuation it found comes no
/// later, in the search's move order, than any searchable sequence: all
/// earlier moves have been ruled out, and among sequences starting with
/// the same move the found child continuation is itself no later.
#[verifier::rlimit(100)]
proof fn lemma_lex_step(
    entry_view: NormalizedView,
    disc0: Seq<NormalizedSkewb>,
    s0: NormalizedSkewb,
    entry_stack: Seq<Move>,
    max_length: int,
    move_: Move,
    found_suffix: Seq<Move>,
    child_suffix: Seq<Move>,
    ci: int,
    di: int,
)
    requires
        s0@ == entry_view,
        entry_view != solved_reduced(),
        is_fixed_corner(move_.corner),
        corner_order(move_.corner) == ci,
        direction_order(move_.direction) == di,
        found_suffix.len() > 0,
        found_suffix[0] == move_,
        found_suffix.skip(1) == child_suffix,
        forall|ms: Seq<Move>|
            (ms.len() + entry_stack.len() <= max_length && searchable(
                entry_view,
                ms,
                disc0,
                last_corner(entry_stack),
            ) && ms.len() > 0) ==> corner_order(ms[0].corner) >= ci,
        forall|ms: Seq<Move>|
            (ms.len() + entry_stack.len() <= max_length && searchable(
                entry_view,
                ms,
                disc0,
                last_corner(entry_stack),
            ) && ms.len() > 0 && ms[0].corner == move_.corner) ==> direction_order(
                ms[0].direction,
            ) >= di,
        forall|ms2: Seq<Move>|
            (ms2.len() + entry_stack.len() + 1 <= max_length && searchable(
                apply_move(entry_view, move_),
                ms2,
                disc0.push(s0),
                Some(move_.corner),
            )) ==> seq_lex_le(child_suffix, ms2),
    ensures
        forall|ms2: Seq<Move>|
            (ms2.len() + entry_stack.len() <= max_length && searchable(
                entry_view,
                ms2,
                disc0,
                last_corner(entry_stack),
            )) ==> seq_lex_le(found_suffix, ms2),
{
    assert forall|ms2: Seq<Move>|
        (ms2.len() + entry_stack.len() <= max_length && searchable(
            entry_view,
            ms2,
            disc0,
            last_corner(entry_stack),
        )) implies seq_lex_le(found_suffix, ms2) by {
        lemma_searchable_nonempty(entry_view, ms2, disc0, last_corner(entry_stack));
        lemma_searchable_head(entry_view, ms2, disc0, last_corner(entry_stack));
        let m2 = ms2[0];
        lemma_corner_order_fixed(move_.corner);
        if corner_order(m2.corner) > ci {
            assert(move_precedes(move_, m2));
        } else {
            assert(m2.corner == move_.corner);
            if direction_order(m2.direction) > di {
                assert(move_precedes(move_, m2));
            } else {
                assert(m2.direction == move_.direction);
                assert(m2 == move_);
                lemma_searchable_suffix(entry_view, ms2, disc0, s0, last_corner(entry_stack));
                assert(seq_lex_le(child_suffix, ms2.skip(1)));
                assert(!move_precedes(found_suffix[0], ms2[0]));
                assert(seq_lex_le(found_suffix, ms2));
            }
        }
    }
}

/// After both directions at one corner have failed, no searchable
/// sequence starts at that corner, so every searchable sequence starts at
/// a later corner in the order.
proof fn lemma_corner_step(
    entry_view: NormalizedView,
    disc0: Seq<NormalizedSkewb>,
    entry_stack: Seq<Move>,
    max_length: int,
    corner: Corner,
    ci: int,
)
    requires
        is_fixed_corner(corner),
        corner_order(corner) == ci,
        forall|ms: Seq<Move>|
            (ms.len() + entry_stack.len() <= max_length && searchable(
                entry_view,
                ms,
                disc0,
                last_corner(entry_stack),
            ) && ms.len() > 0) ==> corner_order(ms[0].corner) >= ci,
        forall|ms: Seq<Move>|
            (ms.len() + entry_stack.len() <= max_length && searchable(
                entry_view,
                ms,
                disc0,
                last_corner(entry_stack),
            ) && ms.len() > 0 && ms[0].corner == corner) ==> direction_order(ms[0].direction)
                >= 2,
    ensures
        forall|ms: Seq<Move>|
            (ms.len() + entry_stack.len() <= max_length && searchable(
                entry_view,
                ms,
                disc0,
                last_corner(entry_stack),
            ) && ms.len() > 0) ==> corner_order(ms[0].corner) >= ci + 1,
{
    assert forall|ms: Seq<Move>|
        (ms.len() + entry_stack.len() <= max_length && searchable(
            entry_view,
            ms,
            disc0,
            last_corner(entry_stack),
        ) && ms.len() > 0) implies corner_order(ms[0].corner) >= ci + 1 by {
        if corner_order(ms[0].corner) == ci {
            lemma_searchable_head(entry_view, ms, disc0, last_corner(entry_stack));
            lemma_corner_order_fixed(corner);
            assert(ms[0].corner == corner);
            assert(direction_order(ms[0].direction) >= 2);
            assert(direction_order(ms[0].direction) < 2);
        }
    }
}

/// When the corner to try is the one the last move turned, no searchable
/// sequence starts there either, so the corner can be skipped outright.
proof fn lemma_corner_step_skipped(
    entry_view: NormalizedView,
    disc0: Seq<NormalizedSkewb>,
    entry_stack: Seq<Move>,
    max_length: int,
    corner: Corner,
    ci: int,
)
    requires
        is_fixed_corner(corner),
        corner_order(corner) == ci,
        last_corner(entry_stack) == Some(corner),
        forall|ms: Seq<Move>|
            (ms.len() + entry_stack.len() <= max_length && searchable(
                entry_view,
                ms,
                disc0,
                last_corner(entry_stack),
            ) && ms.len() > 0) ==> corner_order(ms[0].corner) >= ci,
    ensures
        forall|ms: Seq<Move>|
            (ms.len() + entry_stack.len() <= max_length && searchable(
                entry_view,
                ms,
                disc0,
                last_corner(entry_stack),
            ) && ms.len() > 0) ==> corner_order(ms[0].corner) >= ci + 1,
{
    assert forall|ms: Seq<Move>|
        (ms.len() + entry_stack.len() <= max_length && searchable(
            entry_view,
            ms,
            disc0,
            last_corner(entry_stack),
        ) && ms.len() > 0) implies corner_order(ms[0].corner) >= ci + 1 by {
        if corner_order(ms[0].corner) == ci {
            lemma_searchable_head(entry_view, ms, disc0, last_corner(entry_stack));
            lemma_corner_order_fixed(corner);
            assert(ms[0].corner == corner);
            assert(ms[0].corner != corner);
        }
    }
}

/// After every corner has been ruled out, nothing searchable is left at
/// an unsolved state.
#[verifier::rlimit(40)]
proof fn lemma_search_exhausted(
    entry_view: NormalizedView,
    disc0: Seq<NormalizedSkewb>,
    entry_stack: Seq<Move>,
    max_length: int,
)
    requires
        entry_view != solved_reduced(),
        forall|ms: Seq<Move>|
            (ms.len() + entry_stack.len() <= max_length && searchable(
                entry_view,
                ms,
                disc0,
                last_corner(entry_stack),
            ) && ms.len() > 0) ==> corner_order(ms[0].corner) >= 4,
    ensures
        forall|ms: Seq<Move>|
            ms.len() + entry_stack.len() <= max_length ==> !searchable(
                entry_view,
                ms,
                disc0,
                last_corner(entry_stack),
            ),
{
    reveal(searchable);
    assert forall|ms: Seq<Move>| ms.len() + entry_stack.len() <= max_length implies !searchable(
        entry_view,
        ms,
        disc0,
        last_corner(entry_stack),
    ) by {
        if searchable(entry_view, ms, disc0, last_corner(entry_stack)) {
            if ms.len() == 0 {
                assert(apply_moves(entry_view, ms) == entry_view);
            } else {
                assert(valid_move(ms[0]));
                lemma_corner_order_fixed(ms[0].corner);
            }
        }
    }
}

/// The four fixed corners in the order the search tries them.
fn fixed_corner_at(ci: usize) -> (c: Corner)
    requires
        ci < 4,
    ensures
        is_fixed_corner(c),
        corner_order(c) == ci as int,
{
    match ci {
        0 => (0, 0, 0),
        1 => (0, 1, 1),
        2 => (1, 0, 1),
        3 => (1, 1, 0),
        _ => unreached(),
    }
}

/// Whether `states` holds an entry structurally equal to `s`.
fn contains_state(states: &Vec<NormalizedSkewb>, s: &NormalizedSkewb) -> (r: bool)
    ensures
        r == exists|i: int| 0 <= i < states@.len() && states@[i]@ == s@,
{
    let n = states.len();
    for i in 0..n
        invariant
            n == states@.len(),
            forall|j: int| 0 <= j < i ==> states@[j]@ != s@,
    {
        let e = states[i];
        if e.state_eq(s) {
            return true;
        }
    }
    false
}

impl NormalizedSkewb {
    /// One depth-limited search step.
    ///
    /// Returns whether a solving continuation was found. The state itself
    /// is always restored before returning. On success the move stack has
    /// grown by a suffix that, performed in order from the entry state,
    /// reaches the solved state within the depth limit; on failure both
    /// the move stack and the visited list are exactly as they were, and
    /// no searchable sequence fits in the remaining depth.
    #[verifier::loop_isolation(false)]
    #[verifier::rlimit(100)]
    fn search(
        &mut self,
        move_stack: &mut Vec<Move>,
        discovered: &mut Vec<NormalizedSkewb>,
        max_length: usize,
    ) -> (found: bool)
        requires
            old(move_stack)@.len() <= max_length,
        ensures
            final(self)@ == old(self)@,
            found ==> {
                let entry_len = old(move_stack)@.len() as int;
                &&& old(move_stack)@.len() <= final(move_stack)@.len() <= max_length
                &&& final(move_stack)@.take(entry_len) == old(move_stack)@
                &&& apply_moves(old(self)@, final(move_stack)@.skip(entry_len))
                    == solved_reduced()
                &&& forall|k: int|
                    entry_len <= k < final(move_stack)@.len() ==> valid_move(
                        #[trigger] final(move_stack)@[k],
                    )
            },
            found ==> forall|ms2: Seq<Move>|
                (ms2.len() + old(move_stack)@.len() <= max_length && searchable(
                    old(self)@,
                    ms2,
                    old(discovered)@,
                    last_corner(old(move_stack)@),
                )) ==> seq_lex_le(
                    final(move_stack)@.skip(old(move_stack)@.len() as int),
                    ms2,
                ),
            !found ==> final(move_stack)@ == old(move_stack)@ && final(discovered)@ == old(
                discovered,
            )@,
            !found ==> forall|ms: Seq<Move>|
                ms.len() + old(move_stack)@.len() <= max_length ==> !searchable(
                    old(self)@,
                    ms,
                    old(discovered)@,
                    last_corner(old(move_stack)@),
                ),
            old(self)@ == solved_reduced() ==> found && final(move_stack)@ == old(move_stack)@,
        decreases max_length - move_stack@.len(),
    {
        if self.is_solved() {
            proof {
                assert(move_stack@.take(move_stack@.len() as int) =~= move_stack@);
                assert(move_stack@.skip(move_stack@.len() as int) =~= Seq::<Move>::empty());
                assert forall|ms2: Seq<Move>|
                    seq_lex_le(move_stack@.skip(move_stack@.len() as int), ms2) by {
                    assert(move_stack@.skip(move_stack@.len() as int).len() == 0);
                }
            }
            return true;
        }
        let at_limit = move_stack.len() >= max_length;
        if at_limit || contains_state(discovered, self) {
            proof {
                lemma_fail_at_entry(
                    self@,
                    discovered@,
                    move_stack@,
                    max_length as int,
                    at_limit,
                );
            }
            return false;
        }
        let ghost s0 = *self;
        let ghost disc0 = discovered@;
        discovered.push(*self);

        let ghost entry_view = self@;
        let ghost entry_stack = move_stack@;
        let ghost entry_disc = discovered@;

        for ci in 0..4usize
            invariant
                self@ == entry_view,
                move_stack@ == entry_stack,
                discovered@ == entry_disc,
                entry_stack.len() < max_length,
                forall|ms: Seq<Move>|
                    (ms.len() + entry_stack.len() <= max_length && searchable(
                        entry_view,
                        ms,
                        disc0,
                        last_corner(entry_stack),
                    ) && ms.len() > 0) ==> corner_order(ms[0].corner) >= ci,
        {
            let corner = fixed_corner_at(ci);
            let skip_corner = match move_stack.last() {
                Some(last_move) => {
                    last_move.corner.0 == corner.0 && last_move.corner.1 == corner.1
                        && last_move.corner.2 == corner.2
                },
                None => false,
            };

            if !skip_corner {
                for di in 0..2usize
                    invariant
                        self@ == entry_view,
                        move_stack@ == entry_stack,
                        discovered@ == entry_disc,
                        entry_stack.len() < max_length,
                        is_fixed_corner(corner),
                        corner_order(corner) == ci as int,
                        forall|ms: Seq<Move>|
                            (ms.len() + entry_stack.len() <= max_length && searchable(
                                entry_view,
                                ms,
                                disc0,
                                last_corner(entry_stack),
                            ) && ms.len() > 0 && ms[0].corner == corner) ==> direction_order(
                                ms[0].direction,
                            ) >= di,
                {
                    let direction = if di == 0 {
                        Direction::FB
                    } else {
                        Direction::LR
                    };
                    proof {
                        assert(direction_order(direction) == di as int);
                    }
                    let move_ = Move { direction, corner };
                    self.do_move(&move_);
                    move_stack.push(move_);
                    let has_solution = self.search(move_stack, discovered, max_length);
                    self.undo_move(&move_);
                    proof {
                        lemma_do_undo(entry_view, move_);
                    }
                    if has_solution {
                        proof {
                            let el = entry_stack.len() as int;
                            let pushed = entry_stack.push(move_);
                            let pl = pushed.len() as int;
                            let fs = move_stack@;
                            assert(fs.take(pl) == pushed);
                            assert forall|i: int| 0 <= i < pl implies fs[i] == #[trigger] pushed[i] by {
                                assert(fs.take(pl)[i] == fs[i]);
                            }
                            assert(fs.take(el) =~= entry_stack);
                            assert(fs.skip(el)[0] == move_);
                            assert(fs.skip(el).skip(1) =~= fs.skip(pl));
                            assert(apply_moves(entry_view, fs.skip(el)) == apply_moves(
                                apply_move(entry_view, move_),
                                fs.skip(el).skip(1),
                            ));
                            lemma_lex_step(
                                entry_view,
                                disc0,
                                s0,
                                entry_stack,
                                max_length as int,
                                move_,
                                fs.skip(el),
                                fs.skip(pl),
                                ci as int,
                                di as int,
                            );
                        }
                        return true;
                    } else {
                        move_stack.pop();
                        proof {
                            assert(entry_stack.push(move_).drop_last() =~= entry_stack);
                            assert(entry_stack.push(move_).last() == move_);
                            lemma_direction_step(
                                entry_view,
                                disc0,
                                s0,
                                entry_stack,
                                max_length as int,
                                move_,
                            );
                        }
                    }
                }
                proof {
                    lemma_corner_step(
                        entry_view,
                        disc0,
                        entry_stack,
                        max_length as int,
                        corner,
                        ci as int,
                    );
                }
            } else {
                proof {
                    assert(entry_stack.last().corner == corner);
                    lemma_corner_step_skipped(
                        entry_view,
                        disc0,
                        entry_stack,
                        max_length as int,
                        corner,
                        ci as int,
                    );
                }
            }
        }
        let _ = discovered.pop();
        proof {
            assert(entry_disc.drop_last() =~= old(discovered)@);
            lemma_search_exhausted(entry_view, disc0, entry_stack, max_length as int);
        }
        false
    }

    /// Finds a move sequence that brings this state to the solved state.
    ///
    /// Tries depth limits 0, 1, 2, ... up to a ceiling of 19 moves, so
    /// the returned sequence is a shortest solution; among the shortest
    /// ones, the tie-break is the search's move order (corners in the
    /// order (0,0,0), (0,1,1), (1,0,1), (1,1,0), and `FB` before `LR`),
    /// and the lexicographically first sequence under that order is the
    /// one returned. Returns `Some` of the sequence — empty when the
    /// state is already solved — and `None` only when no solving
    /// sequence of at most 19 moves exists at all. The state is left
    /// exactly as it was.
    #[verifier::rlimit(50)]
    pub fn solution(&mut self) -> (r: Option<Vec<Move>>)
        ensures
            final(self)@ == old(self)@,
            r matches Some(ms) ==> ms@.len() <= 19 && solves(old(self)@, ms@),
            r matches Some(ms) ==> forall|ms2: Seq<Move>|
                solves(old(self)@, ms2) ==> ms2.len() >= ms@.len(),
            r matches Some(ms) ==> forall|ms2: Seq<Move>|
                (solves(old(self)@, ms2) && ms2.len() == ms@.len()) ==> seq_lex_le(ms@, ms2),
            old(self)@ == solved_reduced() ==> (r matches Some(ms) && ms@.len() == 0),
            (exists|ms: Seq<Move>| ms.len() <= 19 && solves(old(self)@, ms)) ==> r is Some,
    {
        for solution_length in 0..20usize
            invariant
                self@ == old(self)@,
                solution_length > 0 ==> old(self)@ != solved_reduced(),
                forall|ms: Seq<Move>|
                    ms.len() < solution_length ==> !simple_solution(old(self)@, ms),
        {
            let mut discovered: Vec<NormalizedSkewb> = Vec::new();
            let mut move_stack: Vec<Move> = Vec::new();
            if self.search(&mut move_stack, &mut discovered, solution_length) {
                proof {
                    assert(move_stack@.skip(0) =~= move_stack@);
                    assert forall|ms2: Seq<Move>| solves(old(self)@, ms2) implies ms2.len()
                        >= move_stack@.len() by {
                        if ms2.len() < move_stack@.len() {
                            lemma_simple_solution_exists(old(self)@, ms2);
                            let w = choose|w: Seq<Move>|
                                w.len() <= ms2.len() && simple_solution(old(self)@, w);
                            assert(!simple_solution(old(self)@, w));
                        }
                    }
                    assert(last_corner(Seq::<Move>::empty()) is None);
                    assert forall|ms2: Seq<Move>|
                        (solves(old(self)@, ms2) && ms2.len() == move_stack@.len())
                        implies seq_lex_le(move_stack@, ms2) by {
                        if !simple_moves(old(self)@, ms2) {
                            lemma_defect_shortens(old(self)@, ms2);
                            let ms3 = choose|ms3: Seq<Move>|
                                solves(old(self)@, ms3) && ms3.len() < ms2.len();
                            assert(ms3.len() >= move_stack@.len());
                        }
                        lemma_simple_from_parts(old(self)@, ms2);
                        assert(seq_lex_le(move_stack@.skip(0), ms2));
                    }
                }
                return Some(move_stack);
            }
            proof {
                assert(last_corner(Seq::<Move>::empty()) is None);
                assert forall|ms: Seq<Move>| ms.len() < solution_length
                    + 1 implies !simple_solution(old(self)@, ms) by {
                    if ms.len() == solution_length {
                        assert(!searchable(
                            old(self)@,
                            ms,
                            Seq::<NormalizedSkewb>::empty(),
                            last_corner(Seq::<Move>::empty()),
                        ));
                    }
                }
            }
        }
        proof {
            if exists|ms: Seq<Move>| ms.len() <= 19 && solves(old(self)@, ms) {
                let ms = choose|ms: Seq<Move>| ms.len() <= 19 && solves(old(self)@, ms);
                lemma_simple_solution_exists(old(self)@, ms);
                let w = choose|w: Seq<Move>| w.len() <= ms.len() && simple_solution(
                    old(self)@,
                    w,
                );
                assert(!simple_solution(old(self)@, w));
            }
        }
        None
    }
}

} // verus!
