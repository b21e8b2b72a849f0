//! The reduced, solver-facing state of the puzzle.
//!
//! Once the puzzle is held in the canonical frame, the four fixed corner
//! slots never trade pieces under legal turns — only their orientations
//! change — while the four floating slots permute their pieces among
//! themselves. The reduced state therefore stores only the four fixed
//! orientations, the permutation of the four floating pieces, their
//! orientations, and the six center colors.

use vstd::prelude::*;
use vstd::pervasive::unreached;

use crate::cube::Center;
use crate::cube::Color;
use crate::cube::Corner;
use crate::cube::Orientation;
use crate::cube::adjacent_corners;
use crate::cube::center_index;
use crate::cube::fixed_index;
use crate::cube::floating_index;
use crate::cube::floating_to_slot;
use crate::cube::is_fixed_corner;
use crate::cube::spec_add;
use crate::cube::turn_center_triple;
use crate::cube::valid_corner;
use crate::cycles::cycle3;
use crate::cycles::rotate3;
use crate::skewb::Skewb;
use crate::skewb::SkewbView;

verus! {

/// The mathematical value of a reduced state: one sequence per field.
#[verifier::ext_equal]
pub ghost struct NormalizedView {
    pub fixed_orientations: Seq<Orientation>,
    pub floating_pieces: Seq<usize>,
    pub floating_orientations: Seq<Orientation>,
    pub center_pieces: Seq<Color>,
}

/// The reduced state of the puzzle, used for searching.
#[derive(Copy, Clone, Debug, PartialEq, Eq, Hash)]
pub struct NormalizedSkewb {
    pub fixed_orientations: [Orientation; 4],
    pub floating_pieces: [usize; 4],
    pub floating_orientations: [Orientation; 4],
    pub center_pieces: [Color; 6],
}

impl View for NormalizedSkewb {
    type V = NormalizedView;

    open spec fn view(&self) -> NormalizedView {
        NormalizedView {
            fixed_orientations: self.fixed_orientations@,
            floating_pieces: self.floating_pieces@,
            floating_orientations: self.floating_orientations@,
            center_pieces: self.center_pieces@,
        }
    }
}

/// The canonical solved reduced state: all orientations `UD`, floating
/// pieces in identity order, centers in the solved color assignment.
pub open spec fn solved_reduced() -> NormalizedView {
    NormalizedView {
        fixed_orientations: seq![
            Orientation::UD,
            Orientation::UD,
            Orientation::UD,
            Orientation::UD,
        ],
        floating_pieces: seq![0usize, 1usize, 2usize, 3usize],
        floating_orientations: seq![
            Orientation::UD,
            Orientation::UD,
            Orientation::UD,
            Orientation::UD,
        ],
        center_pieces: seq![Color::Y, Color::B, Color::R, Color::G, Color::O, Color::W],
    }
}

/// The dimensions every reduced state value has: four fixed orientations,
/// four floating pieces and orientations, six centers.
pub open spec fn reduced_dims(s: NormalizedView) -> bool {
    &&& s.fixed_orientations.len() == 4
    &&& s.floating_pieces.len() == 4
    &&& s.floating_orientations.len() == 4
    &&& s.center_pieces.len() == 6
}

/// Well-formedness of a reduced state value: each sequence has its fixed
/// length and the floating pieces form a permutation of {0, 1, 2, 3}.
pub open spec fn reduced_wf(s: NormalizedView) -> bool {
    &&& reduced_dims(s)
    &&& forall|i: int| 0 <= i < 4 ==> s.floating_pieces[i] < 4
    &&& forall|i: int, j: int|
        0 <= i < j < 4 ==> s.floating_pieces[i] != s.floating_pieces[j]
}

/// Which of the two slot families a corner belongs to.
#[derive(Copy, Clone, Debug, PartialEq, Eq)]
enum FixedOrFloating {
    Fixed,
    Floating,
}

/// The effect of one elementary (`LR`) turn at the fixed corner `c`:
/// the three floating slots adjacent to `c` trade pieces and orientations
/// along a 3-cycle, the turned corner and the three cycled slots each gain
/// an `LR` twist, and the three adjacent centers cycle.
pub open spec fn reduced_turn_lr(s: NormalizedView, c: Corner) -> NormalizedView {
    let (a0, a1, a2) = adjacent_corners(c);
    let m0 = floating_index(a0);
    let m1 = floating_index(a1);
    let m2 = floating_index(a2);
    let i = fixed_index(c);
    let fo = s.fixed_orientations.update(
        i,
        spec_add(s.fixed_orientations[i], Orientation::LR),
    );
    let t = cycle3(s.floating_orientations, m0, m1, m2);
    let t0 = t.update(m0, spec_add(t[m0], Orientation::LR));
    let t1 = t0.update(m1, spec_add(t0[m1], Orientation::LR));
    let t2 = t1.update(m2, spec_add(t1[m2], Orientation::LR));
    let (c0, c1, c2) = turn_center_triple(c);
    NormalizedView {
        fixed_orientations: fo,
        floating_pieces: cycle3(s.floating_pieces, m0, m1, m2),
        floating_orientations: t2,
        center_pieces: cycle3(s.center_pieces, c0, c1, c2),
    }
}

/// The effect of one `FB` turn at `c`: two `LR` turns.
pub open spec fn reduced_turn_fb(s: NormalizedView, c: Corner) -> NormalizedView {
    reduced_turn_lr(reduced_turn_lr(s, c), c)
}

/// The sense of a turn: `LR` is one elementary turn step, `FB` is two
/// such steps. Since three steps are the identity, each is the other's
/// inverse.
#[derive(Copy, Clone, Debug, PartialEq, Eq, Hash)]
pub enum Direction {
    LR,
    FB,
}

/// One solver move: a direction and the fixed corner it turns.
#[derive(Copy, Clone, Debug, PartialEq, Eq, Hash)]
pub struct Move {
    pub direction: Direction,
    pub corner: Corner,
}

/// A move may only turn a fixed corner.
pub open spec fn valid_move(m: Move) -> bool {
    is_fixed_corner(m.corner)
}

/// The effect of performing `m`.
pub open spec fn apply_move(s: NormalizedView, m: Move) -> NormalizedView {
    match m.direction {
        Direction::LR => reduced_turn_lr(s, m.corner),
        Direction::FB => reduced_turn_fb(s, m.corner),
    }
}

/// The effect of performing the inverse of `m`: the opposite direction at
/// the same corner.
pub open spec fn apply_move_inverse(s: NormalizedView, m: Move) -> NormalizedView {
    match m.direction {
        Direction::LR => reduced_turn_fb(s, m.corner),
        Direction::FB => reduced_turn_lr(s, m.corner),
    }
}

/// The full state a reduced state expands to: each fixed slot gets its own
/// piece back, each floating slot its piece's 8-slot identity, and the
/// rotation parity is the canonical even one.
pub open spec fn denormalize_spec(n: NormalizedView) -> SkewbView {
    SkewbView {
        corner_pieces: seq![
            0usize,
            floating_to_slot(n.floating_pieces[0] as int) as usize,
            2usize,
            floating_to_slot(n.floating_pieces[1] as int) as usize,
            floating_to_slot(n.floating_pieces[2] as int) as usize,
            5usize,
            floating_to_slot(n.floating_pieces[3] as int) as usize,
            7usize,
        ],
        corner_orientations: seq![
            n.fixed_orientations[0],
            n.floating_orientations[0],
            n.fixed_orientations[1],
            n.floating_orientations[1],
            n.floating_orientations[2],
            n.fixed_orientations[2],
            n.floating_orientations[3],
            n.fixed_orientations[3],
        ],
        center_pieces: n.center_pieces,
        even_rotation: true,
    }
}

impl NormalizedSkewb {
    /// The solved reduced state.
    pub fn new() -> (r: NormalizedSkewb)
        ensures
            r@ == solved_reduced(),
            reduced_wf(r@),
    {
        let r = NormalizedSkewb {
            fixed_orientations: [Orientation::UD; 4],
            floating_pieces: [0, 1, 2, 3],
            floating_orientations: [Orientation::UD; 4],
            center_pieces: [Color::Y, Color::B, Color::R, Color::G, Color::O, Color::W],
        };
        proof {
            assert(r@ =~= solved_reduced());
        }
        r
    }

    /// Classifies a corner as fixed or floating and gives its index within
    /// its family.
    fn fixed_or_floating(c: Corner) -> (r: (FixedOrFloating, usize))
        requires
            valid_corner(c),
        ensures
            r.0 is Fixed <==> is_fixed_corner(c),
            r.0 is Fixed ==> r.1 == fixed_index(c),
            r.0 is Floating ==> r.1 == floating_index(c),
            r.1 < 4,
    {
        match (c.0, c.1, c.2) {
            (0, 0, 0) => (FixedOrFloating::Fixed, 0),
            (0, 0, 1) => (FixedOrFloating::Floating, 0),
            (0, 1, 1) => (FixedOrFloating::Fixed, 1),
            (0, 1, 0) => (FixedOrFloating::Floating, 1),
            (1, 0, 0) => (FixedOrFloating::Floating, 2),
            (1, 0, 1) => (FixedOrFloating::Fixed, 2),
            (1, 1, 1) => (FixedOrFloating::Floating, 3),
            (1, 1, 0) => (FixedOrFloating::Fixed, 3),
            _ => unreached(),
        }
    }

    /// The slot number of a center.
    fn center_to_i(c: Center) -> (i: usize)
        ensures
            i == center_index(c),
    {
        match c {
            Center::U => 0,
            Center::F => 1,
            Center::R => 2,
            Center::B => 3,
            Center::L => 4,
            Center::D => 5,
        }
    }

    /// Applies one elementary (`LR`) turn at the fixed corner `c`.
    pub fn turn_lr(&mut self, c: Corner)
        requires
            is_fixed_corner(c),
        ensures
            final(self)@ == reduced_turn_lr(old(self)@, c),
    {
        let i = match Self::fixed_or_floating(c) {
            (FixedOrFloating::Fixed, i) => i,
            (FixedOrFloating::Floating, _) => unreached(),
        };

        let m0 = Self::fixed_or_floating((c.0, c.1, 1 - c.2)).1;
        let m1 = Self::fixed_or_floating((c.0, 1 - c.1, c.2)).1;
        let m2 = Self::fixed_or_floating((1 - c.0, c.1, c.2)).1;

        rotate3(&mut self.floating_pieces, m0, m1, m2);
        rotate3(&mut self.floating_orientations, m0, m1, m2);

        self.fixed_orientations[i] = self.fixed_orientations[i].add(Orientation::LR);

        self.floating_orientations[m0] = self.floating_orientations[m0].add(Orientation::LR);
        self.floating_orientations[m1] = self.floating_orientations[m1].add(Orientation::LR);
        self.floating_orientations[m2] = self.floating_orientations[m2].add(Orientation::LR);

        let c0 = Self::center_to_i(if c.2 == 0 { Center::B } else { Center::F });
        let c1 = Self::center_to_i(if c.1 == 0 { Center::L } else { Center::R });
        let c2 = Self::center_to_i(if c.0 == 0 { Center::U } else { Center::D });
        rotate3(&mut self.center_pieces, c0, c1, c2);

        proof {
            assert(self@ =~= reduced_turn_lr(old(self)@, c));
        }
    }

    /// Applies one `FB` turn at the fixed corner `c`: two `LR` turns.
    pub fn turn_fb(&mut self, c: Corner)
        requires
            is_fixed_corner(c),
        ensures
            final(self)@ == reduced_turn_fb(old(self)@, c),
    {
        self.turn_lr(c);
        self.turn_lr(c);
    }

    /// Compares two reduced states field by field.
    pub fn state_eq(&self, other: &NormalizedSkewb) -> (r: bool)
        ensures
            r == (self@ == other@),
    {
        let r = self.fixed_orientations[0] == other.fixed_orientations[0]
            && self.fixed_orientations[1] == other.fixed_orientations[1]
            && self.fixed_orientations[2] == other.fixed_orientations[2]
            && self.fixed_orientations[3] == other.fixed_orientations[3]
            && self.floating_pieces[0] == other.floating_pieces[0]
            && self.floating_pieces[1] == other.floating_pieces[1]
            && self.floating_pieces[2] == other.floating_pieces[2]
            && self.floating_pieces[3] == other.floating_pieces[3]
            && self.floating_orientations[0] == other.floating_orientations[0]
            && self.floating_orientations[1] == other.floating_orientations[1]
            && self.floating_orientations[2] == other.floating_orientations[2]
            && self.floating_orientations[3] == other.floating_orientations[3]
            && self.center_pieces[0] == other.center_pieces[0]
            && self.center_pieces[1] == other.center_pieces[1]
            && self.center_pieces[2] == other.center_pieces[2]
            && self.center_pieces[3] == other.center_pieces[3]
            && self.center_pieces[4] == other.center_pieces[4]
            && self.center_pieces[5] == other.center_pieces[5];
        proof {
            if r {
                assert(self@ =~= other@);
            }
        }
        r
    }

    /// Whether this state is exactly the solved reduced state.
    pub fn is_solved(&self) -> (r: bool)
        ensures
            r == (self@ == solved_reduced()),
    {
        self.state_eq(&NormalizedSkewb::new())
    }

    /// The 8-slot corner number of the floating slot with floating index
    /// `i`.
    fn floating_i_to_i(i: usize) -> (r: usize)
        requires
            i < 4,
        ensures
            r == floating_to_slot(i as int),
    {
        match i {
            0 => 1,
            1 => 3,
            2 => 4,
            3 => 6,
            _ => unreached(),
        }
    }

    /// Expands this reduced state back to the full state it stands for,
    /// with the canonical even rotation parity.
    pub fn denormalize(self) -> (r: Skewb)
        requires
            forall|i: int| 0 <= i < 4 ==> self@.floating_pieces[i] < 4,
        ensures
            r@ == denormalize_spec(self@),
    {
        proof {
            assert(self@.floating_pieces[0] < 4);
            assert(self@.floating_pieces[1] < 4);
            assert(self@.floating_pieces[2] < 4);
            assert(self@.floating_pieces[3] < 4);
        }
        let corner_pieces = [
            0,
            Self::floating_i_to_i(self.floating_pieces[0]),
            2,
            Self::floating_i_to_i(self.floating_pieces[1]),
            Self::floating_i_to_i(self.floating_pieces[2]),
            5,
            Self::floating_i_to_i(self.floating_pieces[3]),
            7,
        ];
        let corner_orientations = [
            self.fixed_orientations[0],
            self.floating_orientations[0],
            self.fixed_orientations[1],
            self.floating_orientations[1],
            self.floating_orientations[2],
            self.fixed_orientations[2],
            self.floating_orientations[3],
            self.fixed_orientations[3],
        ];
        let r = Skewb {
            center_pieces: self.center_pieces,
            corner_orientations,
            corner_pieces,
            even_rotation: true,
        };
        proof {
            assert(r@ =~= denormalize_spec(self@));
        }
        r
    }

    /// Performs the move `move_`.
    pub fn do_move(&mut self, move_: &Move)
        requires
            valid_move(*move_),
        ensures
            final(self)@ == apply_move(old(self)@, *move_),
    {
        match move_.direction {
            Direction::FB => self.turn_fb(move_.corner),
            Direction::LR => self.turn_lr(move_.corner),
        }
    }

    /// Performs the inverse of the move `move_`: the opposite direction at
    /// the same corner.
    pub fn undo_move(&mut self, move_: &Move)
        requires
            valid_move(*move_),
        ensures
            final(self)@ == apply_move_inverse(old(self)@, *move_),
    {
        match move_.direction {
            Direction::LR => self.turn_fb(move_.corner),
            Direction::FB => self.turn_lr(move_.corner),
        }
    }
}

/// Three successive `LR` turns at one fixed corner, written out for one
/// concrete corner at a time.
#[verifier::rlimit(60)]
proof fn lemma_turn_lr_three_at(s: NormalizedView, c: Corner)
    requires
        reduced_dims(s),
        is_fixed_corner(c),
        c == (0u8, 0u8, 0u8) || c == (0u8, 1u8, 1u8) || c == (1u8, 0u8, 1u8) || c == (
        1u8,
        1u8,
        0u8,
        ),
    ensures
        reduced_turn_lr(reduced_turn_lr(reduced_turn_lr(s, c), c), c) == s,
{
    let s1 = reduced_turn_lr(s, c);
    let s2 = reduced_turn_lr(s1, c);
    let s3 = reduced_turn_lr(s2, c);
    assert(s3.fixed_orientations =~= s.fixed_orientations);
    assert(s3.floating_pieces =~= s.floating_pieces);
    assert(s3.floating_orientations =~= s.floating_orientations);
    assert(s3.center_pieces =~= s.center_pieces);
    assert(s3 =~= s);
}

/// A turn is an order-3 group element: three successive `LR` turns at the
/// same fixed corner restore the state exactly.
pub proof fn lemma_turn_lr_three(s: NormalizedView, c: Corner)
    requires
        reduced_dims(s),
        is_fixed_corner(c),
    ensures
        reduced_turn_lr(reduced_turn_lr(reduced_turn_lr(s, c), c), c) == s,
{
    assert(c == (0u8, 0u8, 0u8) || c == (0u8, 1u8, 1u8) || c == (1u8, 0u8, 1u8) || c == (
    1u8,
    1u8,
    0u8,
    ));
    lemma_turn_lr_three_at(s, c);
}

/// An `FB` turn is structurally the undoing move of an `LR` turn at the
/// same corner, and vice versa: performing the inverse of the move
/// `{LR, c}` is exactly `turn_fb(c)`, and performing the inverse of
/// `{FB, c}` is exactly `turn_lr(c)`.
pub proof fn lemma_turn_fb_is_undo_of_turn_lr(s: NormalizedView, c: Corner)
    ensures
        apply_move_inverse(s, (Move { direction: Direction::LR, corner: c })) == reduced_turn_fb(
            s,
            c,
        ),
        apply_move_inverse(s, (Move { direction: Direction::FB, corner: c })) == reduced_turn_lr(
            s,
            c,
        ),
        apply_move(s, (Move { direction: Direction::LR, corner: c })) == reduced_turn_lr(s, c),
        apply_move(s, (Move { direction: Direction::FB, corner: c })) == reduced_turn_fb(s, c),
{
}

/// An `FB` turn is the inverse of an `LR` turn at the same corner, and
/// vice versa.
pub proof fn lemma_turn_fb_inverts_turn_lr(s: NormalizedView, c: Corner)
    requires
        reduced_dims(s),
        is_fixed_corner(c),
    ensures
        reduced_turn_fb(reduced_turn_lr(s, c), c) == s,
        reduced_turn_lr(reduced_turn_fb(s, c), c) == s,
{
    lemma_turn_lr_three(s, c);
}

/// Performing any move and then its inverse restores the state exactly,
/// and so does performing the inverse first.
pub proof fn lemma_do_undo(s: NormalizedView, m: Move)
    requires
        reduced_dims(s),
        valid_move(m),
    ensures
        apply_move_inverse(apply_move(s, m), m) == s,
        apply_move(apply_move_inverse(s, m), m) == s,
{
    lemma_turn_fb_inverts_turn_lr(s, m.corner);
    lemma_turn_fb_inverts_turn_lr(reduced_turn_lr(s, m.corner), m.corner);
    lemma_turn_lr_three(reduced_turn_lr(s, m.corner), m.corner);
    lemma_turn_lr_three(reduced_turn_fb(s, m.corner), m.corner);
}

/// Every turn keeps the reduced state well-formed: the floating pieces
/// stay a permutation of {0, 1, 2, 3}.
pub proof fn lemma_turn_lr_preserves_wf(s: NormalizedView, c: Corner)
    requires
        reduced_wf(s),
        is_fixed_corner(c),
    ensures
        reduced_wf(reduced_turn_lr(s, c)),
{
}

/// A turn keeps the state's dimensions.
pub proof fn lemma_turn_lr_preserves_dims(s: NormalizedView, c: Corner)
    requires
        reduced_dims(s),
    ensures
        reduced_dims(reduced_turn_lr(s, c)),
{
}

} // verus!
