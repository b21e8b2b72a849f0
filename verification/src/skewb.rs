//! The full, explicit state of the puzzle: where every corner piece and
//! center sits and how each corner is twisted. This is the representation
//! a renderer reads; searching uses the reduced state instead.

use vstd::prelude::*;
use vstd::pervasive::unreached;

use crate::cube::Center;
use crate::cube::Color;
use crate::cube::Corner;
use crate::cube::CornerPiece;
use crate::cube::Orientation;
use crate::cube::adjacent_corners;
use crate::cube::center_index;
use crate::cube::corner_index;
use crate::cube::slot_to_floating;
use crate::cube::spec_add;
use crate::cube::turn_center_triple;
use crate::cube::valid_corner;
use crate::cycles::cycle3;
use crate::cycles::cycle4;
use crate::cycles::rotate3;
use crate::cycles::rotate4;
use crate::normalized::NormalizedSkewb;
use crate::normalized::NormalizedView;
use crate::normalized::denormalize_spec;
use crate::normalized::reduced_dims;
use crate::normalized::reduced_wf;

verus! {

/// The mathematical value of a full state: one sequence per field, plus
/// the rotation-parity flag.
#[verifier::ext_equal]
pub ghost struct SkewbView {
    pub corner_pieces: Seq<usize>,
    pub corner_orientations: Seq<Orientation>,
    pub center_pieces: Seq<Color>,
    pub even_rotation: bool,
}

/// The full state of the puzzle.
///
/// `corner_pieces[i]` names the identity of the piece in slot `i`;
/// `corner_orientations[i]` is that piece's twist offset;
/// `center_pieces[i]` is the color of center slot `i`; and
/// `even_rotation` records the parity of whole-puzzle rotations performed,
/// which decides how piece identities map to color triples.
#[derive(Copy, Clone, Debug, PartialEq, Eq, Hash)]
pub struct Skewb {
    pub corner_pieces: [usize; 8],
    pub corner_orientations: [Orientation; 8],
    pub center_pieces: [Color; 6],
    pub even_rotation: bool,
}

impl View for Skewb {
    type V = SkewbView;

    open spec fn view(&self) -> SkewbView {
        SkewbView {
            corner_pieces: self.corner_pieces@,
            corner_orientations: self.corner_orientations@,
            center_pieces: self.center_pieces@,
            even_rotation: self.even_rotation,
        }
    }
}

/// The dimensions every full state value has: eight corner slots and six
/// center slots.
pub open spec fn skewb_dims(s: SkewbView) -> bool {
    &&& s.corner_pieces.len() == 8
    &&& s.corner_orientations.len() == 8
    &&& s.center_pieces.len() == 6
}

/// Well-formedness of a full state value: the corner pieces are a
/// permutation of the eight piece identities, and no color sits on two
/// centers.
pub open spec fn skewb_wf(s: SkewbView) -> bool {
    &&& skewb_dims(s)
    &&& forall|i: int| 0 <= i < 8 ==> s.corner_pieces[i] < 8
    &&& forall|i: int, j: int| 0 <= i < j < 8 ==> s.corner_pieces[i] != s.corner_pieces[j]
    &&& forall|i: int, j: int| 0 <= i < j < 6 ==> s.center_pieces[i] != s.center_pieces[j]
}

/// The solved full state.
pub open spec fn solved_skewb() -> SkewbView {
    SkewbView {
        corner_pieces: seq![0usize, 1usize, 2usize, 3usize, 4usize, 5usize, 6usize, 7usize],
        corner_orientations: seq![
            Orientation::UD,
            Orientation::UD,
            Orientation::UD,
            Orientation::UD,
            Orientation::UD,
            Orientation::UD,
            Orientation::UD,
            Orientation::UD,
        ],
        center_pieces: seq![Color::Y, Color::B, Color::R, Color::G, Color::O, Color::W],
        even_rotation: true,
    }
}

/// The color triple of the corner piece with identity `i`. The parity of
/// whole-puzzle rotations decides the cyclic order of the two non-UD
/// colors.
pub open spec fn piece_table(even: bool, i: int) -> CornerPiece {
    if even {
        if i == 0 {
            CornerPiece(Color::Y, Color::O, Color::G)
        } else if i == 1 {
            CornerPiece(Color::Y, Color::O, Color::B)
        } else if i == 2 {
            CornerPiece(Color::Y, Color::R, Color::B)
        } else if i == 3 {
            CornerPiece(Color::Y, Color::R, Color::G)
        } else if i == 4 {
            CornerPiece(Color::W, Color::O, Color::G)
        } else if i == 5 {
            CornerPiece(Color::W, Color::O, Color::B)
        } else if i == 6 {
            CornerPiece(Color::W, Color::R, Color::B)
        } else {
            CornerPiece(Color::W, Color::R, Color::G)
        }
    } else {
        if i == 0 {
            CornerPiece(Color::Y, Color::G, Color::O)
        } else if i == 1 {
            CornerPiece(Color::Y, Color::B, Color::O)
        } else if i == 2 {
            CornerPiece(Color::Y, Color::B, Color::R)
        } else if i == 3 {
            CornerPiece(Color::Y, Color::G, Color::R)
        } else if i == 4 {
            CornerPiece(Color::W, Color::G, Color::O)
        } else if i == 5 {
            CornerPiece(Color::W, Color::B, Color::O)
        } else if i == 6 {
            CornerPiece(Color::W, Color::B, Color::R)
        } else {
            CornerPiece(Color::W, Color::G, Color::R)
        }
    }
}

/// The effect of one elementary (`LR`) turn of the full state at
/// any corner `c`: the three adjacent corners trade pieces and
/// orientations along a 3-cycle, the turned corner and the three cycled
/// corners each gain an `LR` twist, and the three adjacent centers cycle.
pub open spec fn skewb_turn_lr(s: SkewbView, c: Corner) -> SkewbView {
    let (a0, a1, a2) = adjacent_corners(c);
    let k0 = corner_index(a0);
    let k1 = corner_index(a1);
    let k2 = corner_index(a2);
    let ci = corner_index(c);
    let t = cycle3(s.corner_orientations, k0, k1, k2);
    let t0 = t.update(ci, spec_add(t[ci], Orientation::LR));
    let t1 = t0.update(k0, spec_add(t0[k0], Orientation::LR));
    let t2 = t1.update(k1, spec_add(t1[k1], Orientation::LR));
    let t3 = t2.update(k2, spec_add(t2[k2], Orientation::LR));
    let (c0, c1, c2) = turn_center_triple(c);
    SkewbView {
        corner_pieces: cycle3(s.corner_pieces, k0, k1, k2),
        corner_orientations: t3,
        center_pieces: cycle3(s.center_pieces, c0, c1, c2),
        even_rotation: s.even_rotation,
    }
}

/// The effect of one `FB` turn at `c`: two `LR` turns.
pub open spec fn skewb_turn_fb(s: SkewbView, c: Corner) -> SkewbView {
    skewb_turn_lr(skewb_turn_lr(s, c), c)
}

/// `o` with the labels `x` and `y` exchanged.
pub open spec fn swap_label(o: Orientation, x: Orientation, y: Orientation) -> Orientation {
    if o == x {
        y
    } else if o == y {
        x
    } else {
        o
    }
}

/// Every element of `s` with the labels `x` and `y` exchanged.
pub open spec fn relabel_all(s: Seq<Orientation>, x: Orientation, y: Orientation) -> Seq<
    Orientation,
> {
    Seq::new(s.len(), |i: int| swap_label(s[i], x, y))
}

/// The effect of rotating the whole puzzle a quarter turn about the UD
/// axis: two disjoint 4-cycles of corner slots, a 4-cycle of the four side
/// centers, a parity flip, and an exchange of the LR and FB orientation
/// labels.
pub open spec fn skewb_rotate_ud(s: SkewbView) -> SkewbView {
    SkewbView {
        corner_pieces: cycle4(cycle4(s.corner_pieces, 0, 1, 2, 3), 4, 5, 6, 7),
        corner_orientations: relabel_all(
            cycle4(cycle4(s.corner_orientations, 0, 1, 2, 3), 4, 5, 6, 7),
            Orientation::LR,
            Orientation::FB,
        ),
        center_pieces: cycle4(s.center_pieces, 3, 4, 1, 2),
        even_rotation: !s.even_rotation,
    }
}

/// The effect of rotating the whole puzzle a quarter turn about the FB
/// axis; it exchanges the UD and LR orientation labels.
pub open spec fn skewb_rotate_fb(s: SkewbView) -> SkewbView {
    SkewbView {
        corner_pieces: cycle4(cycle4(s.corner_pieces, 1, 5, 6, 2), 0, 4, 7, 3),
        corner_orientations: relabel_all(
            cycle4(cycle4(s.corner_orientations, 1, 5, 6, 2), 0, 4, 7, 3),
            Orientation::UD,
            Orientation::LR,
        ),
        center_pieces: cycle4(s.center_pieces, 0, 4, 5, 2),
        even_rotation: !s.even_rotation,
    }
}

/// The effect of rotating the whole puzzle a quarter turn about the LR
/// axis; it exchanges the UD and FB orientation labels.
pub open spec fn skewb_rotate_lr(s: SkewbView) -> SkewbView {
    SkewbView {
        corner_pieces: cycle4(cycle4(s.corner_pieces, 1, 5, 4, 0), 2, 6, 7, 3),
        corner_orientations: relabel_all(
            cycle4(cycle4(s.corner_orientations, 1, 5, 4, 0), 2, 6, 7, 3),
            Orientation::UD,
            Orientation::FB,
        ),
        center_pieces: cycle4(s.center_pieces, 0, 1, 5, 3),
        even_rotation: !s.even_rotation,
    }
}

/// A full state sits in the canonical frame when the puzzle has been
/// rotated an even number of times, each of the four fixed slots holds its
/// own piece, and each floating slot holds some floating piece.
pub open spec fn in_canonical_frame(s: SkewbView) -> bool {
    &&& s.even_rotation
    &&& s.corner_pieces[0] == 0
    &&& s.corner_pieces[2] == 2
    &&& s.corner_pieces[5] == 5
    &&& s.corner_pieces[7] == 7
    &&& is_floating_piece(s.corner_pieces[1])
    &&& is_floating_piece(s.corner_pieces[3])
    &&& is_floating_piece(s.corner_pieces[4])
    &&& is_floating_piece(s.corner_pieces[6])
}

/// Whether `p` is the identity of a piece that lives in a floating slot.
pub open spec fn is_floating_piece(p: usize) -> bool {
    p == 1 || p == 3 || p == 4 || p == 6
}

/// The reduced state a canonical-frame full state projects to: the four
/// fixed orientations, the floating permutation re-indexed to 0..3, the
/// four floating orientations, and the centers unchanged.
pub open spec fn normalize_spec(s: SkewbView) -> NormalizedView {
    NormalizedView {
        fixed_orientations: seq![
            s.corner_orientations[0],
            s.corner_orientations[2],
            s.corner_orientations[5],
            s.corner_orientations[7],
        ],
        floating_pieces: seq![
            slot_to_floating(s.corner_pieces[1] as int) as usize,
            slot_to_floating(s.corner_pieces[3] as int) as usize,
            slot_to_floating(s.corner_pieces[4] as int) as usize,
            slot_to_floating(s.corner_pieces[6] as int) as usize,
        ],
        floating_orientations: seq![
            s.corner_orientations[1],
            s.corner_orientations[3],
            s.corner_orientations[4],
            s.corner_orientations[6],
        ],
        center_pieces: s.center_pieces,
    }
}

impl Skewb {
    /// The solved full state.
    pub fn new() -> (r: Skewb)
        ensures
            r@ == solved_skewb(),
            skewb_wf(r@),
            in_canonical_frame(r@),
    {
        let r = Skewb {
            corner_pieces: [0, 1, 2, 3, 4, 5, 6, 7],
            corner_orientations: [Orientation::UD; 8],
            center_pieces: [Color::Y, Color::B, Color::R, Color::G, Color::O, Color::W],
            even_rotation: true,
        };
        proof {
            assert(r@ =~= solved_skewb());
        }
        r
    }

    /// The slot number of a corner coordinate.
    fn corner_to_i(c: Corner) -> (i: usize)
        requires
            valid_corner(c),
        ensures
            i == corner_index(c),
    {
        match (c.0, c.1, c.2) {
            (0, 0, 0) => 0,
            (0, 0, 1) => 1,
            (0, 1, 1) => 2,
            (0, 1, 0) => 3,
            (1, 0, 0) => 4,
            (1, 0, 1) => 5,
            (1, 1, 1) => 6,
            (1, 1, 0) => 7,
            _ => unreached(),
        }
    }

    /// The color triple of the piece with identity `i`, under the current
    /// rotation parity.
    fn i_to_corner_piece(&self, i: usize) -> (r: CornerPiece)
        requires
            i < 8,
        ensures
            r == piece_table(self.even_rotation, i as int),
    {
        if self.even_rotation {
            match i {
                0 => CornerPiece(Color::Y, Color::O, Color::G),
                1 => CornerPiece(Color::Y, Color::O, Color::B),
                2 => CornerPiece(Color::Y, Color::R, Color::B),
                3 => CornerPiece(Color::Y, Color::R, Color::G),
                4 => CornerPiece(Color::W, Color::O, Color::G),
                5 => CornerPiece(Color::W, Color::O, Color::B),
                6 => CornerPiece(Color::W, Color::R, Color::B),
                7 => CornerPiece(Color::W, Color::R, Color::G),
                _ => unreached(),
            }
        } else {
            match i {
                0 => CornerPiece(Color::Y, Color::G, Color::O),
                1 => CornerPiece(Color::Y, Color::B, Color::O),
                2 => CornerPiece(Color::Y, Color::B, Color::R),
                3 => CornerPiece(Color::Y, Color::G, Color::R),
                4 => CornerPiece(Color::W, Color::G, Color::O),
                5 => CornerPiece(Color::W, Color::B, Color::O),
                6 => CornerPiece(Color::W, Color::B, Color::R),
                7 => CornerPiece(Color::W, Color::G, Color::R),
                _ => unreached(),
            }
        }
    }

    /// The slot number of a center.
    fn center_to_i(c: Center) -> (i: usize)
        ensures
            i == center_index(c),
    {
        match c {
            Center::U => 0,
            Center::F => 1,
            Center::R => 2,
            Center::B => 3,
            Center::L => 4,
            Center::D => 5,
        }
    }

    /// The color triple of the piece currently occupying corner `c`.
    pub fn get_corner_piece(&self, c: Corner) -> (r: CornerPiece)
        requires
            valid_corner(c),
            skewb_wf(self@),
        ensures
            r == piece_table(self@.even_rotation, self@.corner_pieces[corner_index(c)] as int),
    {
        self.i_to_corner_piece(self.corner_pieces[Self::corner_to_i(c)])
    }

    /// The twist offset of the piece currently occupying corner `c`.
    pub fn get_corner_orientation(&self, c: Corner) -> (r: Orientation)
        requires
            valid_corner(c),
        ensures
            r == self@.corner_orientations[corner_index(c)],
    {
        self.corner_orientations[Self::corner_to_i(c)]
    }

    /// The color currently occupying center slot `c`.
    pub fn get_center_piece(&self, c: Center) -> (r: Color)
        ensures
            r == self@.center_pieces[center_index(c)],
    {
        self.center_pieces[Self::center_to_i(c)]
    }

    /// Applies one elementary (`LR`) turn at the corner `c`.
    pub fn turn_lr(&mut self, c: Corner)
        requires
            valid_corner(c),
        ensures
            final(self)@ == skewb_turn_lr(old(self)@, c),
    {
        let k0 = Self::corner_to_i((c.0, c.1, 1 - c.2));
        let k1 = Self::corner_to_i((c.0, 1 - c.1, c.2));
        let k2 = Self::corner_to_i((1 - c.0, c.1, c.2));

        rotate3(&mut self.corner_pieces, k0, k1, k2);
        rotate3(&mut self.corner_orientations, k0, k1, k2);

        let ci = Self::corner_to_i(c);
        self.corner_orientations[ci] = self.corner_orientations[ci].add(Orientation::LR);
        self.corner_orientations[k0] = self.corner_orientations[k0].add(Orientation::LR);
        self.corner_orientations[k1] = self.corner_orientations[k1].add(Orientation::LR);
        self.corner_orientations[k2] = self.corner_orientations[k2].add(Orientation::LR);

        let c0 = Self::center_to_i(if c.2 == 0 { Center::B } else { Center::F });
        let c1 = Self::center_to_i(if c.1 == 0 { Center::L } else { Center::R });
        let c2 = Self::center_to_i(if c.0 == 0 { Center::U } else { Center::D });
        rotate3(&mut self.center_pieces, c0, c1, c2);

        proof {
            assert(self@ =~= skewb_turn_lr(old(self)@, c));
        }
    }

    /// Applies one `FB` turn at the corner `c`: two `LR` turns.
    pub fn turn_fb(&mut self, c: Corner)
        requires
            valid_corner(c),
        ensures
            final(self)@ == skewb_turn_fb(old(self)@, c),
    {
        self.turn_lr(c);
        self.turn_lr(c);
    }

    /// Exchanges the orientation labels `x` and `y` in every slot.
    fn swap_labels(a: &mut [Orientation; 8], x: Orientation, y: Orientation)
        ensures
            final(a)@ == relabel_all(old(a)@, x, y),
    {
        for i in 0..8usize
            invariant
                forall|j: int| 0 <= j < i ==> a@[j] == swap_label(old(a)@[j], x, y),
                forall|j: int| i <= j < 8 ==> a@[j] == old(a)@[j],
        {
            let o = a[i];
            a[i] = if o == x {
                y
            } else if o == y {
                x
            } else {
                o
            };
        }
        proof {
            assert(a@ =~= relabel_all(old(a)@, x, y));
        }
    }

    /// Rotates the whole puzzle a quarter turn about the UD axis. This
    /// reframes the puzzle rather than solving it: it also relabels which
    /// symbolic axis each physical direction means.
    pub fn rotate_ud(&mut self)
        ensures
            final(self)@ == skewb_rotate_ud(old(self)@),
    {
        rotate4(&mut self.corner_pieces, 0, 1, 2, 3);
        rotate4(&mut self.corner_orientations, 0, 1, 2, 3);
        rotate4(&mut self.corner_pieces, 4, 5, 6, 7);
        rotate4(&mut self.corner_orientations, 4, 5, 6, 7);
        rotate4(&mut self.center_pieces, 3, 4, 1, 2);
        self.even_rotation = !self.even_rotation;
        Self::swap_labels(&mut self.corner_orientations, Orientation::LR, Orientation::FB);
        proof {
            assert(self@ =~= skewb_rotate_ud(old(self)@));
        }
    }

    /// Rotates the whole puzzle a quarter turn about the FB axis.
    pub fn rotate_fb(&mut self)
        ensures
            final(self)@ == skewb_rotate_fb(old(self)@),
    {
        rotate4(&mut self.corner_pieces, 1, 5, 6, 2);
        rotate4(&mut self.corner_orientations, 1, 5, 6, 2);
        rotate4(&mut self.corner_pieces, 0, 4, 7, 3);
        rotate4(&mut self.corner_orientations, 0, 4, 7, 3);
        rotate4(&mut self.center_pieces, 0, 4, 5, 2);
        self.even_rotation = !self.even_rotation;
        Self::swap_labels(&mut self.corner_orientations, Orientation::UD, Orientation::LR);
        proof {
            assert(self@ =~= skewb_rotate_fb(old(self)@));
        }
    }

    /// Rotates the whole puzzle a quarter turn about the LR axis.
    pub fn rotate_lr(&mut self)
        ensures
            final(self)@ == skewb_rotate_lr(old(self)@),
    {
        rotate4(&mut self.corner_pieces, 1, 5, 4, 0);
        rotate4(&mut self.corner_orientations, 1, 5, 4, 0);
        rotate4(&mut self.corner_pieces, 2, 6, 7, 3);
        rotate4(&mut self.corner_orientations, 2, 6, 7, 3);
        rotate4(&mut self.center_pieces, 0, 1, 5, 3);
        self.even_rotation = !self.even_rotation;
        Self::swap_labels(&mut self.corner_orientations, Orientation::UD, Orientation::FB);
        proof {
            assert(self@ =~= skewb_rotate_lr(old(self)@));
        }
    }

    /// The floating index, 0 to 3, of the floating piece with identity `i`.
    fn i_to_floating_i(i: usize) -> (r: usize)
        requires
            is_floating_piece(i),
        ensures
            r == slot_to_floating(i as int),
    {
        match i {
            1 => 0,
            3 => 1,
            4 => 2,
            6 => 3,
            _ => unreached(),
        }
    }

    /// Projects a canonical-frame full state down to the reduced state the
    /// solver works on.
    pub fn normalize(self) -> (r: NormalizedSkewb)
        requires
            in_canonical_frame(self@),
        ensures
            r@ == normalize_spec(self@),
    {
        let fixed_orientations = [
            self.corner_orientations[0],
            self.corner_orientations[2],
            self.corner_orientations[5],
            self.corner_orientations[7],
        ];
        let floating_orientations = [
            self.corner_orientations[1],
            self.corner_orientations[3],
            self.corner_orientations[4],
            self.corner_orientations[6],
        ];
        let floating_pieces = [
            Self::i_to_floating_i(self.corner_pieces[1]),
            Self::i_to_floating_i(self.corner_pieces[3]),
            Self::i_to_floating_i(self.corner_pieces[4]),
            Self::i_to_floating_i(self.corner_pieces[6]),
        ];
        let r = NormalizedSkewb {
            center_pieces: self.center_pieces,
            fixed_orientations,
            floating_orientations,
            floating_pieces,
        };
        proof {
            assert(r@ =~= normalize_spec(self@));
        }
        r
    }
}

/// Three successive `LR` turns at one corner of the upper half of the
/// full state, one concrete corner at a time.
#[verifier::rlimit(90)]
proof fn lemma_skewb_turn_lr_three_upper(s: SkewbView, c: Corner)
    requires
        skewb_dims(s),
        valid_corner(c),
        c.0 == 0,
    ensures
        skewb_turn_lr(skewb_turn_lr(skewb_turn_lr(s, c), c), c) == s,
{
    let s3 = skewb_turn_lr(skewb_turn_lr(skewb_turn_lr(s, c), c), c);
    if c == (0u8, 0u8, 0u8) {
        assert(s3.corner_pieces =~= s.corner_pieces);
        assert(s3.corner_orientations =~= s.corner_orientations);
        assert(s3.center_pieces =~= s.center_pieces);
        assert(s3 =~= s);
    } else if c == (0u8, 0u8, 1u8) {
        assert(s3.corner_pieces =~= s.corner_pieces);
        assert(s3.corner_orientations =~= s.corner_orientations);
        assert(s3.center_pieces =~= s.center_pieces);
        assert(s3 =~= s);
    } else if c == (0u8, 1u8, 0u8) {
        assert(s3.corner_pieces =~= s.corner_pieces);
        assert(s3.corner_orientations =~= s.corner_orientations);
        assert(s3.center_pieces =~= s.center_pieces);
        assert(s3 =~= s);
    } else {
        assert(c == (0u8, 1u8, 1u8));
        assert(s3.corner_pieces =~= s.corner_pieces);
        assert(s3.corner_orientations =~= s.corner_orientations);
        assert(s3.center_pieces =~= s.center_pieces);
        assert(s3 =~= s);
    }
}

/// Three successive `LR` turns at one corner of the lower half of the
/// full state, one concrete corner at a time.
#[verifier::rlimit(90)]
proof fn lemma_skewb_turn_lr_three_lower(s: SkewbView, c: Corner)
    requires
        skewb_dims(s),
        valid_corner(c),
        c.0 == 1,
    ensures
        skewb_turn_lr(skewb_turn_lr(skewb_turn_lr(s, c), c), c) == s,
{
    let s3 = skewb_turn_lr(skewb_turn_lr(skewb_turn_lr(s, c), c), c);
    if c == (1u8, 0u8, 0u8) {
        assert(s3.corner_pieces =~= s.corner_pieces);
        assert(s3.corner_orientations =~= s.corner_orientations);
        assert(s3.center_pieces =~= s.center_pieces);
        assert(s3 =~= s);
    } else if c == (1u8, 0u8, 1u8) {
        assert(s3.corner_pieces =~= s.corner_pieces);
        assert(s3.corner_orientations =~= s.corner_orientations);
        assert(s3.center_pieces =~= s.center_pieces);
        assert(s3 =~= s);
    } else if c == (1u8, 1u8, 0u8) {
        assert(s3.corner_pieces =~= s.corner_pieces);
        assert(s3.corner_orientations =~= s.corner_orientations);
        assert(s3.center_pieces =~= s.center_pieces);
        assert(s3 =~= s);
    } else {
        assert(c == (1u8, 1u8, 1u8));
        assert(s3.corner_pieces =~= s.corner_pieces);
        assert(s3.corner_orientations =~= s.corner_orientations);
        assert(s3.center_pieces =~= s.center_pieces);
        assert(s3 =~= s);
    }
}

/// A turn of the full state is an order-3 group element: three successive
/// `LR` turns at the same corner restore the state exactly. It follows
/// that an `FB` turn is the inverse of an `LR` turn at the same corner.
pub proof fn lemma_skewb_turn_lr_three(s: SkewbView, c: Corner)
    requires
        skewb_dims(s),
        valid_corner(c),
    ensures
        skewb_turn_lr(skewb_turn_lr(skewb_turn_lr(s, c), c), c) == s,
        skewb_turn_fb(skewb_turn_lr(s, c), c) == s,
        skewb_turn_lr(skewb_turn_fb(s, c), c) == s,
{
    if c.0 == 0 {
        lemma_skewb_turn_lr_three_upper(s, c);
    } else {
        lemma_skewb_turn_lr_three_lower(s, c);
    }
}

/// Every turn keeps the full state well-formed: the corner pieces stay a
/// permutation of the eight identities and the centers stay six distinct
/// colors.
pub proof fn lemma_skewb_turn_lr_preserves_wf(s: SkewbView, c: Corner)
    requires
        skewb_wf(s),
        valid_corner(c),
    ensures
        skewb_wf(skewb_turn_lr(s, c)),
{
}

/// Whole-puzzle rotations keep the full state well-formed too.
pub proof fn lemma_rotations_preserve_wf(s: SkewbView)
    requires
        skewb_wf(s),
    ensures
        skewb_wf(skewb_rotate_ud(s)),
        skewb_wf(skewb_rotate_fb(s)),
        skewb_wf(skewb_rotate_lr(s)),
{
}

/// Projecting a canonical-frame full state to the reduced state and
/// rebuilding the full state from it restores it exactly.
pub proof fn lemma_denormalize_normalize(s: SkewbView)
    requires
        skewb_dims(s),
        in_canonical_frame(s),
    ensures
        denormalize_spec(normalize_spec(s)) == s,
{
    assert(denormalize_spec(normalize_spec(s)).corner_pieces =~= s.corner_pieces);
    assert(denormalize_spec(normalize_spec(s)).corner_orientations =~= s.corner_orientations);
    assert(denormalize_spec(normalize_spec(s)) =~= s);
}

/// Expanding any reduced state yields a full state in the canonical
/// frame, and projecting that full state back recovers the reduced state
/// exactly.
pub proof fn lemma_normalize_denormalize(n: NormalizedView)
    requires
        reduced_dims(n),
        forall|i: int| 0 <= i < 4 ==> n.floating_pieces[i] < 4,
    ensures
        in_canonical_frame(denormalize_spec(n)),
        normalize_spec(denormalize_spec(n)) == n,
{
    assert(normalize_spec(denormalize_spec(n)).floating_pieces =~= n.floating_pieces);
    assert(normalize_spec(denormalize_spec(n)).fixed_orientations =~= n.fixed_orientations);
    assert(normalize_spec(denormalize_spec(n)).floating_orientations
        =~= n.floating_orientations);
    assert(normalize_spec(denormalize_spec(n)) =~= n);
}

/// Projecting a well-formed canonical-frame full state yields a
/// well-formed reduced state: the floating pieces stay a permutation.
pub proof fn lemma_normalize_preserves_wf(s: SkewbView)
    requires
        skewb_wf(s),
        in_canonical_frame(s),
    ensures
        reduced_wf(normalize_spec(s)),
{
}

} // verus!
