//! The basic vocabulary of the puzzle: face colors, the order-3 orientation
//! group, corner pieces, and the addressing of corner and center slots.

use vstd::prelude::*;

verus! {

/// One of the six face colors. A color is only ever used as a label.
#[derive(Copy, Clone, Debug, PartialEq, Eq, Hash, Structural)]
pub enum Color {
    B,
    G,
    R,
    O,
    Y,
    W,
}

/// A corner piece's twist state: one of the three axes {UD, LR, FB}.
///
/// The three values form a commutative group of order 3 under `add`:
/// `UD` is the identity, `LR + LR == FB`, `FB + FB == LR`, and
/// `LR + FB == UD`. This group describes how a twist relabels the three
/// stickers of a corner piece.
#[derive(Copy, Clone, Debug, PartialEq, Eq, Hash, Structural)]
pub enum Orientation {
    UD,
    LR,
    FB,
}

/// Group composition of two orientations.
pub open spec fn spec_add(a: Orientation, b: Orientation) -> Orientation {
    match (a, b) {
        (Orientation::UD, x) => x,
        (x, Orientation::UD) => x,
        (Orientation::LR, Orientation::LR) => Orientation::FB,
        (Orientation::FB, Orientation::LR) => Orientation::UD,
        (Orientation::LR, Orientation::FB) => Orientation::UD,
        (Orientation::FB, Orientation::FB) => Orientation::LR,
    }
}

/// Group subtraction: `spec_sub(a, b)` is the unique `c` with
/// `spec_add(b, c) == a`.
pub open spec fn spec_sub(a: Orientation, b: Orientation) -> Orientation {
    match (a, b) {
        (x, Orientation::UD) => x,
        (Orientation::LR, Orientation::LR) => Orientation::UD,
        (Orientation::FB, Orientation::FB) => Orientation::UD,
        (Orientation::UD, Orientation::LR) => Orientation::FB,
        (Orientation::UD, Orientation::FB) => Orientation::LR,
        (Orientation::FB, Orientation::LR) => Orientation::LR,
        (Orientation::LR, Orientation::FB) => Orientation::FB,
    }
}

impl Orientation {
    /// Composes two orientations in the order-3 group.
    pub fn add(self, other: Orientation) -> (r: Orientation)
        ensures
            r == spec_add(self, other),
    {
        match (self, other) {
            (Orientation::UD, x) => x,
            (x, Orientation::UD) => x,
            (Orientation::LR, Orientation::LR) => Orientation::FB,
            (Orientation::FB, Orientation::LR) => Orientation::UD,
            (Orientation::LR, Orientation::FB) => Orientation::UD,
            (Orientation::FB, Orientation::FB) => Orientation::LR,
        }
    }

    /// Inverts the composition: `a.sub(b)` is the unique `c` with
    /// `b.add(c) == a`.
    pub fn sub(self, other: Orientation) -> (r: Orientation)
        ensures
            r == spec_sub(self, other),
    {
        match (self, other) {
            (x, Orientation::UD) => x,
            (Orientation::LR, Orientation::LR) => Orientation::UD,
            (Orientation::FB, Orientation::FB) => Orientation::UD,
            (Orientation::UD, Orientation::LR) => Orientation::FB,
            (Orientation::UD, Orientation::FB) => Orientation::LR,
            (Orientation::FB, Orientation::LR) => Orientation::LR,
            (Orientation::LR, Orientation::FB) => Orientation::FB,
        }
    }
}

/// {UD, LR, FB} is a commutative group with identity UD, where subtraction
/// inverts addition.
pub proof fn lemma_orientation_group(a: Orientation, b: Orientation, c: Orientation)
    ensures
        spec_add(a, Orientation::UD) == a,
        spec_add(a, b) == spec_add(b, a),
        spec_add(spec_add(a, b), c) == spec_add(a, spec_add(b, c)),
        spec_sub(spec_add(a, b), b) == a,
        spec_add(b, spec_sub(a, b)) == a,
{
}

/// An ordered triple of colors, one per orientation axis.
///
/// A piece's identity (which colors it carries, in which cyclic order) never
/// changes; only its placement and its orientation offset do.
#[derive(Copy, Clone, Debug, PartialEq, Eq, Hash, Structural)]
pub struct CornerPiece(pub Color, pub Color, pub Color);

/// The color of `p` that faces axis `o`.
pub open spec fn spec_sticker(p: CornerPiece, o: Orientation) -> Color {
    match o {
        Orientation::UD => p.0,
        Orientation::LR => p.1,
        Orientation::FB => p.2,
    }
}

impl CornerPiece {
    /// Projects out the color currently facing axis `o`.
    pub fn sticker(self, o: Orientation) -> (r: Color)
        ensures
            r == spec_sticker(self, o),
    {
        match o {
            Orientation::UD => self.0,
            Orientation::LR => self.1,
            Orientation::FB => self.2,
        }
    }
}

/// One of the six physical face-center slots.
#[derive(Copy, Clone, Debug, PartialEq, Eq, Hash, Structural)]
pub enum Center {
    U,
    D,
    L,
    R,
    F,
    B,
}

/// One of the eight physical corner slots, addressed by one bit per axis.
pub type Corner = (u8, u8, u8);

/// A corner coordinate is valid when every component is a bit.
pub open spec fn valid_corner(c: Corner) -> bool {
    c.0 <= 1 && c.1 <= 1 && c.2 <= 1
}

/// The slot number, 0 to 7, of a valid corner coordinate.
pub open spec fn corner_index(c: Corner) -> int {
    match c {
        (0u8, 0u8, 0u8) => 0,
        (0u8, 0u8, 1u8) => 1,
        (0u8, 1u8, 1u8) => 2,
        (0u8, 1u8, 0u8) => 3,
        (1u8, 0u8, 0u8) => 4,
        (1u8, 0u8, 1u8) => 5,
        (1u8, 1u8, 1u8) => 6,
        (1u8, 1u8, 0u8) => 7,
        _ => 0,
    }
}

/// The slot number, 0 to 5, of a center.
pub open spec fn center_index(c: Center) -> int {
    match c {
        Center::U => 0,
        Center::F => 1,
        Center::R => 2,
        Center::B => 3,
        Center::L => 4,
        Center::D => 5,
    }
}

/// A corner slot is fixed when its coordinates have even parity. In the
/// canonical frame, no legal turn ever moves a piece out of a fixed slot;
/// only the four floating slots trade pieces.
pub open spec fn is_fixed_corner(c: Corner) -> bool {
    valid_corner(c) && (c.0 + c.1 + c.2) % 2 == 0
}

/// The index, 0 to 3, of a fixed corner among the four fixed slots.
pub open spec fn fixed_index(c: Corner) -> int {
    match c {
        (0u8, 0u8, 0u8) => 0,
        (0u8, 1u8, 1u8) => 1,
        (1u8, 0u8, 1u8) => 2,
        (1u8, 1u8, 0u8) => 3,
        _ => 0,
    }
}

/// The index, 0 to 3, of a floating corner among the four floating slots.
pub open spec fn floating_index(c: Corner) -> int {
    match c {
        (0u8, 0u8, 1u8) => 0,
        (0u8, 1u8, 0u8) => 1,
        (1u8, 0u8, 0u8) => 2,
        (1u8, 1u8, 1u8) => 3,
        _ => 0,
    }
}

/// The 8-slot corner number of the floating slot with floating index `i`.
pub open spec fn floating_to_slot(i: int) -> int {
    if i == 0 {
        1
    } else if i == 1 {
        3
    } else if i == 2 {
        4
    } else {
        6
    }
}

/// The floating index of the corner slot `i`, for `i` in {1, 3, 4, 6}.
pub open spec fn slot_to_floating(i: int) -> int {
    if i == 1 {
        0
    } else if i == 3 {
        1
    } else if i == 4 {
        2
    } else {
        3
    }
}

/// The three corners adjacent to `c`, in the order a turn at `c` cycles
/// them: each differs from `c` in exactly one coordinate, the third one
/// first.
pub open spec fn adjacent_corners(c: Corner) -> (Corner, Corner, Corner) {
    (
        (c.0, c.1, (1 - c.2) as u8),
        (c.0, (1 - c.1) as u8, c.2),
        ((1 - c.0) as u8, c.1, c.2),
    )
}

/// The three center slots a turn at `c` cycles, in cycling order: the face
/// behind `c` on the FB axis, then on the LR axis, then on the UD axis.
pub open spec fn turn_center_triple(c: Corner) -> (int, int, int) {
    (
        if c.2 == 0 { center_index(Center::B) } else { center_index(Center::F) },
        if c.1 == 0 { center_index(Center::L) } else { center_index(Center::R) },
        if c.0 == 0 { center_index(Center::U) } else { center_index(Center::D) },
    )
}

} // verus!
