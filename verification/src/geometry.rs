//! Flat shapes and where they stand in the world.

use vstd::prelude::*;

verus! {

/// The fewest sides a regular polygon can have.
pub const MIN_SIDES: usize = 3;

/// A flat shape centred on its own origin, measured in world units.
#[derive(Clone, Copy, Debug, PartialEq, Eq, Structural)]
pub enum Shape {
    /// A polygon with `sides` equal sides whose corners lie on a circle of
    /// radius `circumradius`.
    RegularPolygon { circumradius: u32, sides: usize },
    /// An axis-aligned rectangle, given by its full width and height.
    Rectangle { width: u32, height: u32 },
}

impl Shape {
    /// The shape can be built: a regular polygon needs a positive radius and
    /// at least [`MIN_SIDES`] sides. Every rectangle can be built.
    pub open spec fn wf(self) -> bool {
        match self {
            Shape::RegularPolygon { circumradius, sides } => circumradius > 0 && sides >= MIN_SIDES,
            Shape::Rectangle { .. } => true,
        }
    }
}

/// A position in world units and a rotation about the axis that points out
/// of the screen, counted in tenths of a radian, counter-clockwise.
#[derive(Clone, Copy, Debug, PartialEq, Eq, Structural)]
pub struct Placement {
    pub x: i32,
    pub y: i32,
    pub z: i32,
    pub turn: i32,
}

impl Placement {
    /// The placement at `(x, y, z)` that is not rotated.
    pub open spec fn spec_at(x: i32, y: i32, z: i32) -> Placement {
        Placement { x, y, z, turn: 0 }
    }

    /// The placement at `(x, y, z)` that is not rotated.
    #[verifier::when_used_as_spec(spec_at)]
    pub fn at(x: i32, y: i32, z: i32) -> (placement: Placement)
        ensures
            placement == Placement::spec_at(x, y, z),
    {
        Placement { x, y, z, turn: 0 }
    }

    /// This placement with its rotation replaced by `turn` tenths of a radian.
    pub open spec fn spec_turned(self, turn: i32) -> Placement {
        Placement { turn, ..self }
    }

    /// This placement with its rotation replaced by `turn` tenths of a
    /// radian. The position is kept.
    #[verifier::when_used_as_spec(spec_turned)]
    pub fn turned(self, turn: i32) -> (placement: Placement)
        ensures
            placement == self.spec_turned(turn),
    {
        Placement { x: self.x, y: self.y, z: self.z, turn }
    }
}

} // verus!
