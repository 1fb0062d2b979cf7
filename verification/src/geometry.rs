//! Points, bounding boxes and the contact test between two boxes.

use crate::units::UNIT;
use vstd::prelude::*;

verus! {

/// A point or a direction in the plane, in fixed-point steps.
#[derive(Clone, Copy, Debug, PartialEq, Eq, Structural)]
pub struct Vec2 {
    pub x: i64,
    pub y: i64,
}

impl Vec2 {
    pub fn new(x: i64, y: i64) -> (point: Self)
        ensures
            point == (Vec2 { x, y }),
    {
        Vec2 { x, y }
    }

    /// The origin.
    pub fn zero() -> (point: Self)
        ensures
            point == (Vec2 { x: 0, y: 0 }),
    {
        Vec2 { x: 0, y: 0 }
    }

    /// One world unit along each axis.
    pub fn one() -> (point: Self)
        ensures
            point == (Vec2 { x: UNIT, y: UNIT }),
    {
        Vec2 { x: UNIT, y: UNIT }
    }
}

/// Distance between two coordinates on one axis.
pub open spec fn distance(a: int, b: int) -> int {
    if a >= b {
        a - b
    } else {
        b - a
    }
}

/// Half-extents of an axis-aligned bounding box.
#[derive(Clone, Copy, Debug, PartialEq, Eq, Structural)]
pub struct Box {
    pub width: i64,
    pub height: i64,
}

impl vstd::std_specs::convert::FromSpecImpl<Vec2> for Box {
    open spec fn obeys_from_spec() -> bool {
        true
    }

    open spec fn from_spec(value: Vec2) -> Self {
        Box { width: value.x, height: value.y }
    }
}

impl From<Vec2> for Box {
    /// Reads the half-extents off the two components of a scale.
    fn from(value: Vec2) -> (extents: Self) {
        Box { width: value.x, height: value.y }
    }
}

impl Box {
    /// The contact relation between a box centred at `self_pos` and a box
    /// centred at `other_pos`: the centres are within the combined half-extent
    /// on at least one axis. Two boxes that line up on one axis are in contact
    /// however far apart they are on the other.
    pub open spec fn overlaps(self, self_pos: Vec2, other: Box, other_pos: Vec2) -> bool {
        ||| distance(self_pos.x as int, other_pos.x as int) <= self.width + other.width
        ||| distance(self_pos.y as int, other_pos.y as int) <= self.height + other.height
    }

    /// Decides [`Box::overlaps`].
    pub fn test_overlap(&self, self_pos: Vec2, other: &Self, other_pos: Vec2) -> (hit: bool)
        ensures
            hit == self.overlaps(self_pos, *other, other_pos),
    {
        let combined_width: i128 = self.width as i128 + other.width as i128;
        let combined_height: i128 = self.height as i128 + other.height as i128;
        let x_distance: i128 = span(self_pos.x, other_pos.x);
        let y_distance: i128 = span(self_pos.y, other_pos.y);
        x_distance <= combined_width || y_distance <= combined_height
    }
}

/// Computes [`distance`] between two coordinates.
pub fn span(a: i64, b: i64) -> (gap: i128)
    ensures
        gap == distance(a as int, b as int),
{
    if a >= b {
        a as i128 - b as i128
    } else {
        b as i128 - a as i128
    }
}

/// The bounding box attached to an entity.
#[derive(Clone, Copy, Debug, PartialEq, Eq, Structural)]
pub struct CollisionBox(pub Box);

/// Contact does not depend on which of the two boxes is asked.
pub proof fn lemma_overlap_symmetric(a: Box, a_pos: Vec2, b: Box, b_pos: Vec2)
    ensures
        a.overlaps(a_pos, b, b_pos) == b.overlaps(b_pos, a, a_pos),
{
}

/// Two boxes with a common centre are in contact as soon as their combined
/// half-extent is not negative on one axis.
pub proof fn lemma_overlap_same_center(a: Box, b: Box, center: Vec2)
    requires
        a.width + b.width >= 0 || a.height + b.height >= 0,
    ensures
        a.overlaps(center, b, center),
{
}

/// Two boxes whose centres are further apart than the combined half-extent on
/// both axes are not in contact.
pub proof fn lemma_overlap_separated(a: Box, a_pos: Vec2, b: Box, b_pos: Vec2)
    requires
        distance(a_pos.x as int, b_pos.x as int) > a.width + b.width,
        distance(a_pos.y as int, b_pos.y as int) > a.height + b.height,
    ensures
        !a.overlaps(a_pos, b, b_pos),
{
}

} // verus!
