//! Points, axis-aligned rectangles and the overlap test between them.

use vstd::prelude::*;

verus! {

/// A point or a velocity: two components, `x` to the right and `y` downward.
#[derive(Clone, Copy, Debug, PartialEq, Eq, Structural)]
pub struct Vec2 {
    pub x: i64,
    pub y: i64,
}

/// An axis-aligned rectangle, given by its top-left corner and its size.
#[derive(Clone, Copy, Debug, PartialEq, Eq, Structural)]
pub struct Rect {
    /// Left edge.
    pub x: i64,
    /// Top edge.
    pub y: i64,
    /// Width, going to the right.
    pub w: i64,
    /// Height, going down.
    pub h: i64,
}

/// The four edges of an axis-aligned region, wide enough to hold the far
/// edges of any [`Rect`] exactly.
#[derive(Clone, Copy, Debug, PartialEq, Eq, Structural)]
pub struct Extent {
    pub left: i128,
    pub right: i128,
    pub top: i128,
    pub bottom: i128,
}

impl Extent {
    /// Two regions overlap when neither lies wholly to one side of the
    /// other. Edges count as part of a region: regions that only touch
    /// along an edge or at a corner overlap.
    pub open spec fn overlaps_spec(self, other: Extent) -> bool {
        &&& self.left <= other.right
        &&& self.right >= other.left
        &&& self.top <= other.bottom
        &&& self.bottom >= other.top
    }

    /// Whether the two regions share a point, edges included.
    #[verifier::when_used_as_spec(overlaps_spec)]
    pub fn overlaps(self, other: Extent) -> (hit: bool)
        ensures
            hit == self.overlaps_spec(other),
    {
        self.left <= other.right && self.right >= other.left && self.top <= other.bottom
            && self.bottom >= other.top
    }
}

impl Rect {
    /// The region the rectangle covers: from its corner to its corner plus
    /// its size, without rounding.
    pub open spec fn extent_spec(self) -> Extent {
        Extent {
            left: self.x as i128,
            right: (self.x + self.w) as i128,
            top: self.y as i128,
            bottom: (self.y + self.h) as i128,
        }
    }

    /// The four edges of the rectangle.
    #[verifier::when_used_as_spec(extent_spec)]
    pub fn extent(self) -> (e: Extent)
        ensures
            e == self.extent_spec(),
            e.right == self.x + self.w,
            e.bottom == self.y + self.h,
    {
        Extent {
            left: self.x as i128,
            right: self.x as i128 + self.w as i128,
            top: self.y as i128,
            bottom: self.y as i128 + self.h as i128,
        }
    }
}

/// Regions that share no more than a vertical edge overlap, as long as
/// some height is common to both.
pub proof fn touching_sides_overlap(a: Extent, b: Extent)
    requires
        a.left <= a.right,
        a.right == b.left,
        b.left <= b.right,
        a.top <= b.bottom,
        b.top <= a.bottom,
    ensures
        a.overlaps(b),
        b.overlaps(a),
{
}

/// Regions with a gap between them, however small, do not overlap.
pub proof fn apart_means_no_overlap(a: Extent, b: Extent)
    requires
        a.right < b.left || b.right < a.left || a.bottom < b.top || b.bottom < a.top,
    ensures
        !a.overlaps(b),
{
}

} // verus!
