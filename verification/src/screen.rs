//! The playing field.

use vstd::prelude::*;
use crate::geometry::Vec2;

verus! {

/// The size of the playing field. Neither side is ever negative.
#[derive(Clone, Copy, Debug)]
pub struct Screen {
    width: i64,
    height: i64,
}

impl Screen {
    /// Distance from the left edge to the right edge.
    pub closed spec fn spec_width(&self) -> i64 {
        self.width
    }

    /// Distance from the top edge to the bottom edge.
    pub closed spec fn spec_height(&self) -> i64 {
        self.height
    }

    /// Both sides are non-negative.
    #[verifier::type_invariant]
    pub open spec fn wf(self) -> bool {
        self.width() >= 0 && self.height() >= 0
    }

    /// A field of the given size, or nothing when a side is negative.
    pub fn new(width: i64, height: i64) -> (screen: Option<Screen>)
        ensures
            screen is Some <==> width >= 0 && height >= 0,
            screen matches Some(s) ==> s.width() == width && s.height() == height && s.wf(),
    {
        if width >= 0 && height >= 0 {
            Some(Screen { width, height })
        } else {
            None
        }
    }

    /// Distance from the left edge to the right edge.
    #[verifier::when_used_as_spec(spec_width)]
    pub fn width(&self) -> (w: i64)
        ensures
            w == self.width(),
            w >= 0,
    {
        proof {
            use_type_invariant(self);
        }
        self.width
    }

    /// Distance from the top edge to the bottom edge.
    #[verifier::when_used_as_spec(spec_height)]
    pub fn height(&self) -> (h: i64)
        ensures
            h == self.height(),
            h >= 0,
    {
        proof {
            use_type_invariant(self);
        }
        self.height
    }

    /// The middle of the field, each coordinate rounded down.
    pub open spec fn spec_center(&self) -> Vec2 {
        Vec2 { x: (self.width() / 2) as i64, y: (self.height() / 2) as i64 }
    }

    /// The middle of the field, each coordinate rounded down.
    #[verifier::when_used_as_spec(spec_center)]
    pub fn center(&self) -> (c: Vec2)
        ensures
            c == self.center(),
            c.x == self.width() / 2,
            c.y == self.height() / 2,
    {
        proof {
            use_type_invariant(self);
        }
        Vec2 { x: self.width / 2, y: self.height / 2 }
    }
}

} // verus!
