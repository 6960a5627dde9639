//! What a frame looks like, as a list of shapes for a display to paint.

use vstd::prelude::*;
use crate::geometry::{Rect, Vec2};

verus! {

/// The colors the game paints with.
#[derive(Clone, Copy, Debug, PartialEq, Eq, Structural)]
pub enum Color {
    Black,
    White,
    Blue,
    Red,
}

/// One painting step. Later steps paint over earlier ones.
#[derive(Clone, Copy, Debug, PartialEq, Eq, Structural)]
pub enum Shape {
    /// Fill the whole field.
    Clear { color: Color },
    /// Fill a rectangle.
    Rectangle { rect: Rect, color: Color },
    /// Fill a disc.
    Circle { center: Vec2, radius: i64, color: Color },
}

/// How far the two colored fringes of the ball stand off its center: a
/// fifth of a unit.
pub const FRINGE_OFFSET: i64 = 200_000_000;

} // verus!
