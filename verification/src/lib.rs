//! The rules of a two-paddle ball game.
//!
//! Two paddles guard the left and the right side of a field; a ball bounces
//! between them, off the floor and the ceiling, and is served anew from the
//! middle whenever it leaves the field sideways. The crate holds the rules
//! only: it is handed the keys that are held, the size of the field and the
//! time a frame took, and it hands back the new state and a list of shapes
//! to paint.
//!
//! All quantities are integers in fixed point. Lengths are counted in steps
//! of which a screen unit holds [`units::UNIT`], speeds in steps of which a
//! unit per second holds [`units::SPEED_UNIT`], and time in ticks of which a
//! second holds [`units::TICKS_PER_SECOND`]. One speed step sustained for one
//! tick moves a body by exactly one length step, so motion needs no
//! rounding. Results that would leave the range of `i64` are held at its
//! nearest end.

pub mod ball;
pub mod game;
pub mod geometry;
pub mod input;
pub mod paddle;
pub mod random;
pub mod render;
pub mod screen;
pub mod units;

pub use crate::ball::Ball;
pub use crate::game::Game;
pub use crate::paddle::{Paddle, Side};
