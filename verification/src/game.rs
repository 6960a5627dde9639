//! The whole game: two paddles and a ball, advanced frame by frame.

use vstd::prelude::*;
use crate::ball::Ball;
use crate::geometry::Vec2;
use crate::input::Keys;
use crate::paddle::{Paddle, Side};
use crate::render::{Color, Shape};
use crate::screen::Screen;

verus! {

/// Radius of the ball: 20 units.
pub const BALL_RADIUS: i64 = 20_000_000_000;

/// Horizontal speed of the ball when the game opens: 500 units per second.
pub const OPENING_SPEED_X: i64 = 500_000;

/// Vertical speed of the ball when the game opens: 150 units per second.
pub const OPENING_SPEED_Y: i64 = 150_000;

/// The state of a game: the paddle of each side and the ball.
#[derive(Clone, Copy, Debug)]
pub struct Game {
    left: Paddle,
    right: Paddle,
    ball: Ball,
}

impl Game {
    /// The paddle on the left.
    pub closed spec fn spec_left(&self) -> Paddle {
        self.left
    }

    /// The paddle on the right.
    pub closed spec fn spec_right(&self) -> Paddle {
        self.right
    }

    /// The ball.
    pub closed spec fn spec_ball(&self) -> Ball {
        self.ball
    }

    /// Each paddle guards the side it is named after.
    #[verifier::type_invariant]
    pub open spec fn wf(self) -> bool {
        self.left().side() == Side::Left && self.right().side() == Side::Right
    }

    /// A game about to open on `screen`: both paddles at their starting
    /// places, and the ball in the middle, on its way down to the right.
    pub fn new(screen: Screen) -> (game: Game)
        ensures
            game.wf(),
            game.left().rect() == Paddle::home(Side::Left, screen),
            game.right().rect() == Paddle::home(Side::Right, screen),
            game.ball().position() == screen.center(),
            game.ball().velocity() == (Vec2 { x: OPENING_SPEED_X, y: OPENING_SPEED_Y }),
            game.ball().radius() == BALL_RADIUS,
    {
        Game {
            left: Paddle::new(Side::Left, screen),
            right: Paddle::new(Side::Right, screen),
            ball: Ball::new(BALL_RADIUS, Vec2 { x: OPENING_SPEED_X, y: OPENING_SPEED_Y }, screen),
        }
    }

    /// A game made of the given parts, or nothing when a paddle is handed
    /// in on the wrong side.
    pub fn from_parts(left: Paddle, right: Paddle, ball: Ball) -> (game: Option<Game>)
        ensures
            game is Some <==> left.side() == Side::Left && right.side() == Side::Right,
            game matches Some(g) ==> g.left() == left && g.right() == right && g.ball() == ball
                && g.wf(),
    {
        match (left.side(), right.side()) {
            (Side::Left, Side::Right) => Some(Game { left, right, ball }),
            _ => None,
        }
    }

    /// The paddle on the left.
    #[verifier::when_used_as_spec(spec_left)]
    pub fn left(&self) -> (paddle: Paddle)
        ensures
            paddle == self.left(),
            paddle.side() == Side::Left,
    {
        proof {
            use_type_invariant(self);
        }
        self.left
    }

    /// The paddle on the right.
    #[verifier::when_used_as_spec(spec_right)]
    pub fn right(&self) -> (paddle: Paddle)
        ensures
            paddle == self.right(),
            paddle.side() == Side::Right,
    {
        proof {
            use_type_invariant(self);
        }
        self.right
    }

    /// The ball.
    #[verifier::when_used_as_spec(spec_ball)]
    pub fn ball(&self) -> (ball: Ball)
        ensures
            ball == self.ball(),
    {
        self.ball
    }

    /// Advances the game by one frame of `dt` ticks, given the two draws a
    /// serve would use. Both paddles move first, each by its own keys; the
    /// ball then meets the paddles where they now stand. All three advance
    /// by the same `dt`.
    pub fn update_with(
        &mut self,
        keys: Keys,
        screen: Screen,
        dt: i64,
        sign_draw: i64,
        speed_draw: i64,
    )
        ensures
            final(self).wf(),
            old(self).left().steps_to(final(self).left(), keys, screen, dt),
            old(self).right().steps_to(final(self).right(), keys, screen, dt),
            old(self).ball().steps_to_with(
                final(self).ball(),
                final(self).left(),
                final(self).right(),
                screen,
                dt,
                sign_draw,
                speed_draw,
            ),
    {
        proof {
            use_type_invariant(&*self);
        }
        let mut left: Paddle = self.left;
        let mut right: Paddle = self.right;
        let mut ball: Ball = self.ball;
        left.update(keys, screen, dt);
        right.update(keys, screen, dt);
        ball.update_with(left, right, screen, dt, sign_draw, speed_draw);
        *self = Game { left, right, ball };
    }

    /// Advances the game by one frame of `dt` ticks. Both paddles move
    /// first, each by its own keys; the ball then meets the paddles where
    /// they now stand, and is served anew as the generator decides if it had
    /// left the field. All three advance by the same `dt`.
    pub fn update(&mut self, keys: Keys, screen: Screen, dt: i64)
        ensures
            final(self).wf(),
            old(self).left().steps_to(final(self).left(), keys, screen, dt),
            old(self).right().steps_to(final(self).right(), keys, screen, dt),
            old(self).ball().steps_to(
                final(self).ball(),
                final(self).left(),
                final(self).right(),
                screen,
                dt,
            ),
    {
        proof {
            use_type_invariant(&*self);
        }
        let mut left: Paddle = self.left;
        let mut right: Paddle = self.right;
        let mut ball: Ball = self.ball;
        left.update(keys, screen, dt);
        right.update(keys, screen, dt);
        ball.update(left, right, screen, dt);
        *self = Game { left, right, ball };
    }

    /// The picture of the game, in painting order: a black background, the
    /// left paddle, the right paddle, and the ball on top.
    pub open spec fn picture(&self) -> Seq<Shape> {
        seq![Shape::Clear { color: Color::Black }, self.left().draw(), self.right().draw()]
            + self.ball().glyph()
    }

    /// How the game is painted.
    pub fn draw(&self) -> (shapes: Vec<Shape>)
        ensures
            shapes@ == self.picture(),
    {
        let mut shapes: Vec<Shape> = Vec::new();
        shapes.push(Shape::Clear { color: Color::Black });
        shapes.push(self.left.draw());
        shapes.push(self.right.draw());
        let mut glyph: Vec<Shape> = self.ball.draw();
        shapes.append(&mut glyph);
        assert(shapes@ =~= self.picture());
        shapes
    }
}

} // verus!
