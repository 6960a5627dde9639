//! The ball: how it bounces off paddles and edges, how it is served anew
//! once it has left the field, and how it moves.

use vstd::prelude::*;
use crate::geometry::{Extent, Vec2};
use crate::paddle::Paddle;
use crate::random::{gen_range, DRAW_LIMIT};
use crate::render::{Color, Shape, FRINGE_OFFSET};
use crate::screen::Screen;
use crate::units::{displace, displaced, magnitude, saturate, saturated};

verus! {

/// Horizontal speed of a freshly served ball: 400 units per second.
pub const SERVE_SPEED: i64 = 400_000;

/// Least vertical speed of a freshly served ball: 50 units per second.
pub const SERVE_FALL_MIN: i64 = 50_000;

/// Greatest vertical speed of a freshly served ball: 150 units per second.
pub const SERVE_FALL_MAX: i64 = 150_000;

/// A horizontal speed after a bounce off a paddle, before it is narrowed:
/// reversed, and 1.01 times as large, rounded up to a whole speed step so
/// that every bounce of a moving ball gains speed.
pub open spec fn sped_up(v: int) -> int {
    if v >= 0 {
        -((v * 101 + 99) / 100)
    } else {
        (-v * 101 + 99) / 100
    }
}

/// A horizontal speed after a bounce off a paddle.
pub open spec fn rebounded(v: i64) -> i64 {
    saturated(sped_up(v as int))
}

/// Reverses a horizontal speed and raises it by one hundredth, rounding the
/// gain up.
pub fn rebound(v: i64) -> (r: i64)
    ensures
        r == rebounded(v),
{
    if v >= 0 {
        let grown: i128 = ((v as i128) * 101 + 99) / 100;
        saturate(-grown)
    } else {
        let grown: i128 = (-(v as i128) * 101 + 99) / 100;
        saturate(grown)
    }
}

/// The velocity of a freshly served ball: sideways at [`SERVE_SPEED`], to
/// the right when `sign_draw` is zero or more and to the left otherwise, and
/// downward at `speed_draw`.
pub open spec fn served(sign_draw: i64, speed_draw: i64) -> Vec2 {
    Vec2 {
        x: if sign_draw >= 0 {
            SERVE_SPEED
        } else {
            (-SERVE_SPEED) as i64
        },
        y: speed_draw,
    }
}

/// Turns two draws into the velocity of a freshly served ball.
pub fn serve(sign_draw: i64, speed_draw: i64) -> (v: Vec2)
    ensures
        v == served(sign_draw, speed_draw),
{
    Vec2 {
        x: if sign_draw >= 0 {
            SERVE_SPEED
        } else {
            -SERVE_SPEED
        },
        y: speed_draw,
    }
}

/// Where a body at `from` is after `dt` ticks at `velocity`.
pub open spec fn drifted(from: Vec2, velocity: Vec2, dt: i64) -> Vec2 {
    Vec2 { x: displaced(from.x, velocity.x, dt), y: displaced(from.y, velocity.y, dt) }
}

/// The ball: a position, a velocity and a radius that never changes.
#[derive(Clone, Copy, Debug)]
pub struct Ball {
    pos: Vec2,
    vel: Vec2,
    radius: i64,
}

impl Ball {
    /// Where the center of the ball is.
    pub closed spec fn spec_position(&self) -> Vec2 {
        self.pos
    }

    /// How fast the ball moves, sideways and downward.
    pub closed spec fn spec_velocity(&self) -> Vec2 {
        self.vel
    }

    /// The radius of the ball.
    pub closed spec fn spec_radius(&self) -> i64 {
        self.radius
    }

    /// A ball in the middle of `screen`.
    pub fn new(radius: i64, velocity: Vec2, screen: Screen) -> (ball: Ball)
        ensures
            ball.position() == screen.center(),
            ball.velocity() == velocity,
            ball.radius() == radius,
    {
        Ball { pos: screen.center(), vel: velocity, radius }
    }

    /// A ball with its center at `position`.
    pub fn at(position: Vec2, velocity: Vec2, radius: i64) -> (ball: Ball)
        ensures
            ball.position() == position,
            ball.velocity() == velocity,
            ball.radius() == radius,
    {
        Ball { pos: position, vel: velocity, radius }
    }

    /// Where the center of the ball is.
    #[verifier::when_used_as_spec(spec_position)]
    pub fn position(&self) -> (position: Vec2)
        ensures
            position == self.position(),
    {
        self.pos
    }

    /// How fast the ball moves, sideways and downward.
    #[verifier::when_used_as_spec(spec_velocity)]
    pub fn velocity(&self) -> (velocity: Vec2)
        ensures
            velocity == self.velocity(),
    {
        self.vel
    }

    /// The radius of the ball.
    #[verifier::when_used_as_spec(spec_radius)]
    pub fn radius(&self) -> (radius: i64)
        ensures
            radius == self.radius(),
    {
        self.radius
    }

    /// The square that encloses the ball, each edge one radius from the center.
    pub open spec fn spec_bounding_square(&self) -> Extent {
        Extent {
            left: (self.position().x - self.radius()) as i128,
            right: (self.position().x + self.radius()) as i128,
            top: (self.position().y - self.radius()) as i128,
            bottom: (self.position().y + self.radius()) as i128,
        }
    }

    /// The square that encloses the ball: centered on it, two radii wide
    /// and high.
    #[verifier::when_used_as_spec(spec_bounding_square)]
    pub fn bounding_square(&self) -> (square: Extent)
        ensures
            square == self.bounding_square(),
            square.left == self.position().x - self.radius(),
            square.right == self.position().x + self.radius(),
            square.top == self.position().y - self.radius(),
            square.bottom == self.position().y + self.radius(),
    {
        Extent {
            left: self.pos.x as i128 - self.radius as i128,
            right: self.pos.x as i128 + self.radius as i128,
            top: self.pos.y as i128 - self.radius as i128,
            bottom: self.pos.y as i128 + self.radius as i128,
        }
    }

    /// Whether the square that encloses the ball overlaps the rectangle of
    /// `paddle`.
    pub open spec fn spec_check_intersect(&self, paddle: Paddle) -> bool {
        paddle.rect().extent().overlaps(self.bounding_square())
    }

    /// Whether the square that encloses the ball overlaps the rectangle of
    /// `paddle`. Touching edges and corners count.
    #[verifier::when_used_as_spec(spec_check_intersect)]
    pub fn check_intersect(&self, paddle: Paddle) -> (hit: bool)
        ensures
            hit == self.check_intersect(paddle),
    {
        paddle.rect().extent().overlaps(self.bounding_square())
    }

    /// The three discs that make up the picture of the ball, in painting
    /// order: a blue one a fringe to the right, a red one a fringe to the
    /// left, and a white one on the center, on top.
    pub open spec fn glyph(&self) -> Seq<Shape> {
        seq![
            Shape::Circle {
                center: Vec2 {
                    x: saturated(self.position().x + FRINGE_OFFSET),
                    y: self.position().y,
                },
                radius: self.radius(),
                color: Color::Blue,
            },
            Shape::Circle {
                center: Vec2 {
                    x: saturated(self.position().x - FRINGE_OFFSET),
                    y: self.position().y,
                },
                radius: self.radius(),
                color: Color::Red,
            },
            Shape::Circle { center: self.position(), radius: self.radius(), color: Color::White },
        ]
    }

    /// How the ball is painted: three discs of its radius, the outer two
    /// tinted and set off sideways by [`FRINGE_OFFSET`].
    pub fn draw(&self) -> (shapes: Vec<Shape>)
        ensures
            shapes@ == self.glyph(),
    {
        let right: i64 = saturate(self.pos.x as i128 + FRINGE_OFFSET as i128);
        let left: i64 = saturate(self.pos.x as i128 - FRINGE_OFFSET as i128);
        let mut shapes: Vec<Shape> = Vec::new();
        shapes.push(
            Shape::Circle {
                center: Vec2 { x: right, y: self.pos.y },
                radius: self.radius,
                color: Color::Blue,
            },
        );
        shapes.push(
            Shape::Circle {
                center: Vec2 { x: left, y: self.pos.y },
                radius: self.radius,
                color: Color::Red,
            },
        );
        shapes.push(Shape::Circle { center: self.pos, radius: self.radius, color: Color::White });
        assert(shapes@ =~= self.glyph());
        shapes
    }

    /// Whether the ball reaches past the bottom edge or the top edge of
    /// `screen`. A ball that only touches an edge does not.
    pub open spec fn spec_beyond_floor_or_ceiling(&self, screen: Screen) -> bool {
        self.position().y + self.radius() > screen.height() || self.position().y < self.radius()
    }

    /// Whether the ball reaches past the bottom edge or the top edge of
    /// `screen`.
    #[verifier::when_used_as_spec(spec_beyond_floor_or_ceiling)]
    pub fn beyond_floor_or_ceiling(&self, screen: Screen) -> (beyond: bool)
        ensures
            beyond == self.beyond_floor_or_ceiling(screen),
    {
        self.pos.y as i128 + self.radius as i128 > screen.height() as i128 || self.pos.y
            < self.radius
    }

    /// Whether the center of the ball lies left of the left edge or right of
    /// the right edge of `screen`.
    pub open spec fn spec_exited(&self, screen: Screen) -> bool {
        self.position().x < 0 || self.position().x > screen.width()
    }

    /// Whether the center of the ball has left `screen` sideways. A ball
    /// exactly on the left or right edge is still in play.
    #[verifier::when_used_as_spec(spec_exited)]
    pub fn exited(&self, screen: Screen) -> (out: bool)
        ensures
            out == self.exited(screen),
    {
        self.pos.x < 0 || self.pos.x > screen.width()
    }

    /// The velocity of a ball in play after the paddles and the edges have
    /// had their say. Each paddle the ball overlaps reverses and raises the
    /// horizontal speed once, the left paddle first; reaching past the floor
    /// or the ceiling reverses the vertical speed.
    pub open spec fn deflected(&self, left: Paddle, right: Paddle, screen: Screen) -> Vec2 {
        let off_left = if self.check_intersect(left) {
            rebounded(self.velocity().x)
        } else {
            self.velocity().x
        };
        Vec2 {
            x: if self.check_intersect(right) {
                rebounded(off_left)
            } else {
                off_left
            },
            y: if self.beyond_floor_or_ceiling(screen) {
                saturated(-self.velocity().y)
            } else {
                self.velocity().y
            },
        }
    }

    /// The velocity after one frame: that of a fresh serve if the ball had
    /// left the field, the deflected one otherwise.
    pub open spec fn velocity_after(
        &self,
        left: Paddle,
        right: Paddle,
        screen: Screen,
        sign_draw: i64,
        speed_draw: i64,
    ) -> Vec2 {
        if self.exited(screen) {
            served(sign_draw, speed_draw)
        } else {
            self.deflected(left, right, screen)
        }
    }

    /// The position after one frame of `dt` ticks: one frame's travel at
    /// the new velocity, from the middle of the field if the ball had left
    /// it and from where the ball was otherwise.
    pub open spec fn position_after(
        &self,
        left: Paddle,
        right: Paddle,
        screen: Screen,
        dt: i64,
        sign_draw: i64,
        speed_draw: i64,
    ) -> Vec2 {
        drifted(
            if self.exited(screen) {
                screen.center()
            } else {
                self.position()
            },
            self.velocity_after(left, right, screen, sign_draw, speed_draw),
            dt,
        )
    }

    /// Whether `next` is this ball one frame of `dt` ticks later, given the
    /// two draws a serve would use.
    pub open spec fn steps_to_with(
        &self,
        next: Ball,
        left: Paddle,
        right: Paddle,
        screen: Screen,
        dt: i64,
        sign_draw: i64,
        speed_draw: i64,
    ) -> bool {
        &&& next.radius() == self.radius()
        &&& next.velocity() == self.velocity_after(left, right, screen, sign_draw, speed_draw)
        &&& next.position() == self.position_after(
            left,
            right,
            screen,
            dt,
            sign_draw,
            speed_draw,
        )
    }

    /// Whether `next` can be this ball one frame of `dt` ticks later,
    /// whatever the generator draws. A ball in play has one successor. A ball
    /// that had left the field is served from the middle at
    /// [`SERVE_SPEED`] to either side and at any downward speed from
    /// [`SERVE_FALL_MIN`] to [`SERVE_FALL_MAX`].
    pub open spec fn steps_to(
        &self,
        next: Ball,
        left: Paddle,
        right: Paddle,
        screen: Screen,
        dt: i64,
    ) -> bool {
        &&& next.radius() == self.radius()
        &&& if self.exited(screen) {
            &&& magnitude(next.velocity().x as int) == SERVE_SPEED
            &&& SERVE_FALL_MIN <= next.velocity().y <= SERVE_FALL_MAX
            &&& next.position() == drifted(screen.center(), next.velocity(), dt)
        } else {
            &&& next.velocity() == self.deflected(left, right, screen)
            &&& next.position() == drifted(self.position(), next.velocity(), dt)
        }
    }

    /// Lets the paddles and the edges turn the ball; its position is not
    /// touched.
    fn deflect(&mut self, left: Paddle, right: Paddle, screen: Screen)
        ensures
            final(self).position() == old(self).position(),
            final(self).radius() == old(self).radius(),
            final(self).velocity() == old(self).deflected(left, right, screen),
    {
        if self.check_intersect(left) {
            self.vel.x = rebound(self.vel.x);
        }
        if self.check_intersect(right) {
            self.vel.x = rebound(self.vel.x);
        }
        if self.beyond_floor_or_ceiling(screen) {
            self.vel.y = saturate(-(self.vel.y as i128));
        }
    }

    /// Moves the ball for `dt` ticks at its velocity.
    fn drift(&mut self, dt: i64)
        ensures
            final(self).position() == drifted(old(self).position(), old(self).velocity(), dt),
            final(self).velocity() == old(self).velocity(),
            final(self).radius() == old(self).radius(),
    {
        self.pos.x = displace(self.pos.x, self.vel.x, dt);
        self.pos.y = displace(self.pos.y, self.vel.y, dt);
    }

    /// Advances the ball by one frame of `dt` ticks, given the two draws a
    /// serve would use. The tests against the paddles, the edges and the
    /// sides of the field all look at the position the ball had when the
    /// frame began; the ball moves last. The draws matter only if the ball
    /// had left the field.
    pub fn update_with(
        &mut self,
        left: Paddle,
        right: Paddle,
        screen: Screen,
        dt: i64,
        sign_draw: i64,
        speed_draw: i64,
    )
        ensures
            old(self).steps_to_with(*final(self), left, right, screen, dt, sign_draw, speed_draw),
    {
        self.deflect(left, right, screen);
        if self.exited(screen) {
            self.pos = screen.center();
            self.vel = serve(sign_draw, speed_draw);
        }
        self.drift(dt);
    }

    /// Advances the ball by one frame of `dt` ticks. A ball in play is
    /// turned by the paddles and the edges and then moves; a ball that had
    /// left the field sideways is served anew from the middle, to the left
    /// or to the right and at a downward speed as the generator decides, and
    /// then moves.
    pub fn update(&mut self, left: Paddle, right: Paddle, screen: Screen, dt: i64)
        ensures
            old(self).steps_to(*final(self), left, right, screen, dt),
    {
        if self.exited(screen) {
            let sign_draw: i64 = gen_range(-DRAW_LIMIT, DRAW_LIMIT);
            let speed_draw: i64 = gen_range(SERVE_FALL_MIN, SERVE_FALL_MAX);
            self.update_with(left, right, screen, dt, sign_draw, speed_draw);
        } else {
            // A ball in play looks at no draw.
            self.update_with(left, right, screen, dt, 0, 0);
        }
    }
}

/// A frame that given draws produce is a frame the generator can produce,
/// as long as the ball is in play or the speed draw lies from
/// [`SERVE_FALL_MIN`] to [`SERVE_FALL_MAX`].
pub proof fn step_with_draws_is_a_step(
    ball: Ball,
    next: Ball,
    left: Paddle,
    right: Paddle,
    screen: Screen,
    dt: i64,
    sign_draw: i64,
    speed_draw: i64,
)
    requires
        ball.steps_to_with(next, left, right, screen, dt, sign_draw, speed_draw),
        ball.exited(screen) ==> SERVE_FALL_MIN <= speed_draw <= SERVE_FALL_MAX,
    ensures
        ball.steps_to(next, left, right, screen, dt),
{
}

/// A frame the generator can produce is the frame that some pair of draws
/// produces, the speed draw taken from [`SERVE_FALL_MIN`] to
/// [`SERVE_FALL_MAX`].
pub proof fn step_is_step_with_some_draws(
    ball: Ball,
    next: Ball,
    left: Paddle,
    right: Paddle,
    screen: Screen,
    dt: i64,
)
    requires
        ball.steps_to(next, left, right, screen, dt),
    ensures
        exists|sign_draw: i64, speed_draw: i64|
            SERVE_FALL_MIN <= speed_draw <= SERVE_FALL_MAX && #[trigger] ball.steps_to_with(
                next,
                left,
                right,
                screen,
                dt,
                sign_draw,
                speed_draw,
            ),
{
    if ball.exited(screen) {
        assert(ball.steps_to_with(
            next,
            left,
            right,
            screen,
            dt,
            next.velocity().x,
            next.velocity().y,
        ));
    } else {
        assert(ball.steps_to_with(next, left, right, screen, dt, 0, SERVE_FALL_MIN));
    }
}

/// A moving ball in play that overlaps exactly one paddle ends the frame
/// with its horizontal velocity reversed and strictly larger in magnitude:
/// 1.01 times as large, rounded up to a whole speed step. Stated for speeds
/// whose raised value is representable.
pub proof fn paddle_hit_reverses_and_speeds_up(
    ball: Ball,
    next: Ball,
    left: Paddle,
    right: Paddle,
    screen: Screen,
    dt: i64,
)
    requires
        ball.steps_to(next, left, right, screen, dt),
        ball.check_intersect(left) != ball.check_intersect(right),
        !ball.exited(screen),
        ball.velocity().x != 0,
        i64::MIN <= sped_up(ball.velocity().x as int) <= i64::MAX,
    ensures
        ball.velocity().x > 0 <==> next.velocity().x < 0,
        magnitude(next.velocity().x as int) > magnitude(ball.velocity().x as int),
        101 * magnitude(ball.velocity().x as int) <= 100 * magnitude(next.velocity().x as int)
            < 101 * magnitude(ball.velocity().x as int) + 100,
{
}

/// A ball that has left the field sideways is served anew in the next
/// frame: its horizontal speed is exactly [`SERVE_SPEED`] one way or the
/// other, its vertical speed lies from [`SERVE_FALL_MIN`] to
/// [`SERVE_FALL_MAX`], and it stands one frame's travel from the middle of
/// the field, so exactly in the middle when the frame takes no time.
pub proof fn exit_serves_from_center(
    ball: Ball,
    next: Ball,
    left: Paddle,
    right: Paddle,
    screen: Screen,
    dt: i64,
)
    requires
        ball.steps_to(next, left, right, screen, dt),
        ball.exited(screen),
    ensures
        next.velocity().x == SERVE_SPEED || next.velocity().x == -SERVE_SPEED,
        SERVE_FALL_MIN <= next.velocity().y <= SERVE_FALL_MAX,
        next.position() == drifted(screen.center(), next.velocity(), dt),
        dt == 0 ==> next.position() == screen.center(),
{
    assert(next.velocity().x * 0 == 0 && next.velocity().y * 0 == 0);
}

} // verus!
