//! The paddles: where they start and how the keys move them.

use vstd::prelude::*;
use crate::geometry::Rect;
use crate::input::{direction, spec_direction, Key, Keys};
use crate::render::{Color, Shape};
use crate::screen::Screen;
use crate::units::{saturate, saturated};

verus! {

/// Width of every paddle: 20 units.
pub const PADDLE_WIDTH: i64 = 20_000_000_000;

/// Height of every paddle: 300 units.
pub const PADDLE_HEIGHT: i64 = 300_000_000_000;

/// Speed of a steered paddle: 600 units per second.
pub const PADDLE_SPEED: i64 = 600_000;

/// The side of the field a paddle guards.
#[derive(Clone, Copy, Debug, PartialEq, Eq, Structural)]
pub enum Side {
    Left,
    Right,
}

impl Side {
    /// The key that sends this side's paddle up.
    pub open spec fn spec_up_key(&self) -> Key {
        match self {
            Side::Left => Key::W,
            Side::Right => Key::Up,
        }
    }

    /// The key that sends this side's paddle up: `W` on the left, the up
    /// arrow on the right.
    #[verifier::when_used_as_spec(spec_up_key)]
    pub fn up_key(&self) -> (key: Key)
        ensures
            key == self.up_key(),
    {
        match self {
            Side::Left => Key::W,
            Side::Right => Key::Up,
        }
    }

    /// The key that sends this side's paddle down.
    pub open spec fn spec_down_key(&self) -> Key {
        match self {
            Side::Left => Key::S,
            Side::Right => Key::Down,
        }
    }

    /// The key that sends this side's paddle down: `S` on the left, the down
    /// arrow on the right.
    #[verifier::when_used_as_spec(spec_down_key)]
    pub fn down_key(&self) -> (key: Key)
        ensures
            key == self.down_key(),
    {
        match self {
            Side::Left => Key::S,
            Side::Right => Key::Down,
        }
    }

    /// How far from the left edge this side's paddle stands, in hundredths
    /// of the field's width.
    pub open spec fn spec_inset_percent(&self) -> i64 {
        match self {
            Side::Left => 5,
            Side::Right => 95,
        }
    }

    /// How far from the left edge this side's paddle stands, in hundredths
    /// of the field's width.
    #[verifier::when_used_as_spec(spec_inset_percent)]
    pub fn inset_percent(&self) -> (percent: i64)
        ensures
            percent == self.inset_percent(),
    {
        match self {
            Side::Left => 5,
            Side::Right => 95,
        }
    }
}

/// A paddle: a rectangle of fixed size that only ever moves vertically.
#[derive(Clone, Copy, Debug)]
pub struct Paddle {
    rect: Rect,
    side: Side,
}

impl Paddle {
    /// The rectangle the paddle covers.
    pub closed spec fn spec_rect(&self) -> Rect {
        self.rect
    }

    /// The side the paddle guards.
    pub closed spec fn spec_side(&self) -> Side {
        self.side
    }

    /// Every paddle has the one fixed size.
    #[verifier::type_invariant]
    pub open spec fn wf(self) -> bool {
        self.rect().w == PADDLE_WIDTH && self.rect().h == PADDLE_HEIGHT
    }

    /// Where a paddle of `side` starts on `screen`: inset from the left edge
    /// by its side's share of the width, rounded down, with its top edge half
    /// a paddle above the middle of the field.
    pub open spec fn home(side: Side, screen: Screen) -> Rect {
        Rect {
            x: (screen.width() * side.inset_percent() / 100) as i64,
            y: (screen.height() / 2 - PADDLE_HEIGHT / 2) as i64,
            w: PADDLE_WIDTH,
            h: PADDLE_HEIGHT,
        }
    }

    /// A paddle of `side` at its starting place on `screen`.
    pub fn new(side: Side, screen: Screen) -> (paddle: Paddle)
        ensures
            paddle.side() == side,
            paddle.rect() == Self::home(side, screen),
            paddle.wf(),
    {
        let width: i64 = screen.width();
        let height: i64 = screen.height();
        let percent: i64 = side.inset_percent();
        assert(0 <= width * percent <= width * 100) by (nonlinear_arith)
            requires
                0 <= width,
                0 <= percent <= 100,
        ;
        let inset: i128 = (width as i128) * (percent as i128) / 100;
        Paddle {
            rect: Rect {
                x: inset as i64,
                y: height / 2 - PADDLE_HEIGHT / 2,
                w: PADDLE_WIDTH,
                h: PADDLE_HEIGHT,
            },
            side,
        }
    }

    /// A paddle of `side` with its top-left corner at (`x`, `y`).
    pub fn at(side: Side, x: i64, y: i64) -> (paddle: Paddle)
        ensures
            paddle.side() == side,
            paddle.rect() == (Rect { x, y, w: PADDLE_WIDTH, h: PADDLE_HEIGHT }),
            paddle.wf(),
    {
        Paddle { rect: Rect { x, y, w: PADDLE_WIDTH, h: PADDLE_HEIGHT }, side }
    }

    /// The rectangle the paddle covers.
    #[verifier::when_used_as_spec(spec_rect)]
    pub fn rect(&self) -> (rect: Rect)
        ensures
            rect == self.rect(),
            rect.w == PADDLE_WIDTH,
            rect.h == PADDLE_HEIGHT,
    {
        proof {
            use_type_invariant(self);
        }
        self.rect
    }

    /// The side the paddle guards.
    #[verifier::when_used_as_spec(spec_side)]
    pub fn side(&self) -> (side: Side)
        ensures
            side == self.side(),
    {
        self.side
    }

    /// How the paddle is painted.
    pub open spec fn spec_draw(&self) -> Shape {
        Shape::Rectangle { rect: self.rect(), color: Color::White }
    }

    /// How the paddle is painted: its rectangle, filled white.
    #[verifier::when_used_as_spec(spec_draw)]
    pub fn draw(&self) -> (shape: Shape)
        ensures
            shape == self.draw(),
    {
        Shape::Rectangle { rect: self.rect, color: Color::White }
    }

    /// The direction `keys` steer this paddle in: its own two keys decide,
    /// the other side's are not looked at.
    pub open spec fn pull(&self, keys: Keys) -> int {
        spec_direction(keys.is_down(self.side().up_key()), keys.is_down(self.side().down_key()))
    }

    /// The edge policy: a paddle that left the field through the top comes
    /// back at the bottom edge, and one that left through the bottom comes
    /// back at the top edge.
    pub open spec fn wrapped(y: i64, screen: Screen) -> i64 {
        if y < 0 {
            screen.height()
        } else if y > screen.height() {
            0
        } else {
            y
        }
    }

    /// The top edge of the paddle after one frame of `dt` ticks under `keys`.
    pub open spec fn y_after(&self, keys: Keys, screen: Screen, dt: i64) -> i64 {
        Self::wrapped(saturated(self.rect().y + self.pull(keys) * dt * PADDLE_SPEED), screen)
    }

    /// Whether `next` is this paddle one frame of `dt` ticks later: the same
    /// side, size and horizontal place, and the top edge where the keys and
    /// the edge policy put it.
    pub open spec fn steps_to(&self, next: Paddle, keys: Keys, screen: Screen, dt: i64) -> bool {
        &&& next.side() == self.side()
        &&& next.rect() == Rect { y: self.y_after(keys, screen, dt), ..self.rect() }
    }

    /// Advances the paddle by one frame of `dt` ticks: it moves up or down
    /// at [`PADDLE_SPEED`] as its keys say, then wraps around at the edges of
    /// `screen`. Its side, its size and its horizontal place never change.
    pub fn update(&mut self, keys: Keys, screen: Screen, dt: i64)
        ensures
            old(self).steps_to(*final(self), keys, screen, dt),
            0 <= final(self).rect().y <= screen.height(),
            final(self).wf(),
    {
        proof {
            use_type_invariant(&*self);
        }
        let up: bool = keys.is_down(self.side.up_key());
        let down: bool = keys.is_down(self.side.down_key());
        let pull: i8 = direction(up, down);
        let stride: i128 = (dt as i128) * (PADDLE_SPEED as i128);
        let travel: i128 = if pull < 0 {
            -stride
        } else if pull > 0 {
            stride
        } else {
            0
        };
        assert(travel == pull * dt * PADDLE_SPEED) by (nonlinear_arith)
            requires
                stride == dt * PADDLE_SPEED,
                pull < 0 ==> travel == -stride,
                pull > 0 ==> travel == stride,
                pull == 0 ==> travel == 0,
                -1 <= pull <= 1,
        ;
        let moved: i64 = saturate(self.rect.y as i128 + travel);
        let height: i64 = screen.height();
        if moved < 0 {
            self.rect.y = height;
        } else if moved > height {
            self.rect.y = 0;
        } else {
            self.rect.y = moved;
        }
    }
}

/// After any frame the paddle's top edge lies on the field, bounds included.
pub proof fn paddle_stays_on_field(
    paddle: Paddle,
    next: Paddle,
    keys: Keys,
    screen: Screen,
    dt: i64,
)
    requires
        screen.wf(),
        paddle.steps_to(next, keys, screen, dt),
    ensures
        0 <= next.rect().y <= screen.height(),
{
}

/// A paddle on the field whose two keys are both held or both released
/// stays exactly where it is.
pub proof fn idle_paddle_rests(paddle: Paddle, next: Paddle, keys: Keys, screen: Screen, dt: i64)
    requires
        screen.wf(),
        paddle.steps_to(next, keys, screen, dt),
        0 <= paddle.rect().y <= screen.height(),
        keys.is_down(paddle.side().up_key()) == keys.is_down(paddle.side().down_key()),
    ensures
        next.rect() == paddle.rect(),
{
    assert(paddle.pull(keys) == 0);
    assert(paddle.pull(keys) * dt * PADDLE_SPEED == 0) by (nonlinear_arith)
        requires
            paddle.pull(keys) == 0,
    ;
}

} // verus!
