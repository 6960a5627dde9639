use pong::geometry::Rect;
use pong::input::{direction, Key, Keys};
use pong::paddle::{Paddle, Side, PADDLE_HEIGHT, PADDLE_SPEED, PADDLE_WIDTH};
use pong::render::{Color, Shape};
use pong::screen::Screen;
use pong::units::{SPEED_UNIT, TICKS_PER_SECOND, UNIT};

fn field(width: i64, height: i64) -> Screen {
    Screen::new(width * UNIT, height * UNIT).unwrap()
}

fn held(key: Key) -> Keys {
    let mut keys = Keys::none();
    match key {
        Key::W => keys.w = true,
        Key::S => keys.s = true,
        Key::Up => keys.up = true,
        Key::Down => keys.down = true,
    }
    keys
}

const TENTH_OF_A_SECOND: i64 = TICKS_PER_SECOND / 10;

#[test]
fn paddle_constants_are_in_scale() {
    assert_eq!(PADDLE_WIDTH, 20 * UNIT);
    assert_eq!(PADDLE_HEIGHT, 300 * UNIT);
    assert_eq!(PADDLE_SPEED, 600 * SPEED_UNIT);
    assert_eq!(UNIT, SPEED_UNIT * TICKS_PER_SECOND);
}

#[test]
fn left_paddle_starts_five_percent_in_and_centered() {
    let paddle = Paddle::new(Side::Left, field(800, 600));
    assert_eq!(paddle.side(), Side::Left);
    assert_eq!(
        paddle.rect(),
        Rect { x: 40 * UNIT, y: 150 * UNIT, w: 20 * UNIT, h: 300 * UNIT }
    );
}

#[test]
fn right_paddle_starts_ninety_five_percent_in_and_centered() {
    let paddle = Paddle::new(Side::Right, field(800, 600));
    assert_eq!(paddle.side(), Side::Right);
    assert_eq!(
        paddle.rect(),
        Rect { x: 760 * UNIT, y: 150 * UNIT, w: 20 * UNIT, h: 300 * UNIT }
    );
}

#[test]
fn starting_place_rounds_down() {
    let screen = Screen::new(99, 7).unwrap();
    assert_eq!(Paddle::new(Side::Left, screen).rect().x, 4);
    assert_eq!(Paddle::new(Side::Right, screen).rect().x, 94);
    assert_eq!(Paddle::new(Side::Left, screen).rect().y, 3 - 150 * UNIT);
}

#[test]
fn starting_place_on_the_widest_field() {
    let screen = Screen::new(i64::MAX, i64::MAX).unwrap();
    assert_eq!(Paddle::new(Side::Left, screen).rect().x, 461168601842738790);
    assert_eq!(Paddle::new(Side::Right, screen).rect().x, 8762203435012037016);
    assert_eq!(
        Paddle::new(Side::Right, screen).rect().y,
        i64::MAX / 2 - 150 * UNIT
    );
}

#[test]
fn paddle_on_a_short_field_starts_above_the_top() {
    let paddle = Paddle::new(Side::Left, field(800, 200));
    assert_eq!(paddle.rect().y, -50 * UNIT);
}

#[test]
fn placed_paddle_has_the_fixed_size() {
    let paddle = Paddle::at(Side::Right, 7, -9);
    assert_eq!(paddle.side(), Side::Right);
    assert_eq!(paddle.rect(), Rect { x: 7, y: -9, w: PADDLE_WIDTH, h: PADDLE_HEIGHT });
}

#[test]
fn sides_listen_to_their_own_keys() {
    assert_eq!(Side::Left.up_key(), Key::W);
    assert_eq!(Side::Left.down_key(), Key::S);
    assert_eq!(Side::Right.up_key(), Key::Up);
    assert_eq!(Side::Right.down_key(), Key::Down);
    assert_eq!(Side::Left.inset_percent(), 5);
    assert_eq!(Side::Right.inset_percent(), 95);
}

#[test]
fn direction_of_two_opposed_keys() {
    assert_eq!(direction(true, false), -1);
    assert_eq!(direction(false, true), 1);
    assert_eq!(direction(false, false), 0);
    assert_eq!(direction(true, true), 0);
}

#[test]
fn keys_report_what_is_held() {
    let keys = Keys { w: true, s: false, up: false, down: true };
    assert!(keys.is_down(Key::W));
    assert!(!keys.is_down(Key::S));
    assert!(!keys.is_down(Key::Up));
    assert!(keys.is_down(Key::Down));
    let none = Keys::none();
    assert_eq!(none, Keys { w: false, s: false, up: false, down: false });
}

#[test]
fn left_paddle_with_up_held_for_a_tenth_of_a_second_rises_sixty_units() {
    let screen = field(800, 600);
    let mut paddle = Paddle::new(Side::Left, screen);
    let before = paddle.rect();
    paddle.update(held(Key::W), screen, TENTH_OF_A_SECOND);
    assert_eq!(paddle.rect().y, before.y - 60 * UNIT);
    assert_eq!(paddle.rect().y, 90 * UNIT);
    assert_eq!(paddle.rect().x, before.x);
    assert_eq!(paddle.rect().w, before.w);
    assert_eq!(paddle.rect().h, before.h);
    assert_eq!(paddle.side(), Side::Left);
}

#[test]
fn left_paddle_with_down_held_sinks() {
    let screen = field(800, 600);
    let mut paddle = Paddle::new(Side::Left, screen);
    paddle.update(held(Key::S), screen, TENTH_OF_A_SECOND);
    assert_eq!(paddle.rect().y, 210 * UNIT);
}

#[test]
fn right_paddle_follows_the_arrows() {
    let screen = field(800, 600);
    let mut paddle = Paddle::new(Side::Right, screen);
    paddle.update(held(Key::Up), screen, TENTH_OF_A_SECOND);
    assert_eq!(paddle.rect().y, 90 * UNIT);
    paddle.update(held(Key::Down), screen, 2 * TENTH_OF_A_SECOND);
    assert_eq!(paddle.rect().y, 210 * UNIT);
    assert_eq!(paddle.rect().x, 760 * UNIT);
}

#[test]
fn paddles_ignore_the_other_sides_keys() {
    let screen = field(800, 600);
    let mut left = Paddle::new(Side::Left, screen);
    left.update(held(Key::Up), screen, TENTH_OF_A_SECOND);
    left.update(held(Key::Down), screen, TENTH_OF_A_SECOND);
    assert_eq!(left.rect().y, 150 * UNIT);
    let mut right = Paddle::new(Side::Right, screen);
    right.update(held(Key::W), screen, TENTH_OF_A_SECOND);
    right.update(held(Key::S), screen, TENTH_OF_A_SECOND);
    assert_eq!(right.rect().y, 150 * UNIT);
}

#[test]
fn paddle_with_no_key_held_rests() {
    let screen = field(800, 600);
    let mut paddle = Paddle::new(Side::Left, screen);
    paddle.update(Keys::none(), screen, TENTH_OF_A_SECOND);
    assert_eq!(paddle.rect(), Paddle::new(Side::Left, screen).rect());
}

#[test]
fn paddle_with_both_keys_held_rests() {
    let screen = field(800, 600);
    let both = Keys { w: true, s: true, up: true, down: true };
    let mut left = Paddle::new(Side::Left, screen);
    left.update(both, screen, TENTH_OF_A_SECOND);
    assert_eq!(left.rect().y, 150 * UNIT);
    let mut right = Paddle::new(Side::Right, screen);
    right.update(both, screen, i64::MAX);
    assert_eq!(right.rect().y, 150 * UNIT);
}

#[test]
fn resting_paddle_on_either_edge_stays_there() {
    let screen = field(800, 600);
    let mut top = Paddle::at(Side::Left, 0, 0);
    top.update(Keys::none(), screen, TENTH_OF_A_SECOND);
    assert_eq!(top.rect().y, 0);
    let mut bottom = Paddle::at(Side::Left, 0, 600 * UNIT);
    bottom.update(Keys::none(), screen, TENTH_OF_A_SECOND);
    assert_eq!(bottom.rect().y, 600 * UNIT);
}

#[test]
fn paddle_reaching_the_top_edge_exactly_stays_on_it() {
    let screen = field(800, 600);
    let mut paddle = Paddle::at(Side::Left, 40 * UNIT, 60 * UNIT);
    paddle.update(held(Key::W), screen, TENTH_OF_A_SECOND);
    assert_eq!(paddle.rect().y, 0);
}

#[test]
fn paddle_crossing_the_top_edge_comes_back_at_the_bottom() {
    let screen = field(800, 600);
    let mut paddle = Paddle::at(Side::Left, 40 * UNIT, 60 * UNIT);
    paddle.update(held(Key::W), screen, TENTH_OF_A_SECOND + 1);
    assert_eq!(paddle.rect().y, 600 * UNIT);
    assert_eq!(paddle.rect().x, 40 * UNIT);
}

#[test]
fn paddle_reaching_the_bottom_edge_exactly_stays_on_it() {
    let screen = field(800, 600);
    let mut paddle = Paddle::at(Side::Right, 760 * UNIT, 540 * UNIT);
    paddle.update(held(Key::Down), screen, TENTH_OF_A_SECOND);
    assert_eq!(paddle.rect().y, 600 * UNIT);
}

#[test]
fn paddle_crossing_the_bottom_edge_comes_back_at_the_top() {
    let screen = field(800, 600);
    let mut paddle = Paddle::at(Side::Right, 760 * UNIT, 540 * UNIT);
    paddle.update(held(Key::Down), screen, TENTH_OF_A_SECOND + 1);
    assert_eq!(paddle.rect().y, 0);
}

#[test]
fn resting_paddle_above_the_top_is_wrapped_to_the_bottom() {
    let screen = field(800, 200);
    let mut paddle = Paddle::new(Side::Left, screen);
    paddle.update(Keys::none(), screen, TENTH_OF_A_SECOND);
    assert_eq!(paddle.rect().y, 200 * UNIT);
}

#[test]
fn resting_paddle_below_a_shrunken_field_is_wrapped_to_the_top() {
    let mut paddle = Paddle::new(Side::Left, field(800, 600));
    paddle.update(Keys::none(), field(800, 100), TENTH_OF_A_SECOND);
    assert_eq!(paddle.rect().y, 0);
}

#[test]
fn paddle_moves_backward_when_time_runs_backward() {
    let screen = field(800, 600);
    let mut paddle = Paddle::new(Side::Left, screen);
    paddle.update(held(Key::W), screen, -TENTH_OF_A_SECOND);
    assert_eq!(paddle.rect().y, 210 * UNIT);
}

#[test]
fn paddle_travel_beyond_the_number_range_still_wraps() {
    let screen = field(800, 600);
    let mut down = Paddle::new(Side::Left, screen);
    down.update(held(Key::S), screen, i64::MAX);
    assert_eq!(down.rect().y, 0);
    let mut up = Paddle::new(Side::Left, screen);
    up.update(held(Key::W), screen, i64::MAX);
    assert_eq!(up.rect().y, 600 * UNIT);
    let mut back = Paddle::new(Side::Right, screen);
    back.update(held(Key::Up), screen, i64::MIN);
    assert_eq!(back.rect().y, 0);
}

#[test]
fn paddle_stays_on_the_field_over_many_frames() {
    let screen = field(800, 600);
    let mut paddle = Paddle::new(Side::Right, screen);
    let mut frame: i64 = 0;
    while frame < 500 {
        let keys = if frame % 7 < 4 { held(Key::Up) } else { held(Key::Down) };
        paddle.update(keys, screen, 16_667 + frame * 1_000);
        assert!(0 <= paddle.rect().y && paddle.rect().y <= screen.height());
        assert_eq!(paddle.rect().x, 760 * UNIT);
        frame += 1;
    }
}

#[test]
fn paddle_on_an_empty_field_sits_at_zero() {
    let screen = Screen::new(0, 0).unwrap();
    let mut paddle = Paddle::new(Side::Left, screen);
    assert_eq!(paddle.rect().x, 0);
    paddle.update(held(Key::S), screen, 1);
    assert_eq!(paddle.rect().y, 0);
    paddle.update(held(Key::W), screen, 1);
    assert_eq!(paddle.rect().y, 0);
}

#[test]
fn paddle_is_painted_as_a_white_rectangle() {
    let paddle = Paddle::at(Side::Left, 3, 4);
    assert_eq!(
        paddle.draw(),
        Shape::Rectangle {
            rect: Rect { x: 3, y: 4, w: PADDLE_WIDTH, h: PADDLE_HEIGHT },
            color: Color::White
        }
    );
}
