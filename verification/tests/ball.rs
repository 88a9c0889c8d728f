use pong_core::ball::{Ball, TickEvents, BALL_RADIUS, BALL_SIZE};
use pong_core::fixed::Fixed;
use pong_core::geometry::{within, Vec2, REACH};
use pong_core::paddle::{Paddle, LEFT, RIGHT};

fn at(x: i32, y: i32) -> Vec2 {
    Vec2::new(Fixed::from_int(x).unwrap(), Fixed::from_int(y).unwrap())
}

fn paddles() -> (Paddle<LEFT>, Paddle<RIGHT>) {
    (Paddle::new(at(8, 8), 3), Paddle::new(at(216, 8), 3))
}

const QUIET: TickEvents = TickEvents {
    hit_left: false,
    hit_right: false,
    hit_wall: false,
    missed_left: false,
    missed_right: false,
};

#[test]
fn ball_constants() {
    assert_eq!(BALL_SIZE, 16);
    assert_eq!(BALL_RADIUS, 8);
    assert_eq!(REACH, 512 * 256);
}

#[test]
fn reset_puts_the_ball_at_the_start() {
    let mut ball = Ball::new(at(3, 4), at(-1, -1));
    ball.reset();
    assert_eq!(ball.pos, at(50, 50));
    assert_eq!(ball.velocity, Vec2::from_raw(512, 128));
}

#[test]
fn free_flight_moves_by_the_velocity() {
    let (mut a, mut b) = paddles();
    let mut ball = Ball::new(at(50, 50), Vec2::from_raw(512, 128));
    let events = ball.update(&mut a, &mut b);
    assert_eq!(events, QUIET);
    assert_eq!(ball.pos, Vec2::from_raw(52 * 256, 50 * 256 + 128));
    assert_eq!(ball.velocity, Vec2::from_raw(512, 128));
    assert_eq!((a.health, b.health), (3, 3));
    assert_eq!((a.pos, b.pos), (at(8, 8), at(216, 8)));
}

#[test]
fn left_edge_miss_costs_the_left_paddle() {
    let (mut a, mut b) = paddles();
    let mut ball = Ball::new(at(1, 80), at(-2, 0));
    let events = ball.update(&mut a, &mut b);
    assert_eq!(events, TickEvents { missed_left: true, ..QUIET });
    assert_eq!(ball.pos, at(50, 50));
    assert_eq!(ball.velocity, Vec2::from_raw(512, 128));
    assert_eq!((a.health, b.health), (2, 3));
}

#[test]
fn right_edge_miss_costs_the_right_paddle() {
    let (mut a, mut b) = paddles();
    let mut ball = Ball::new(at(223, 80), at(2, 0));
    let events = ball.update(&mut a, &mut b);
    assert_eq!(events, TickEvents { missed_right: true, ..QUIET });
    assert_eq!(ball.pos, at(50, 50));
    assert_eq!(ball.velocity, Vec2::from_raw(512, 128));
    assert_eq!((a.health, b.health), (3, 2));
}

#[test]
fn the_edges_themselves_are_misses() {
    let (mut a, mut b) = paddles();
    let mut ball = Ball::new(at(2, 80), at(-2, 0));
    assert!(ball.update(&mut a, &mut b).missed_left);
    let mut ball = Ball::new(at(222, 80), at(2, 0));
    assert!(ball.update(&mut a, &mut b).missed_right);
    let mut ball = Ball::new(Vec2::from_raw(1, 80 * 256), at(0, 0));
    assert_eq!(ball.update(&mut a, &mut b), QUIET);
    let mut ball = Ball::new(Vec2::from_raw(224 * 256 - 1, 80 * 256), at(0, 0));
    assert_eq!(ball.update(&mut a, &mut b), QUIET);
    assert_eq!((a.health, b.health), (2, 2));
}

#[test]
fn a_miss_without_health_leaves_none() {
    let mut a = Paddle::<LEFT>::new(at(8, 8), 0);
    let mut b = Paddle::<RIGHT>::new(at(216, 8), 0);
    let mut ball = Ball::new(at(1, 80), at(-2, 0));
    ball.update(&mut a, &mut b);
    let mut ball = Ball::new(at(223, 80), at(2, 0));
    ball.update(&mut a, &mut b);
    assert_eq!((a.health, b.health), (0, 0));
}

#[test]
fn left_paddle_sends_the_ball_right() {
    let (mut a, mut b) = paddles();
    // Next position (22, 30): centre (30, 38), 8 right of the rect's edge at 22.
    let mut ball = Ball::new(at(24, 30), at(-2, 0));
    let events = ball.update(&mut a, &mut b);
    assert_eq!(events, TickEvents { hit_left: true, ..QUIET });
    // The paddle's centre is at y = 32: (38 - 32) / 32 = 0.1875, raw 48.
    assert_eq!(ball.velocity, Vec2::from_raw(512, 48));
    assert_eq!(ball.pos, Vec2::from_raw(26 * 256, 30 * 256 + 48));
    assert_eq!((a.health, b.health), (3, 3));
}

#[test]
fn left_paddle_keeps_a_ball_going_right() {
    let (mut a, mut b) = paddles();
    let mut ball = Ball::new(at(20, 24), at(2, 0));
    let events = ball.update(&mut a, &mut b);
    assert!(events.hit_left);
    // Centre at y = 32, level with the paddle's: no steering.
    assert_eq!(ball.velocity, at(2, 0));
    assert_eq!(ball.pos, at(22, 24));
}

#[test]
fn right_paddle_sends_the_ball_left() {
    let (mut a, mut b) = paddles();
    // Next position (204, 30): centre (212, 38), 8 left of the rect's edge at 220.
    let mut ball = Ball::new(at(202, 30), at(2, 0));
    let events = ball.update(&mut a, &mut b);
    assert_eq!(events, TickEvents { hit_right: true, ..QUIET });
    assert_eq!(ball.velocity, Vec2::from_raw(-512, -48));
    assert_eq!(ball.pos, Vec2::from_raw(200 * 256, 30 * 256 - 48));
}

#[test]
fn right_paddle_keeps_a_ball_going_left() {
    let (mut a, mut b) = paddles();
    let mut ball = Ball::new(at(206, 30), at(-2, 0));
    let events = ball.update(&mut a, &mut b);
    assert!(events.hit_right);
    assert_eq!(ball.velocity, Vec2::from_raw(-512, -48));
}

#[test]
fn steering_rounds_towards_zero() {
    let (mut a, mut b) = paddles();
    // Centre 1000 raw units above the paddle's: -1000 / 32 = -31.25.
    let mut ball = Ball::new(Vec2::from_raw(24 * 256, 32 * 256 - 1000 - 8 * 256), at(-2, 0));
    ball.update(&mut a, &mut b);
    assert_eq!(ball.velocity, Vec2::from_raw(512, -31));
    // The same at the right paddle, where the term is taken away.
    let mut ball = Ball::new(Vec2::from_raw(202 * 256, 32 * 256 - 1000 - 8 * 256), at(2, 0));
    ball.update(&mut a, &mut b);
    assert_eq!(ball.velocity, Vec2::from_raw(-512, 31));
}

#[test]
fn top_wall_turns_the_ball_down() {
    let (mut a, mut b) = paddles();
    let mut ball = Ball::new(at(100, 1), at(1, -2));
    let events = ball.update(&mut a, &mut b);
    assert_eq!(events, TickEvents { hit_wall: true, ..QUIET });
    assert_eq!(ball.velocity, at(1, 2));
    assert_eq!(ball.pos, at(101, 3));
}

#[test]
fn bottom_wall_turns_the_ball_up() {
    let (mut a, mut b) = paddles();
    let mut ball = Ball::new(at(100, 143), at(1, 2));
    let events = ball.update(&mut a, &mut b);
    assert_eq!(events, TickEvents { hit_wall: true, ..QUIET });
    assert_eq!(ball.velocity, at(1, -2));
    assert_eq!(ball.pos, at(101, 141));
}

#[test]
fn the_walls_are_at_0_and_144() {
    let (mut a, mut b) = paddles();
    let mut ball = Ball::new(at(100, 2), at(0, -2));
    assert!(ball.update(&mut a, &mut b).hit_wall);
    let mut ball = Ball::new(at(100, 142), at(0, 2));
    assert!(ball.update(&mut a, &mut b).hit_wall);
    let mut ball = Ball::new(Vec2::from_raw(100 * 256, 1), at(0, 0));
    assert!(!ball.update(&mut a, &mut b).hit_wall);
    let mut ball = Ball::new(Vec2::from_raw(100 * 256, 144 * 256 - 1), at(0, 0));
    assert!(!ball.update(&mut a, &mut b).hit_wall);
}

#[test]
fn paddle_and_wall_in_one_tick() {
    let mut a = Paddle::<LEFT>::new(at(8, -8), 3);
    let mut b = Paddle::<RIGHT>::new(at(216, 8), 3);
    // Next position (22, -1): centre (30, 7) beside the rect from y = -4 to 36.
    let mut ball = Ball::new(at(24, 1), at(-2, -2));
    let events = ball.update(&mut a, &mut b);
    assert_eq!(events, TickEvents { hit_left: true, hit_wall: true, ..QUIET });
    // Steering (7 - 16) / 32 = -0.28125, raw -72; then the wall turns -584 round.
    assert_eq!(ball.velocity, Vec2::from_raw(512, 584));
    assert_eq!(ball.pos, Vec2::from_raw(26 * 256, 256 + 584));
}

#[test]
fn a_miss_undoes_the_bounce_of_its_tick() {
    let mut a = Paddle::<LEFT>::new(at(-4, 8), 3);
    let mut b = Paddle::<RIGHT>::new(at(216, 8), 3);
    // The left paddle stands over the edge: the ball touches it and is missed.
    let mut ball = Ball::new(at(1, 30), at(-2, 0));
    let events = ball.update(&mut a, &mut b);
    assert_eq!(events, TickEvents { hit_left: true, missed_left: true, ..QUIET });
    assert_eq!(ball.pos, at(50, 50));
    assert_eq!(ball.velocity, Vec2::from_raw(512, 128));
    assert_eq!((a.health, b.health), (2, 3));
}

#[test]
fn both_paddles_in_one_tick() {
    // Both collision rects hold the ball's centre: the right one decides last.
    let mut a = Paddle::<LEFT>::new(at(100, 8), 3);
    let mut b = Paddle::<RIGHT>::new(at(100, 28), 3);
    let mut ball = Ball::new(at(98, 40), at(2, 0));
    let events = ball.update(&mut a, &mut b);
    assert_eq!(events, TickEvents { hit_left: true, hit_right: true, ..QUIET });
    // Left: (48 - 32) / 32 = 0.5 added; right: (48 - 52) / 32 = -0.125 taken away.
    assert_eq!(ball.velocity, Vec2::from_raw(-512, 128 + 32));
    assert_eq!(ball.pos, Vec2::from_raw(96 * 256, 40 * 256 + 160));
}

#[test]
fn within_is_the_reach() {
    assert!(within(Vec2::from_raw(REACH, -REACH)));
    assert!(!within(Vec2::from_raw(REACH + 1, 0)));
    assert!(!within(Vec2::from_raw(0, -REACH - 1)));
}

#[test]
fn in_reach_asks_for_ball_and_paddles() {
    let (a, b) = paddles();
    assert!(Ball::new(at(50, 50), at(2, 0)).in_reach(&a, &b));
    assert!(Ball::new(at(512, -512), at(512, 512)).in_reach(&a, &b));
    assert!(!Ball::new(at(513, 50), at(2, 0)).in_reach(&a, &b));
    assert!(!Ball::new(at(50, 50), at(2, -513)).in_reach(&a, &b));
    let far = Paddle::<LEFT>::new(at(8, 600), 3);
    assert!(!Ball::new(at(50, 50), at(2, 0)).in_reach(&far, &b));
    let far = Paddle::<RIGHT>::new(at(-600, 8), 3);
    assert!(!Ball::new(at(50, 50), at(2, 0)).in_reach(&a, &far));
}

#[test]
fn update_at_the_limits_of_the_reach() {
    let mut a = Paddle::<LEFT>::new(at(-512, -512), 3);
    let mut b = Paddle::<RIGHT>::new(at(512, 512), 3);
    let mut ball = Ball::new(at(512, 100), at(-512, 512));
    let events = ball.update(&mut a, &mut b);
    // Next position (0, 612): past the bottom and on the left edge.
    assert_eq!(events, TickEvents { hit_wall: true, missed_left: true, ..QUIET });
    assert_eq!(ball.pos, at(50, 50));
    assert_eq!((a.health, b.health), (2, 3));
    let mut ball = Ball::new(at(-512, -512), at(512, 512));
    let events = ball.update(&mut a, &mut b);
    assert!(events.missed_left && events.hit_wall);
}
