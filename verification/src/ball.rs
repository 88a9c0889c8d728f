//! The ball: one step of its motion, its bounces off paddles and walls, and
//! what happens when a paddle misses it.

use crate::fixed::{
    fits, fixed_abs, fixed_add, fixed_div_int, fixed_mul_int, fixed_neg, fixed_new, fixed_sub, trunc_div,
    Fixed,
};
use crate::geometry::{lemma_can_touch_in_reach, near, within, Circle, Rect, Vec2};
use crate::paddle::{Paddle, LEFT, RIGHT, SCREEN_HEIGHT, SCREEN_WIDTH};
use vstd::prelude::*;

verus! {

/// Width and height of the ball, in whole units.
pub const BALL_SIZE: i32 = 16;

/// Radius of the ball, in whole units.
pub const BALL_RADIUS: i32 = 8;

/// What happened to the ball during one tick.
#[derive(Clone, Copy, Debug, PartialEq, Eq, Structural)]
pub struct TickEvents {
    /// The ball touched the left paddle.
    pub hit_left: bool,
    /// The ball touched the right paddle.
    pub hit_right: bool,
    /// The ball touched the top or the bottom of the play field.
    pub hit_wall: bool,
    /// The ball passed the left edge, so the left paddle missed it.
    pub missed_left: bool,
    /// The ball passed the right edge, so the right paddle missed it.
    pub missed_right: bool,
}

/// The size of `v`, without its sign.
pub open spec fn magnitude(v: int) -> int {
    if v < 0 {
        -v
    } else {
        v
    }
}

/// Where the ball is put after a miss: (50, 50).
pub open spec fn start_pos() -> Vec2 {
    Vec2::of_raw(12800, 12800)
}

/// The velocity that the ball gets after a miss: (2, 0.5).
pub open spec fn start_velocity() -> Vec2 {
    Vec2::of_raw(512, 128)
}

/// The velocity `v` after the test against the left paddle: on a hit the ball
/// goes right, and `steer` is added to its vertical speed.
pub open spec fn after_left(v: Vec2, hit: bool, steer: int) -> Vec2 {
    if hit {
        Vec2::of_raw(magnitude(v.x.raw as int), v.y.raw + steer)
    } else {
        v
    }
}

/// The velocity `v` after the test against the right paddle: on a hit the
/// ball goes left, and `steer` is taken from its vertical speed.
pub open spec fn after_right(v: Vec2, hit: bool, steer: int) -> Vec2 {
    if hit {
        Vec2::of_raw(-magnitude(v.x.raw as int), v.y.raw - steer)
    } else {
        v
    }
}

/// The velocity `v` after the test against the walls: on a hit the vertical
/// speed is turned round.
pub open spec fn after_wall(v: Vec2, hit: bool) -> Vec2 {
    if hit {
        Vec2::of_raw(v.x.raw as int, -v.y.raw)
    } else {
        v
    }
}

/// The health left after a tick: one less after a miss, and never less than
/// none.
pub open spec fn health_after(health: u16, missed: bool) -> u16 {
    if missed && health > 0 {
        (health - 1) as u16
    } else {
        health
    }
}

/// The ball: the corner of its bounding box nearest the origin, and what is
/// added to it in each tick.
#[derive(Clone, Copy, Debug, PartialEq, Eq, Structural)]
pub struct Ball {
    pub pos: Vec2,
    pub velocity: Vec2,
}

impl Ball {
    /// Where the ball would go in this tick if nothing stood in its way.
    pub open spec fn next_pos(self) -> Vec2 {
        self.pos.plus(self.velocity)
    }

    /// The circle that is tested against the paddles: the ball where it
    /// would go.
    pub open spec fn mask(self) -> Circle {
        Circle { pos: self.next_pos(), radius: Fixed { raw: 2048 } }
    }

    /// The ball would touch `rect`.
    pub open spec fn hits(self, rect: Rect) -> bool {
        self.mask().spec_touches(rect)
    }

    /// What a hit on a paddle with collision rectangle `rect` adds to the
    /// vertical speed: a 32nd of the height of the ball's centre over the
    /// paddle's, rounded towards zero.
    pub open spec fn steer(self, rect: Rect) -> int {
        trunc_div(self.mask().centre_y() - rect.spec_centre().y.raw, 32)
    }

    /// The ball would reach the top or the bottom of the play field.
    pub open spec fn at_wall(self) -> bool {
        self.next_pos().y.raw <= 0 || self.next_pos().y.raw >= (SCREEN_HEIGHT - BALL_SIZE) * 256
    }

    /// The ball would reach the left edge of the play field.
    pub open spec fn misses_left(self) -> bool {
        self.next_pos().x.raw <= 0
    }

    /// The ball would reach the right edge of the play field.
    pub open spec fn misses_right(self) -> bool {
        self.next_pos().x.raw >= (SCREEN_WIDTH - BALL_SIZE) * 256
    }

    /// The velocity after the tests against the left paddle, the right paddle
    /// and the walls, in this order, each on the ball where it would go.
    pub open spec fn bounced_velocity(self, left: Rect, right: Rect) -> Vec2 {
        after_wall(
            after_right(
                after_left(self.velocity, self.hits(left), self.steer(left)),
                self.hits(right),
                self.steer(right),
            ),
            self.at_wall(),
        )
    }

    /// The ball after one tick, played against paddles with these collision
    /// rectangles: back at the start after a miss; else moved by the velocity
    /// that the bounces left.
    pub open spec fn stepped(self, left: Rect, right: Rect) -> Ball {
        if self.misses_left() || self.misses_right() {
            Ball { pos: start_pos(), velocity: start_velocity() }
        } else {
            Ball {
                pos: self.pos.plus(self.bounced_velocity(left, right)),
                velocity: self.bounced_velocity(left, right),
            }
        }
    }

    /// What happens in one tick against paddles with these collision
    /// rectangles.
    pub open spec fn events(self, left: Rect, right: Rect) -> TickEvents {
        TickEvents {
            hit_left: self.hits(left),
            hit_right: self.hits(right),
            hit_wall: self.at_wall(),
            missed_left: self.misses_left(),
            missed_right: self.misses_right(),
        }
    }

    /// The bounces of a tick against paddles with these collision rectangles
    /// can be computed: no speed leaves the range of the numbers on the way,
    /// and neither does the place to which the ball then moves.
    pub open spec fn can_bounce(self, left: Rect, right: Rect) -> bool {
        let from_left = after_left(self.velocity, self.hits(left), self.steer(left));
        let from_right = after_right(from_left, self.hits(right), self.steer(right));
        &&& self.hits(left) ==> {
            &&& self.velocity.x.raw > i32::MIN
            &&& fits(self.mask().centre_y() - left.spec_centre().y.raw)
            &&& fits(self.velocity.y.raw + self.steer(left))
        }
        &&& self.hits(right) ==> {
            &&& from_left.x.raw > i32::MIN
            &&& fits(self.mask().centre_y() - right.spec_centre().y.raw)
            &&& fits(from_left.y.raw - self.steer(right))
        }
        &&& self.at_wall() ==> from_right.y.raw > i32::MIN
        &&& !self.misses_left() && !self.misses_right() ==> self.pos.can_add(
            self.bounced_velocity(left, right),
        )
    }

    /// A tick can be computed: none of its steps leaves the range of the
    /// numbers.
    pub open spec fn can_update(self, paddle_a: Paddle<LEFT>, paddle_b: Paddle<RIGHT>) -> bool {
        &&& self.pos.can_add(self.velocity)
        &&& self.mask().wf()
        &&& paddle_a.can_collide()
        &&& paddle_b.can_collide()
        &&& self.mask().can_touch(paddle_a.spec_collision_rect())
        &&& self.mask().can_touch(paddle_b.spec_collision_rect())
        &&& self.can_bounce(paddle_a.spec_collision_rect(), paddle_b.spec_collision_rect())
    }

    /// The ball, its velocity and both paddles are within `REACH`.
    pub open spec fn within_reach(self, paddle_a: Paddle<LEFT>, paddle_b: Paddle<RIGHT>) -> bool {
        near(self.pos) && near(self.velocity) && near(paddle_a.pos) && near(paddle_b.pos)
    }

    /// A ball at `pos` that moves by `velocity` in each tick.
    pub fn new(pos: Vec2, velocity: Vec2) -> (r: Ball)
        ensures
            r == (Ball { pos, velocity }),
    {
        Ball { pos, velocity }
    }

    /// Puts the ball back at the start.
    pub fn reset(&mut self)
        ensures
            *final(self) == (Ball { pos: start_pos(), velocity: start_velocity() }),
    {
        self.pos = Vec2 { x: fixed_new(50), y: fixed_new(50) };
        self.velocity = Vec2 { x: fixed_new(2), y: Fixed::from_raw(128) };
    }

    /// Whether the ball and these paddles are within `REACH`, where a tick
    /// can be computed.
    pub fn in_reach(&self, paddle_a: &Paddle<LEFT>, paddle_b: &Paddle<RIGHT>) -> (r: bool)
        ensures
            r == self.within_reach(*paddle_a, *paddle_b),
            r ==> self.can_update(*paddle_a, *paddle_b),
    {
        proof {
            if self.within_reach(*paddle_a, *paddle_b) {
                lemma_can_update_in_reach(*self, *paddle_a, *paddle_b);
            }
        }
        within(self.pos) && within(self.velocity) && within(paddle_a.pos) && within(paddle_b.pos)
    }

    /// One tick: the ball is tested where its velocity would take it, bounces
    /// off what it touches there, and then moves by its new velocity. A ball
    /// that reaches the left or the right edge costs that side's paddle one
    /// point of health and goes back to the start.
    pub fn update(
        &mut self,
        paddle_a: &mut Paddle<LEFT>,
        paddle_b: &mut Paddle<RIGHT>,
    ) -> (events: TickEvents)
        requires
            old(self).can_update(*old(paddle_a), *old(paddle_b)),
        ensures
            *final(self) == old(self).stepped(
                old(paddle_a).spec_collision_rect(),
                old(paddle_b).spec_collision_rect(),
            ),
            events == old(self).events(
                old(paddle_a).spec_collision_rect(),
                old(paddle_b).spec_collision_rect(),
            ),
            final(paddle_a).pos == old(paddle_a).pos,
            final(paddle_b).pos == old(paddle_b).pos,
            final(paddle_a).health == health_after(old(paddle_a).health, old(self).misses_left()),
            final(paddle_b).health == health_after(old(paddle_b).health, old(self).misses_right()),
    {
        let potential_ball_pos = self.pos.sum(self.velocity);
        let ball_mask = Circle::new(potential_ball_pos, fixed_new(BALL_RADIUS));
        let rect_a = paddle_a.collision_rect();
        let rect_b = paddle_b.collision_rect();
        let centre_y = ball_mask.centre().y;

        let hit_left = ball_mask.touches(rect_a);
        if hit_left {
            self.velocity.x = fixed_abs(self.velocity.x);
            let y_difference = fixed_div_int(fixed_sub(centre_y, rect_a.centre().y), 32);
            self.velocity.y = fixed_add(self.velocity.y, y_difference);
        }
        let hit_right = ball_mask.touches(rect_b);
        if hit_right {
            self.velocity.x = fixed_neg(fixed_abs(self.velocity.x));
            let y_difference = fixed_div_int(fixed_sub(centre_y, rect_b.centre().y), 32);
            self.velocity.y = fixed_sub(self.velocity.y, y_difference);
        }
        let hit_wall = potential_ball_pos.y.raw <= 0 || potential_ball_pos.y.raw >= fixed_new(
            SCREEN_HEIGHT - BALL_SIZE,
        ).raw;
        if hit_wall {
            self.velocity.y = fixed_mul_int(self.velocity.y, -1);
        }
        let missed_left = potential_ball_pos.x.raw <= 0;
        if missed_left {
            paddle_a.lose_health();
            self.reset();
        }
        let missed_right = potential_ball_pos.x.raw >= fixed_new(SCREEN_WIDTH - BALL_SIZE).raw;
        if missed_right {
            paddle_b.lose_health();
            self.reset();
        }
        if !missed_left && !missed_right {
            self.pos = self.pos.sum(self.velocity);
        }
        TickEvents { hit_left, hit_right, hit_wall, missed_left, missed_right }
    }
}

/// Within `REACH` a tick can always be computed.
pub proof fn lemma_can_update_in_reach(ball: Ball, paddle_a: Paddle<LEFT>, paddle_b: Paddle<RIGHT>)
    requires
        ball.within_reach(paddle_a, paddle_b),
    ensures
        ball.can_update(paddle_a, paddle_b),
{
    lemma_can_touch_in_reach(ball.mask(), paddle_a.spec_collision_rect());
    lemma_can_touch_in_reach(ball.mask(), paddle_b.spec_collision_rect());
}

/// A paddle gives the ball its direction whatever direction it came with:
/// in a tick without a miss, a ball that touches only the left paddle leaves
/// with its sideways speed turned to the right, and a ball that touches the
/// right paddle leaves with it turned to the left. A ball without sideways
/// speed keeps none.
pub proof fn lemma_bounce_direction(ball: Ball, left: Rect, right: Rect)
    requires
        ball.velocity.x.raw > i32::MIN,
        !ball.misses_left(),
        !ball.misses_right(),
    ensures
        ball.hits(left) && !ball.hits(right) ==> {
            &&& ball.stepped(left, right).velocity.x.raw == magnitude(ball.velocity.x.raw as int)
            &&& ball.stepped(left, right).velocity.x.raw >= 0
            &&& ball.velocity.x.raw != 0 ==> ball.stepped(left, right).velocity.x.raw > 0
        },
        ball.hits(right) ==> {
            &&& ball.stepped(left, right).velocity.x.raw == -magnitude(ball.velocity.x.raw as int)
            &&& ball.stepped(left, right).velocity.x.raw <= 0
            &&& ball.velocity.x.raw != 0 ==> ball.stepped(left, right).velocity.x.raw < 0
        },
{
}

/// A miss undoes the bounces of its tick: whatever the ball touched, it is
/// back at the start with the starting velocity, and the paddle that missed,
/// if it had health left, has exactly one point less.
pub proof fn lemma_miss_resets(ball: Ball, left: Rect, right: Rect, health: u16)
    requires
        ball.misses_left() || ball.misses_right(),
    ensures
        ball.stepped(left, right) == (Ball { pos: start_pos(), velocity: start_velocity() }),
        ball.events(left, right).missed_left == ball.misses_left(),
        ball.events(left, right).missed_right == ball.misses_right(),
        health > 0 ==> health_after(health, true) == health - 1,
        health_after(health, false) == health,
{
}

} // verus!
