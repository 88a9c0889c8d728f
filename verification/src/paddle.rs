//! A paddle: where it stands, how much health it has left, how it moves.

use crate::fixed::{fixed_add, fixed_max, fixed_min, fixed_new, fits, Fixed};
use crate::geometry::{clamp, Rect, Vec2};
use vstd::prelude::*;

verus! {

/// Height of the play field, in whole units.
pub const SCREEN_HEIGHT: i32 = 160;

/// Width of the play field, in whole units.
pub const SCREEN_WIDTH: i32 = 240;

/// Height of a paddle, in whole units.
pub const PADDLE_HEIGHT: i32 = 48;

/// Health of a paddle at the start of a session.
pub const FULL_HEALTH: u16 = 3;

/// The role of the paddle on the left.
pub const LEFT: bool = true;

/// The role of the paddle on the right.
pub const RIGHT: bool = false;

/// Raw value of the lowest place a paddle can move to: the height of the
/// field less that of the paddle.
pub open spec fn lowest_y() -> int {
    (SCREEN_HEIGHT - PADDLE_HEIGHT) * 256
}

/// Raw distance that a paddle moves in one tick when these buttons are held:
/// two units up or down, and none when both or neither are held.
pub open spec fn steering(up_pressed: bool, down_pressed: bool) -> int {
    if up_pressed && !down_pressed {
        -512
    } else if down_pressed && !up_pressed {
        512
    } else {
        0
    }
}

/// A paddle. `PLAYER` tells the two roles apart; both move by the same rules.
#[derive(Clone, Copy, Debug, PartialEq, Eq)]
pub struct Paddle<const PLAYER: bool> {
    pub pos: Vec2,
    pub health: u16,
}

impl<const PLAYER: bool> Paddle<PLAYER> {
    /// The paddle stands within the height of the play field.
    pub open spec fn in_field(self) -> bool {
        0 <= self.pos.y.raw <= lowest_y()
    }

    /// The rectangle against which the ball is tested: 4 units inside the
    /// paddle's corner, 10 wide and 40 high.
    pub open spec fn spec_collision_rect(self) -> Rect {
        Rect {
            position: Vec2::of_raw(self.pos.x.raw + 1024, self.pos.y.raw + 1024),
            size: Vec2::of_raw(2560, 10240),
        }
    }

    /// The far corner of the collision rectangle can be represented.
    pub open spec fn can_collide(self) -> bool {
        fits(self.pos.x.raw + 3584) && fits(self.pos.y.raw + 11264)
    }

    /// The paddle after it was asked to move down by `y` raw units.
    pub open spec fn moved_by(self, y: int) -> Paddle<PLAYER> {
        Paddle {
            pos: Vec2 {
                x: self.pos.x,
                y: Fixed { raw: clamp(self.pos.y.raw + y, 0, lowest_y()) as i32 },
            },
            health: self.health,
        }
    }

    /// The paddle after it was asked to move by each of `deltas` in turn.
    pub open spec fn moved_through(self, deltas: Seq<int>) -> Paddle<PLAYER>
        decreases deltas.len(),
    {
        if deltas.len() == 0 {
            self
        } else {
            self.moved_through(deltas.drop_last()).moved_by(deltas.last())
        }
    }

    /// A paddle at `start` with `health` points of health.
    pub fn new(start: Vec2, health: u16) -> (r: Self)
        ensures
            r == (Paddle::<PLAYER> { pos: start, health }),
    {
        Paddle { pos: start, health }
    }

    /// Moves the paddle down by `y`, and no further than the edges of the
    /// play field.
    pub fn move_by(&mut self, y: Fixed)
        ensures
            *final(self) == old(self).moved_by(y.raw as int),
            final(self).in_field(),
    {
        let top = fixed_new(0);
        let bottom = fixed_new(SCREEN_HEIGHT - PADDLE_HEIGHT);
        if y.raw > 0 && self.pos.y.raw > i32::MAX - y.raw {
            self.pos.y = bottom;
        } else if y.raw < 0 && self.pos.y.raw < i32::MIN - y.raw {
            self.pos.y = top;
        } else {
            self.pos.y = fixed_min(fixed_max(fixed_add(self.pos.y, y), top), bottom);
        }
    }

    /// Puts the paddle at `pos`, wherever that is.
    pub fn set_pos(&mut self, pos: Vec2)
        ensures
            *final(self) == (Paddle::<PLAYER> { pos, health: old(self).health }),
    {
        self.pos = pos;
    }

    /// The rectangle against which the ball is tested.
    pub fn collision_rect(&self) -> (r: Rect)
        requires
            self.can_collide(),
        ensures
            r == self.spec_collision_rect(),
            r.wf(),
    {
        let inset = fixed_new(4);
        let pos = self.pos.sum(Vec2 { x: inset, y: inset });
        Rect::new(pos, Vec2 { x: fixed_new(10), y: fixed_new(40) })
    }

    /// Moves the paddle as the two buttons of its role ask.
    pub fn update(&mut self, up_pressed: bool, down_pressed: bool)
        ensures
            *final(self) == old(self).moved_by(steering(up_pressed, down_pressed)),
            final(self).in_field(),
    {
        let y_change = if up_pressed && !down_pressed {
            fixed_new(-2)
        } else if down_pressed && !up_pressed {
            fixed_new(2)
        } else {
            fixed_new(0)
        };
        self.move_by(y_change);
    }

    /// Takes one point of health away after a miss; a paddle without health
    /// keeps none.
    pub fn lose_health(&mut self)
        ensures
            final(self).pos == old(self).pos,
            final(self).health == if old(self).health > 0 { old(self).health - 1 } else { 0 },
    {
        if self.health > 0 {
            self.health = self.health - 1;
        }
    }
}

/// Whatever a paddle is asked to move by, and wherever it stood, it ends
/// within the play field with its health unchanged; and once there, it is not
/// moved again by the clamping: a move by nothing leaves it in place.
pub proof fn lemma_move_stays_in_field<const PLAYER: bool>(p: Paddle<PLAYER>, y: int)
    ensures
        p.moved_by(y).in_field(),
        p.moved_by(y).moved_by(0) == p.moved_by(y),
        p.moved_by(y).health == p.health,
{
}

/// After any sequence of moves, however large each of them, the paddle is
/// within the play field, and neither its health nor its distance from the
/// side has changed.
pub proof fn lemma_moves_stay_in_field<const PLAYER: bool>(p: Paddle<PLAYER>, deltas: Seq<int>)
    ensures
        deltas.len() > 0 ==> p.moved_through(deltas).in_field(),
        p.moved_through(deltas).health == p.health,
        p.moved_through(deltas).pos.x == p.pos.x,
    decreases deltas.len(),
{
    if deltas.len() > 0 {
        lemma_moves_stay_in_field(p, deltas.drop_last());
    }
}

} // verus!
