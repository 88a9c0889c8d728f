//! The game: a session in play, or a game that is over and waits for a
//! restart.

use crate::ball::{
    health_after, lemma_can_update_in_reach, start_pos, start_velocity, Ball, TickEvents,
};
use crate::fixed::{fixed_new, Fixed};
use crate::geometry::Vec2;
use crate::paddle::{steering, Paddle, FULL_HEALTH, LEFT, RIGHT, SCREEN_WIDTH};
use vstd::prelude::*;

verus! {

/// The buttons that are held during one tick.
#[derive(Clone, Copy, Debug, PartialEq, Eq, Structural)]
pub struct Input {
    /// Moves the left paddle up.
    pub up: bool,
    /// Moves the left paddle down.
    pub down: bool,
    /// Moves the right paddle up.
    pub a: bool,
    /// Moves the right paddle down.
    pub b: bool,
    /// Starts a new session when the game is over.
    pub start: bool,
}

/// A session: the ball and the two paddles.
#[derive(Clone, Copy, Debug, PartialEq, Eq)]
pub struct GamePlay {
    pub ball: Ball,
    pub paddle_a: Paddle<LEFT>,
    pub paddle_b: Paddle<RIGHT>,
}

/// The state of the game: a session in play, or over until a restart.
#[derive(Clone, Copy, Debug, PartialEq, Eq)]
pub enum Game {
    Playing(GamePlay),
    Over,
}

/// What one tick of a session leaves to be shown and heard: the session as
/// it stands after the tick, also after the tick that ends it, and what
/// happened to the ball.
#[derive(Clone, Copy, Debug, PartialEq, Eq)]
pub struct Frame {
    pub session: GamePlay,
    pub events: TickEvents,
}

impl GamePlay {
    /// The session at the start of a game: the ball at its start, each paddle
    /// 8 units from its edge and from the top, with full health.
    pub open spec fn fresh() -> GamePlay {
        GamePlay {
            ball: Ball { pos: start_pos(), velocity: start_velocity() },
            paddle_a: Paddle { pos: Vec2::of_raw(2048, 2048), health: FULL_HEALTH },
            paddle_b: Paddle { pos: Vec2::of_raw(55296, 2048), health: FULL_HEALTH },
        }
    }

    /// A tick of this session can be computed.
    pub open spec fn can_update(self) -> bool {
        self.ball.can_update(self.paddle_a, self.paddle_b)
    }

    /// The ball and the paddles are within `REACH`.
    pub open spec fn within_reach(self) -> bool {
        self.ball.within_reach(self.paddle_a, self.paddle_b)
    }

    /// A paddle has no health left.
    pub open spec fn lost(self) -> bool {
        self.paddle_a.health == 0 || self.paddle_b.health == 0
    }

    /// The session after one tick: first the ball moves against the paddles
    /// as they stand, then each paddle moves as its buttons ask.
    pub open spec fn stepped(self, input: Input) -> GamePlay {
        let left = self.paddle_a.spec_collision_rect();
        let right = self.paddle_b.spec_collision_rect();
        GamePlay {
            ball: self.ball.stepped(left, right),
            paddle_a: (Paddle::<LEFT> {
                pos: self.paddle_a.pos,
                health: health_after(self.paddle_a.health, self.ball.misses_left()),
            }).moved_by(steering(input.up, input.down)),
            paddle_b: (Paddle::<RIGHT> {
                pos: self.paddle_b.pos,
                health: health_after(self.paddle_b.health, self.ball.misses_right()),
            }).moved_by(steering(input.a, input.b)),
        }
    }

    /// The session at the start of a game.
    pub fn new() -> (r: GamePlay)
        ensures
            r == GamePlay::fresh(),
    {
        let top = fixed_new(8);
        let ball = Ball::new(
            Vec2 { x: fixed_new(50), y: fixed_new(50) },
            Vec2 { x: fixed_new(2), y: Fixed::from_raw(128) },
        );
        let paddle_a = Paddle::new(Vec2 { x: fixed_new(8), y: top }, FULL_HEALTH);
        let paddle_b = Paddle::new(Vec2 { x: fixed_new(SCREEN_WIDTH - 16 - 8), y: top }, FULL_HEALTH);
        GamePlay { ball, paddle_a, paddle_b }
    }

    /// Whether the ball and the paddles are within `REACH`, where a tick can
    /// be computed.
    pub fn in_reach(&self) -> (r: bool)
        ensures
            r == self.within_reach(),
            r ==> self.can_update(),
    {
        self.ball.in_reach(&self.paddle_a, &self.paddle_b)
    }

    /// One tick of the session; tells what happened to the ball.
    pub fn update(&mut self, input: Input) -> (events: TickEvents)
        requires
            old(self).can_update(),
        ensures
            *final(self) == old(self).stepped(input),
            events == old(self).ball.events(
                old(self).paddle_a.spec_collision_rect(),
                old(self).paddle_b.spec_collision_rect(),
            ),
    {
        let events = self.ball.update(&mut self.paddle_a, &mut self.paddle_b);
        self.paddle_a.update(input.up, input.down);
        self.paddle_b.update(input.a, input.b);
        events
    }

    /// Whether a paddle has no health left.
    pub fn is_lost(&self) -> (r: bool)
        ensures
            r == self.lost(),
    {
        self.paddle_a.health == 0 || self.paddle_b.health == 0
    }
}

impl Game {
    /// A tick of the game can be computed.
    pub open spec fn can_tick(self) -> bool {
        match self {
            Game::Playing(session) => session.can_update(),
            Game::Over => true,
        }
    }

    /// The game is over, or its session is within `REACH`.
    pub open spec fn within_reach(self) -> bool {
        match self {
            Game::Playing(session) => session.within_reach(),
            Game::Over => true,
        }
    }

    /// The game after one tick. A session in play takes its step and is over
    /// once a paddle has no health left. A game that is over stays so until
    /// the start button is held, and then begins a new session.
    pub open spec fn ticked(self, input: Input) -> Game {
        match self {
            Game::Playing(session) => if session.stepped(input).lost() {
                Game::Over
            } else {
                Game::Playing(session.stepped(input))
            },
            Game::Over => if input.start {
                Game::Playing(GamePlay::fresh())
            } else {
                Game::Over
            },
        }
    }

    /// What one tick of the game leaves to be shown and heard: nothing
    /// while the game is over.
    pub open spec fn frame(self, input: Input) -> Option<Frame> {
        match self {
            Game::Playing(session) => Some(
                Frame {
                    session: session.stepped(input),
                    events: session.ball.events(
                        session.paddle_a.spec_collision_rect(),
                        session.paddle_b.spec_collision_rect(),
                    ),
                },
            ),
            Game::Over => None,
        }
    }

    /// A game with a new session in play.
    pub fn new() -> (r: Game)
        ensures
            r == Game::Playing(GamePlay::fresh()),
    {
        Game::Playing(GamePlay::new())
    }

    /// Whether the game is over or its session within `REACH`: either way a
    /// tick can be computed.
    pub fn in_reach(&self) -> (r: bool)
        ensures
            r == self.within_reach(),
            r ==> self.can_tick(),
    {
        match self {
            Game::Playing(session) => session.in_reach(),
            Game::Over => true,
        }
    }

    /// One tick of the game: the next state, and what is to be shown and
    /// heard if a session was in play.
    pub fn tick(self, input: Input) -> (r: (Game, Option<Frame>))
        requires
            self.can_tick(),
        ensures
            r.0 == self.ticked(input),
            r.1 == self.frame(input),
    {
        match self {
            Game::Playing(session) => {
                let mut session = session;
                let events = session.update(input);
                let frame = Frame { session, events };
                if session.is_lost() {
                    (Game::Over, Some(frame))
                } else {
                    (Game::Playing(session), Some(frame))
                }
            },
            Game::Over => {
                if input.start {
                    (Game::new(), None)
                } else {
                    (Game::Over, None)
                }
            },
        }
    }
}

/// With one point of health on each side, a tick in which either paddle
/// misses the ball ends the game.
pub proof fn lemma_last_miss_ends_game(session: GamePlay, input: Input)
    requires
        session.paddle_a.health == 1,
        session.paddle_b.health == 1,
        session.ball.misses_left() || session.ball.misses_right(),
    ensures
        Game::Playing(session).ticked(input) == Game::Over,
{
}

/// A session stays in play exactly as long as no paddle runs out of health.
pub proof fn lemma_playing_until_lost(session: GamePlay, input: Input)
    ensures
        Game::Playing(session).ticked(input) == Game::Over <==> session.stepped(input).lost(),
        !session.stepped(input).lost() ==> Game::Playing(session).ticked(input) == Game::Playing(
            session.stepped(input),
        ),
{
}

/// A tick never adds health and takes at most one point from each paddle,
/// and it leaves both paddles within the play field and at their distance
/// from the side.
pub proof fn lemma_tick_keeps_paddles(session: GamePlay, input: Input)
    ensures
        session.stepped(input).paddle_a.health <= session.paddle_a.health,
        session.stepped(input).paddle_b.health <= session.paddle_b.health,
        session.paddle_a.health - session.stepped(input).paddle_a.health <= 1,
        session.paddle_b.health - session.stepped(input).paddle_b.health <= 1,
        session.stepped(input).paddle_a.in_field(),
        session.stepped(input).paddle_b.in_field(),
        session.stepped(input).paddle_a.pos.x == session.paddle_a.pos.x,
        session.stepped(input).paddle_b.pos.x == session.paddle_b.pos.x,
{
}

/// A game that is over leaves that state only on the start button, and then
/// for a new session in which both paddles have full health, whatever went
/// before.
pub proof fn lemma_restart_only_on_start(input: Input)
    ensures
        !input.start ==> Game::Over.ticked(input) == Game::Over,
        input.start ==> Game::Over.ticked(input) == Game::Playing(GamePlay::fresh()),
        GamePlay::fresh().paddle_a.health == 3,
        GamePlay::fresh().paddle_b.health == 3,
        GamePlay::fresh().ball == (Ball { pos: start_pos(), velocity: start_velocity() }),
        !GamePlay::fresh().lost(),
        GamePlay::fresh().can_update(),
{
    lemma_can_update_in_reach(
        GamePlay::fresh().ball,
        GamePlay::fresh().paddle_a,
        GamePlay::fresh().paddle_b,
    );
}

} // verus!
