//! The ball: where it is launched, which way, and when it is lost.

use vstd::prelude::*;
use crate::entity::{lemma_filter_keeps_identities, Entity};
use crate::error::{need_window, GameError};
use crate::game::{Game, GameView};
use crate::units::{Color, Point, WindowSize, UNIT};

verus! {

/// Radius of the ball.
pub const BALL_RADIUS: i64 = 16 * UNIT;

/// The speed the ball is launched with and held at, in length steps per
/// second.
pub const MAX_SPEED: i64 = 600 * UNIT;

/// One ball. The engine moves it; `position` is where the game last saw it.
#[derive(Debug, Clone, Copy, PartialEq, Eq, Structural)]
pub struct Ball {
    pub entity: Entity,
    pub position: Point,
}

/// Where a ball is launched: centred, three eighths of the window height
/// below the centre.
pub open spec fn ball_start(window: WindowSize) -> Point {
    Point { x: 0, y: (-(3 * window.height as int / 8)) as i64 }
}

/// Whether the lower edge of a ball at `position` lies below the bottom of
/// the field, which is half the window height below the centre. Both sides
/// of the comparison are doubled so that an odd height loses nothing.
pub open spec fn below_field(position: Point, window: WindowSize) -> bool {
    2 * (position.y as int - BALL_RADIUS as int) < -(window.height as int)
}

/// Computes [`ball_start`].
pub fn get_ball_start(window: WindowSize) -> (start: Point)
    ensures
        start == ball_start(window),
{
    Point { x: 0, y: -(3 * (window.height as i64) / 8) }
}

/// Computes [`below_field`].
pub fn is_below_field(position: Point, window: WindowSize) -> (lost: bool)
    ensures
        lost == below_field(position, window),
{
    2 * (position.y as i128 - BALL_RADIUS as i128) < -(window.height as i128)
}

/// The test that keeps the balls whose lower edge is not below the field.
pub open spec fn in_play(window: WindowSize) -> spec_fn(Ball) -> bool {
    |ball: Ball| !below_field(ball.position, window)
}

/// A ball after the engine reported the body `entity` at `position`: that
/// ball is seen there, any other is where it was.
pub open spec fn placed(ball: Ball, entity: Entity, position: Point) -> Ball {
    if ball.entity == entity {
        Ball { position, ..ball }
    } else {
        ball
    }
}

/// [`placed`] as a function of the ball.
pub open spec fn placing(entity: Entity, position: Point) -> spec_fn(Ball) -> Ball {
    |ball: Ball| placed(ball, entity, position)
}

/// `count` balls at the launch point of a window, with identities counted
/// up from `first`.
pub open spec fn launched(count: nat, window: WindowSize, first: u64) -> Seq<Ball> {
    Seq::new(
        count,
        |index: int| Ball { entity: Entity((first + index) as u64), position: ball_start(window) },
    )
}

impl GameView {
    /// The game after a ball was asked for: with a window, a ball stands at
    /// its launch point under the next identity; without one, nothing
    /// changes.
    pub open spec fn spawn_ball(self, window: Option<WindowSize>) -> GameView {
        match window {
            Some(size) => GameView {
                balls: self.balls.push(
                    Ball { entity: Entity(self.next_entity), position: ball_start(size) },
                ),
                next_entity: (self.next_entity + 1) as u64,
                ..self
            },
            None => self,
        }
    }

    /// The game after the balls were taken away: none is left.
    pub open spec fn despawn_balls(self) -> GameView {
        GameView { balls: Seq::empty(), ..self }
    }

    /// The game after the engine reported where a ball is.
    pub open spec fn ball_moved(self, entity: Entity, position: Point) -> GameView {
        GameView { balls: self.balls.map_values(placing(entity, position)), ..self }
    }

    /// The balls that are still in play in this window, in their order.
    pub open spec fn balls_in_play(self, window: WindowSize) -> Seq<Ball> {
        self.balls.filter(in_play(window))
    }

    /// How many balls have dropped below the field of this window.
    pub open spec fn balls_lost(self, window: WindowSize) -> nat {
        (self.balls.len() - self.balls_in_play(window).len()) as nat
    }

    /// The game after the lost balls were replaced: with a window, the balls
    /// still in play stay, and for each lost ball one new ball stands at
    /// the launch point under the next identity; without a window, nothing
    /// changes.
    pub open spec fn check_ball_death(self, window: Option<WindowSize>) -> GameView {
        match window {
            Some(size) => GameView {
                balls: self.balls_in_play(size) + launched(
                    self.balls_lost(size),
                    size,
                    self.next_entity,
                ),
                next_entity: (self.next_entity + self.balls_lost(size)) as u64,
                ..self
            },
            None => self,
        }
    }
}

impl Game {
    /// Spawns a ball at the launch point of the given window. Fails, and
    /// spawns nothing, when there is no window.
    pub fn spawn_ball_observer(&mut self, window: Option<WindowSize>) -> (result: Result<
        (),
        GameError,
    >)
        requires
            old(self)@.wf(),
            window is Some ==> old(self)@.entities_left() >= 1,
        ensures
            result == need_window(window),
            final(self)@ == old(self)@.spawn_ball(window),
            final(self)@.wf(),
    {
        let size = match window {
            Some(size) => size,
            None => {
                return Err(GameError::MissingWindow);
            },
        };
        let entity = Entity(self.next_entity);
        self.balls.push(Ball { entity, position: get_ball_start(size) });
        self.next_entity = self.next_entity + 1;
        Ok(())
    }

    /// Takes every ball away.
    pub fn despawn_balls_system(&mut self)
        requires
            old(self)@.wf(),
        ensures
            final(self)@ == old(self)@.despawn_balls(),
            final(self)@.wf(),
    {
        self.balls.clear();
    }

    /// Records where the engine has moved a ball to. Says whether a live
    /// ball has this identity; if none has, nothing changes.
    pub fn ball_moved(&mut self, entity: Entity, position: Point) -> (found: bool)
        requires
            old(self)@.wf(),
        ensures
            found == old(self)@.has_ball(entity),
            final(self)@ == old(self)@.ball_moved(entity, position),
            final(self)@.wf(),
    {
        let mut found = false;
        let mut i: usize = 0;
        while i < self.balls.len()
            invariant
                i <= self.balls.len(),
                self.balls@.len() == old(self).balls@.len(),
                forall|k: int|
                    0 <= k < i ==> self.balls@[k] == placed(old(self).balls@[k], entity, position),
                forall|k: int|
                    i <= k < self.balls@.len() ==> self.balls@[k] == old(self).balls@[k],
                found <==> exists|k: int|
                    0 <= k < i && (#[trigger] old(self).balls@[k]).entity == entity,
                self.state == old(self).state,
                self.next_entity == old(self).next_entity,
                self.paddle_size == old(self).paddle_size,
                self.menu == old(self).menu,
                self.paddles == old(self).paddles,
                self.borders == old(self).borders,
                self.blocks == old(self).blocks,
            decreases self.balls.len() - i,
        {
            let mut ball = self.balls[i];
            if ball.entity == entity {
                ball.position = position;
                found = true;
                self.balls.set(i, ball);
            }
            i += 1;
        }
        proof {
            assert(self.balls@ =~= old(self).balls@.map_values(placing(entity, position)));
        }
        found
    }

    /// Whether enough identities are left to replace the balls that have
    /// dropped below the field of this window.
    pub fn can_replace_balls(&self, window: WindowSize) -> (enough: bool)
        ensures
            enough == (self@.entities_left() >= self@.balls_lost(window)),
    {
        let mut lost: usize = 0;
        let mut i: usize = 0;
        while i < self.balls.len()
            invariant
                i <= self.balls.len(),
                lost == i - self.balls@.take(i as int).filter(in_play(window)).len(),
                lost <= i,
            decreases self.balls.len() - i,
        {
            proof {
                let seen = self.balls@.take(i as int);
                assert(self.balls@.take(i + 1) =~= seen.push(self.balls@[i as int]));
                seen.lemma_filter_push(self.balls@[i as int], in_play(window));
            }
            if is_below_field(self.balls[i].position, window) {
                lost += 1;
            }
            i += 1;
        }
        proof {
            assert(self.balls@.take(i as int) =~= self.balls@);
        }
        self.can_spawn(lost as u64)
    }

    /// Replaces the balls that were lost: every ball whose lower edge has
    /// dropped below the bottom of the field is taken away, and for each a
    /// new ball is launched, so that as many balls are in the game after as
    /// before. Fails, and changes nothing, when there is no window.
    pub fn check_ball_death(&mut self, window: Option<WindowSize>) -> (result: Result<
        (),
        GameError,
    >)
        requires
            old(self)@.wf(),
            window is Some ==> old(self)@.entities_left() >= old(self)@.balls_lost(window->Some_0),
        ensures
            result == need_window(window),
            final(self)@ == old(self)@.check_ball_death(window),
            final(self)@.wf(),
            final(self)@.balls.len() == old(self)@.balls.len(),
            window is Some ==> forall|i: int|
                0 <= i < old(self)@.balls.len() && below_field(
                    (#[trigger] old(self)@.balls[i]).position,
                    window->Some_0,
                ) ==> !final(self)@.has_ball(old(self)@.balls[i].entity),
    {
        let size = match window {
            Some(size) => size,
            None => {
                return Err(GameError::MissingWindow);
            },
        };
        let first: u64 = self.next_entity;
        let mut kept: Vec<Ball> = Vec::new();
        let mut i: usize = 0;
        while i < self.balls.len()
            invariant
                i <= self.balls.len(),
                *self == *old(self),
                kept@ == self.balls@.take(i as int).filter(in_play(size)),
                kept@.len() <= i,
            decreases self.balls.len() - i,
        {
            proof {
                let seen = self.balls@.take(i as int);
                assert(self.balls@.take(i + 1) =~= seen.push(self.balls@[i as int]));
                seen.lemma_filter_push(self.balls@[i as int], in_play(size));
            }
            let ball = self.balls[i];
            if !is_below_field(ball.position, size) {
                kept.push(ball);
            }
            i += 1;
        }
        proof {
            assert(self.balls@.take(i as int) =~= self.balls@);
            lemma_filter_keeps_identities(self.balls@, in_play(size), |ball: Ball| ball.entity);
        }
        let lost: usize = self.balls.len() - kept.len();
        let start = get_ball_start(size);
        let ghost survivors = kept@;
        let mut launched_so_far: usize = 0;
        while launched_so_far < lost
            invariant
                launched_so_far <= lost,
                first + lost <= u64::MAX,
                start == ball_start(size),
                kept@ == survivors + launched(launched_so_far as nat, size, first),
            decreases lost - launched_so_far,
        {
            kept.push(Ball { entity: Entity(first + launched_so_far as u64), position: start });
            launched_so_far += 1;
        }
        self.balls = kept;
        self.next_entity = first + lost as u64;
        proof {
            let after = self@;
            assert forall|i: int|
                0 <= i < old(self)@.balls.len() && below_field(
                    (#[trigger] old(self)@.balls[i]).position,
                    size,
                ) implies !after.has_ball(old(self)@.balls[i].entity) by {
                let gone = old(self)@.balls[i];
                assert forall|k: int| 0 <= k < after.balls.len() implies (
                #[trigger] after.balls[k]).entity != gone.entity by {
                    if k < survivors.len() {
                        old(self)@.balls.lemma_filter_pred(in_play(size), k);
                        assert(old(self)@.balls.contains(survivors[k]));
                        let j = choose|j: int|
                            0 <= j < old(self)@.balls.len() && old(self)@.balls[j] == survivors[k];
                        assert(j != i);
                    }
                }
            }
        }
        Ok(())
    }
}

/// The direction a ball is launched in, before it is scaled to
/// [`MAX_SPEED`]: half a unit to the right for every unit upwards.
pub fn initial_direction() -> (direction: Point)
    ensures
        direction.x == UNIT / 2,
        direction.y == UNIT,
{
    Point { x: UNIT / 2, y: UNIT }
}

/// The colour the ball is drawn in: light gray.
pub fn get_ball_color() -> (color: Color)
    ensures
        color == (Color::LinearRgb { red: 900, green: 900, blue: 900 }),
{
    Color::LinearRgb { red: 900, green: 900, blue: 900 }
}

} // verus!
