//! The two paddles: who they are, where they start, how the keyboard moves
//! them and how the window holds them in.

use vstd::prelude::*;
use crate::entity::Entity;
use crate::error::{first_failure, need_window, GameError};
use crate::game::{Game, GameView};
use crate::units::{clamp, Color, Point, Size, WindowSize, MICROS_PER_SECOND, UNIT};

verus! {

/// Horizontal speed of a paddle, in length steps per second.
pub const SPEED: i64 = 512 * UNIT;

/// Height of every paddle.
pub const PADDLE_HEIGHT: i64 = 10 * UNIT;

/// Which of the two paddles.
#[derive(Debug, Clone, Copy, PartialEq, Eq, Hash, Structural)]
pub enum Player {
    First,
    Second,
}

/// One paddle on the field.
#[derive(Debug, Clone, Copy, PartialEq, Eq, Structural)]
pub struct Paddle {
    pub entity: Entity,
    pub player: Player,
    pub position: Point,
    pub size: Size,
}

/// The keys the game listens to. The four steering keys report whether they
/// are held down; `escape` reports whether it went down this frame.
#[derive(Debug, Clone, Copy, PartialEq, Eq, Structural)]
pub struct Keys {
    pub key_a: bool,
    pub key_d: bool,
    pub arrow_left: bool,
    pub arrow_right: bool,
    pub escape: bool,
}

/// The size of a paddle for a window: an eighth of its width, and the fixed
/// height.
pub open spec fn paddle_size(window: WindowSize) -> Size {
    Size { width: (window.width as int / 8) as i64, height: PADDLE_HEIGHT }
}

/// Height of the line halfway between the two paddles: seven eighths of the
/// way down from the centre of the window to its lower edge.
pub open spec fn paddle_center(window: WindowSize) -> int {
    -(7 * window.height as int / 16)
}

/// Where a paddle starts: centred, the first paddle three quarters of a
/// paddle height above [`paddle_center`], the second as far below it.
pub open spec fn paddle_start(player: Player, window: WindowSize) -> Point {
    match player {
        Player::First => Point {
            x: 0,
            y: (paddle_center(window) + 3 * PADDLE_HEIGHT as int / 4) as i64,
        },
        Player::Second => Point {
            x: 0,
            y: (paddle_center(window) - 3 * PADDLE_HEIGHT as int / 4) as i64,
        },
    }
}

/// The direction a player steers in: `1` to the right, `-1` to the left and
/// `0` when neither or both of the player's keys are held. The first player
/// steers with A and D, the second with the arrow keys.
pub open spec fn axis(player: Player, keys: Keys) -> int {
    let (left, right) = match player {
        Player::First => (keys.key_a, keys.key_d),
        Player::Second => (keys.arrow_left, keys.arrow_right),
    };
    (if right { 1int } else { 0int }) - (if left { 1int } else { 0int })
}

/// The distance a paddle covers in `delta_micros` microseconds, rounded down
/// to a whole length step.
pub open spec fn travel(delta_micros: u64) -> int {
    SPEED as int * delta_micros as int / MICROS_PER_SECOND as int
}

/// The horizontal position of a paddle after steering for one frame. A
/// position that would leave the range of `i64` stops at its end.
pub open spec fn steered(x: i64, direction: int, delta_micros: u64) -> i64 {
    clamp(x + direction * travel(delta_micros), i64::MIN as int, i64::MAX as int) as i64
}

/// The farthest a paddle centre may be from the centre of the window: half
/// the field width less half the paddle width.
pub open spec fn half_limit(window: WindowSize, paddle: Size) -> int {
    window.half_width() - paddle.width as int / 2
}

/// The colour a paddle is drawn in: blue for the first, red for the second.
pub fn get_paddle_color(player: Player) -> (color: Color)
    ensures
        color == match player {
            Player::First => (Color::LinearRgb { red: 0, green: 0, blue: 1000 }),
            Player::Second => (Color::LinearRgb { red: 1000, green: 0, blue: 0 }),
        },
{
    match player {
        Player::First => Color::LinearRgb { red: 0, green: 0, blue: 1000 },
        Player::Second => Color::LinearRgb { red: 1000, green: 0, blue: 0 },
    }
}

/// Computes [`paddle_size`].
pub fn get_paddle_size(window: WindowSize) -> (size: Size)
    ensures
        size == paddle_size(window),
{
    Size { width: (window.width / 8) as i64, height: PADDLE_HEIGHT }
}

/// Computes [`paddle_start`].
pub fn get_paddle_start(player: Player, window: WindowSize) -> (start: Point)
    ensures
        start == paddle_start(player, window),
{
    let center: i64 = -(7 * (window.height as i64) / 16);
    let offset: i64 = 3 * PADDLE_HEIGHT / 4;
    match player {
        Player::First => Point { x: 0, y: center + offset },
        Player::Second => Point { x: 0, y: center - offset },
    }
}

/// Computes [`axis`].
pub fn get_axis(player: Player, keys: Keys) -> (direction: i8)
    ensures
        direction == axis(player, keys),
{
    let (left, right) = match player {
        Player::First => (keys.key_a, keys.key_d),
        Player::Second => (keys.arrow_left, keys.arrow_right),
    };
    let to_right: i8 = if right { 1 } else { 0 };
    let to_left: i8 = if left { 1 } else { 0 };
    to_right - to_left
}

/// Computes [`steered`].
pub fn steer(x: i64, direction: i8, delta_micros: u64) -> (moved: i64)
    requires
        -1 <= direction <= 1,
    ensures
        moved == steered(x, direction as int, delta_micros),
{
    let step: i128 = (SPEED as i128) * (delta_micros as i128) / (MICROS_PER_SECOND as i128);
    proof {
        let d = direction as int;
        let t = travel(delta_micros);
        assert(step == t);
        assert(d * t == if d > 0 { t } else if d < 0 { -t } else { 0 }) by (nonlinear_arith)
            requires
                -1 <= d <= 1,
        ;
    }
    let target: i128 = if direction > 0 {
        x as i128 + step
    } else if direction < 0 {
        x as i128 - step
    } else {
        x as i128
    };
    if target < i64::MIN as i128 {
        i64::MIN
    } else if target > i64::MAX as i128 {
        i64::MAX
    } else {
        target as i64
    }
}

/// A paddle after its player steered it for one frame.
pub open spec fn steered_paddle(paddle: Paddle, keys: Keys, delta_micros: u64) -> Paddle {
    Paddle {
        position: Point {
            x: steered(paddle.position.x, axis(paddle.player, keys), delta_micros),
            y: paddle.position.y,
        },
        ..paddle
    }
}

/// [`steered_paddle`] as a function of the paddle.
pub open spec fn steering(keys: Keys, delta_micros: u64) -> spec_fn(Paddle) -> Paddle {
    |paddle: Paddle| steered_paddle(paddle, keys, delta_micros)
}

/// A paddle moved back to within `limit` of the centre of the window.
pub open spec fn held_paddle(paddle: Paddle, limit: int) -> Paddle {
    Paddle {
        position: Point {
            x: clamp(paddle.position.x as int, -limit, limit) as i64,
            y: paddle.position.y,
        },
        ..paddle
    }
}

/// [`held_paddle`] as a function of the paddle.
pub open spec fn holding(limit: int) -> spec_fn(Paddle) -> Paddle {
    |paddle: Paddle| held_paddle(paddle, limit)
}

impl GameView {
    /// Whether this player has a paddle on the field.
    pub open spec fn has_player(self, player: Player) -> bool {
        exists|i: int|
            0 <= i < self.paddles.len() && (#[trigger] self.paddles[i]).player == player
    }

    /// What an attempt to spawn a paddle reports: a player who has a paddle
    /// gets no second one, and the window must be there.
    pub open spec fn spawn_paddle_result(self, player: Player, window: Option<WindowSize>) -> Result<
        (),
        GameError,
    > {
        if self.has_player(player) {
            Err(GameError::DuplicatePlayer(player))
        } else {
            need_window(window)
        }
    }

    /// The game after an attempt to spawn a paddle: where the attempt
    /// succeeds, the paddle stands at its start under the next identity;
    /// where it fails, nothing changes.
    pub open spec fn spawn_paddle(self, player: Player, window: Option<WindowSize>) -> GameView {
        if self.spawn_paddle_result(player, window) is Ok {
            GameView {
                paddles: self.paddles.push(
                    Paddle {
                        entity: Entity(self.next_entity),
                        player,
                        position: paddle_start(player, window->Some_0),
                        size: self.paddle_size,
                    },
                ),
                next_entity: (self.next_entity + 1) as u64,
                ..self
            }
        } else {
            self
        }
    }

    /// The game after both paddles were asked for, the first player's
    /// before the second's.
    pub open spec fn player_spawn(self, window: Option<WindowSize>) -> GameView {
        self.spawn_paddle(Player::First, window).spawn_paddle(Player::Second, window)
    }

    /// What asking for both paddles reports: the first failure, if any.
    pub open spec fn player_spawn_result(self, window: Option<WindowSize>) -> Result<
        (),
        GameError,
    > {
        first_failure(
            self.spawn_paddle_result(Player::First, window),
            self.spawn_paddle(Player::First, window).spawn_paddle_result(Player::Second, window),
        )
    }

    /// The game after the paddles were taken off the field: none is left.
    pub open spec fn player_despawn(self) -> GameView {
        GameView { paddles: Seq::empty(), ..self }
    }

    /// The game after every paddle was steered for one frame.
    pub open spec fn player_movement(self, keys: Keys, delta_micros: u64) -> GameView {
        GameView { paddles: self.paddles.map_values(steering(keys, delta_micros)), ..self }
    }

    /// The farthest a paddle centre may be from the centre of this window.
    pub open spec fn paddle_limit(self, window: WindowSize) -> int {
        half_limit(window, self.paddle_size)
    }

    /// The game after every paddle was moved back inside the window; without
    /// a window, nothing changes.
    pub open spec fn handle_border_collision(self, window: Option<WindowSize>) -> GameView {
        match window {
            Some(size) => GameView {
                paddles: self.paddles.map_values(holding(self.paddle_limit(size))),
                ..self
            },
            None => self,
        }
    }

    /// Whether every paddle centre lies within the limits of this window.
    pub open spec fn paddles_within(self, window: WindowSize) -> bool {
        forall|i: int|
            0 <= i < self.paddles.len() ==> -self.paddle_limit(window) <= (
            #[trigger] self.paddles[i]).position.x <= self.paddle_limit(window)
    }
}

impl Game {
    /// Whether this player has a paddle on the field.
    pub fn is_player(&self, player: Player) -> (found: bool)
        ensures
            found == self@.has_player(player),
    {
        let mut i: usize = 0;
        while i < self.paddles.len()
            invariant
                i <= self.paddles.len(),
                forall|k: int| 0 <= k < i ==> (#[trigger] self.paddles@[k]).player != player,
            decreases self.paddles.len() - i,
        {
            if self.paddles[i].player == player {
                assert(self@.paddles[i as int].player == player);
                return true;
            }
            i += 1;
        }
        false
    }

    /// Spawns the paddle of one player at its start, sized as fixed at
    /// start-up. Fails, and spawns nothing, when the player has a paddle
    /// already or, failing that, when there is no window.
    pub fn spawn_paddle_observer(&mut self, player: Player, window: Option<WindowSize>) -> (result:
        Result<(), GameError>)
        requires
            old(self)@.wf(),
            old(self)@.spawn_paddle_result(player, window) is Ok ==> old(self)@.entities_left()
                >= 1,
        ensures
            result == old(self)@.spawn_paddle_result(player, window),
            final(self)@ == old(self)@.spawn_paddle(player, window),
            final(self)@.wf(),
    {
        if self.is_player(player) {
            return Err(GameError::DuplicatePlayer(player));
        }
        let size = match window {
            Some(size) => size,
            None => {
                return Err(GameError::MissingWindow);
            },
        };
        let entity = Entity(self.next_entity);
        self.paddles.push(
            Paddle { entity, player, position: get_paddle_start(player, size), size: self.paddle_size },
        );
        self.next_entity = self.next_entity + 1;
        Ok(())
    }

    /// Asks for the paddle of the first player and then for that of the
    /// second. Both are attempted whatever the first attempt reports; the
    /// first failure is handed back.
    pub fn player_spawn_system(&mut self, window: Option<WindowSize>) -> (result: Result<
        (),
        GameError,
    >)
        requires
            old(self)@.wf(),
            window is Some ==> old(self)@.entities_left() >= 2,
        ensures
            result == old(self)@.player_spawn_result(window),
            final(self)@ == old(self)@.player_spawn(window),
            final(self)@.wf(),
    {
        let first = self.spawn_paddle_observer(Player::First, window);
        let second = self.spawn_paddle_observer(Player::Second, window);
        match first {
            Err(error) => Err(error),
            Ok(()) => second,
        }
    }

    /// Takes every paddle off the field.
    pub fn player_despawn_system(&mut self)
        requires
            old(self)@.wf(),
        ensures
            final(self)@ == old(self)@.player_despawn(),
            final(self)@.wf(),
    {
        self.paddles.clear();
    }

    /// Steers every paddle for one frame: a paddle whose player holds
    /// exactly one of the two steering keys moves that way by the distance
    /// its speed covers in the elapsed time; no paddle moves up or down.
    pub fn player_movement_system(&mut self, keys: Keys, delta_micros: u64)
        requires
            old(self)@.wf(),
        ensures
            final(self)@ == old(self)@.player_movement(keys, delta_micros),
            final(self)@.wf(),
    {
        let mut i: usize = 0;
        while i < self.paddles.len()
            invariant
                i <= self.paddles.len(),
                self.paddles@.len() == old(self).paddles@.len(),
                forall|k: int|
                    0 <= k < i ==> self.paddles@[k] == steered_paddle(
                        old(self).paddles@[k],
                        keys,
                        delta_micros,
                    ),
                forall|k: int|
                    i <= k < self.paddles@.len() ==> self.paddles@[k] == old(self).paddles@[k],
                self.state == old(self).state,
                self.next_entity == old(self).next_entity,
                self.paddle_size == old(self).paddle_size,
                self.menu == old(self).menu,
                self.balls == old(self).balls,
                self.borders == old(self).borders,
                self.blocks == old(self).blocks,
            decreases self.paddles.len() - i,
        {
            let mut paddle = self.paddles[i];
            let direction = get_axis(paddle.player, keys);
            paddle.position.x = steer(paddle.position.x, direction, delta_micros);
            self.paddles.set(i, paddle);
            i += 1;
        }
        proof {
            assert(self.paddles@ =~= old(self).paddles@.map_values(steering(keys, delta_micros)));
        }
    }

    /// Moves every paddle back inside the window: the centre of a paddle is
    /// held within half the field width less half the paddle width of the
    /// centre of the window. Fails, and moves nothing, when there is no
    /// window. The window must be at least as wide as a paddle while a
    /// paddle is on the field.
    pub fn handle_border_collision_system(&mut self, window: Option<WindowSize>) -> (result:
        Result<(), GameError>)
        requires
            old(self)@.wf(),
            window is Some && old(self)@.paddles.len() > 0 ==> old(self)@.paddle_limit(
                window->Some_0,
            ) >= 0,
        ensures
            result == need_window(window),
            final(self)@ == old(self)@.handle_border_collision(window),
            final(self)@.wf(),
            window is Some ==> final(self)@.paddles_within(window->Some_0),
    {
        let size = match window {
            Some(size) => size,
            None => {
                return Err(GameError::MissingWindow);
            },
        };
        let limit: i64 = (size.width as i64) / 2 - self.paddle_size.width / 2;
        let ghost bound = self@.paddle_limit(size);
        let mut i: usize = 0;
        while i < self.paddles.len()
            invariant
                i <= self.paddles.len(),
                self.paddles@.len() == old(self).paddles@.len(),
                limit == bound,
                self.paddles@.len() > 0 ==> bound >= 0,
                bound == old(self)@.paddle_limit(size),
                forall|k: int|
                    0 <= k < i ==> self.paddles@[k] == held_paddle(old(self).paddles@[k], bound),
                forall|k: int|
                    i <= k < self.paddles@.len() ==> self.paddles@[k] == old(self).paddles@[k],
                self.state == old(self).state,
                self.next_entity == old(self).next_entity,
                self.paddle_size == old(self).paddle_size,
                self.menu == old(self).menu,
                self.balls == old(self).balls,
                self.borders == old(self).borders,
                self.blocks == old(self).blocks,
            decreases self.paddles.len() - i,
        {
            let mut paddle = self.paddles[i];
            if paddle.position.x < -limit {
                paddle.position.x = -limit;
            } else if paddle.position.x > limit {
                paddle.position.x = limit;
            }
            self.paddles.set(i, paddle);
            i += 1;
        }
        proof {
            assert(self.paddles@ =~= old(self).paddles@.map_values(holding(bound)));
        }
        Ok(())
    }
}

} // verus!
