//! The arena: three walls that bound the play field.

use vstd::prelude::*;
use crate::entity::Entity;
use crate::error::{need_window, GameError};
use crate::game::{Game, GameView};
use crate::units::{Color, Point, Size, WindowSize, UNIT};

pub mod block;

verus! {

/// Thickness of every wall.
pub const BORDER_THICKNESS: i64 = 5 * UNIT;

/// How many walls the arena has.
pub const BORDERS: usize = 3;

/// Which edge of the field a wall runs along. The bottom is open.
#[derive(Debug, Clone, Copy, PartialEq, Eq, Hash, Structural)]
pub enum Side {
    Top,
    Left,
    Right,
}

/// One wall of the arena.
#[derive(Debug, Clone, Copy, PartialEq, Eq, Structural)]
pub struct Border {
    pub entity: Entity,
    pub side: Side,
    pub position: Point,
    pub size: Size,
}

/// Centre of the wall along `side`: on the middle of that edge of the
/// window.
pub open spec fn border_position(side: Side, window: WindowSize) -> Point {
    match side {
        Side::Top => Point { x: 0, y: window.half_height() as i64 },
        Side::Left => Point { x: (-window.half_width()) as i64, y: 0 },
        Side::Right => Point { x: window.half_width() as i64, y: 0 },
    }
}

/// Extent of the wall along `side`: the top wall spans the width of the
/// window, the side walls span its height.
pub open spec fn border_size(side: Side, window: WindowSize) -> Size {
    match side {
        Side::Top => Size { width: window.width as i64, height: BORDER_THICKNESS },
        Side::Left => Size { width: BORDER_THICKNESS, height: window.height as i64 },
        Side::Right => Size { width: BORDER_THICKNESS, height: window.height as i64 },
    }
}

/// The wall along `side` of a window, under the identity `entity`.
pub open spec fn border(side: Side, window: WindowSize, entity: Entity) -> Border {
    Border {
        entity,
        side,
        position: border_position(side, window),
        size: border_size(side, window),
    }
}

/// The side of the `index`-th wall in the order the walls are built: top,
/// left, right.
pub open spec fn side_at(index: int) -> Side {
    if index == 0 {
        Side::Top
    } else if index == 1 {
        Side::Left
    } else {
        Side::Right
    }
}

/// The three walls of a window, with identities counted up from `first`.
pub open spec fn borders(window: WindowSize, first: u64) -> Seq<Border> {
    Seq::new(
        BORDERS as nat,
        |index: int| border(side_at(index), window, Entity((first + index) as u64)),
    )
}

/// Computes [`border`].
pub fn get_border(side: Side, window: WindowSize, entity: Entity) -> (wall: Border)
    ensures
        wall == border(side, window, entity),
{
    let width: i64 = window.width as i64;
    let height: i64 = window.height as i64;
    match side {
        Side::Top => Border {
            entity,
            side,
            position: Point { x: 0, y: height / 2 },
            size: Size { width, height: BORDER_THICKNESS },
        },
        Side::Left => Border {
            entity,
            side,
            position: Point { x: -(width / 2), y: 0 },
            size: Size { width: BORDER_THICKNESS, height },
        },
        Side::Right => Border {
            entity,
            side,
            position: Point { x: width / 2, y: 0 },
            size: Size { width: BORDER_THICKNESS, height },
        },
    }
}

impl GameView {
    /// The game after the walls were built: with a window, its three walls
    /// are added under the next three identities; without one, nothing
    /// changes.
    pub open spec fn load_level(self, window: Option<WindowSize>) -> GameView {
        match window {
            Some(size) => GameView {
                borders: self.borders + borders(size, self.next_entity),
                next_entity: (self.next_entity + BORDERS) as u64,
                ..self
            },
            None => self,
        }
    }

    /// The game after the walls were torn down: no wall is left.
    pub open spec fn unload_level(self) -> GameView {
        GameView { borders: Seq::empty(), ..self }
    }
}

impl Game {
    /// Builds the three walls of the arena for the given window: the top
    /// wall spans its width, the side walls span its height, each lies on
    /// the middle of its edge. Fails, and builds nothing, when there is no
    /// window.
    pub fn load_level_system(&mut self, window: Option<WindowSize>) -> (result: Result<
        (),
        GameError,
    >)
        requires
            old(self)@.wf(),
            window is Some ==> old(self)@.entities_left() >= BORDERS,
        ensures
            result == need_window(window),
            final(self)@ == old(self)@.load_level(window),
            final(self)@.wf(),
    {
        let size = match window {
            Some(size) => size,
            None => {
                return Err(GameError::MissingWindow);
            },
        };
        let first: u64 = self.next_entity;
        self.borders.push(get_border(Side::Top, size, Entity(first)));
        self.borders.push(get_border(Side::Left, size, Entity(first + 1)));
        self.borders.push(get_border(Side::Right, size, Entity(first + 2)));
        self.next_entity = first + 3;
        proof {
            assert(self.borders@ =~= old(self).borders@ + borders(size, first));
        }
        Ok(())
    }

    /// Tears down every wall of the arena.
    pub fn unload_level_system(&mut self)
        requires
            old(self)@.wf(),
        ensures
            final(self)@ == old(self)@.unload_level(),
            final(self)@.wf(),
    {
        self.borders.clear();
    }
}

/// The colour the walls are drawn in: white.
pub fn get_border_color() -> (color: Color)
    ensures
        color == (Color::LinearRgb { red: 1000, green: 1000, blue: 1000 }),
{
    Color::LinearRgb { red: 1000, green: 1000, blue: 1000 }
}

} // verus!
