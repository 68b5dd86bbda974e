//! The brick field: a grid of bricks, what a contact breaks, and when the
//! field is cleared.

use vstd::prelude::*;
use crate::entity::{lemma_filter_keeps_identities, Entity};
use crate::error::{need_window, GameError};
use crate::game::{Game, GameView, StopGame};
use crate::units::{Color, Point, Size, WindowSize, UNIT};

verus! {

/// Rows of the grid, the first being the topmost.
pub const ROWS: usize = 18;

/// Bricks in a row.
pub const COLUMNS: usize = 12;

/// Gap between neighbouring bricks, and between the outer bricks and the
/// edge of the field.
pub const BLOCK_SPACE: i64 = 5 * UNIT;

/// Height of every brick.
pub const BLOCK_HEIGHT: i64 = 20 * UNIT;

/// One brick. It is alive for as long as it is in the field.
#[derive(Debug, Clone, Copy, PartialEq, Eq, Structural)]
pub struct Block {
    pub entity: Entity,
    pub row: usize,
    pub column: usize,
    pub position: Point,
    pub size: Size,
}

/// The request to break the brick of this identity.
#[derive(Debug, Clone, Copy, PartialEq, Eq, Structural)]
pub struct BlockBreakEvent(pub Entity);

/// Two bodies that began to touch during a physics tick.
#[derive(Debug, Clone, Copy, PartialEq, Eq, Structural)]
pub struct CollisionStarted(pub Entity, pub Entity);

/// Width of the cell a brick sits in: a twelfth of the window.
pub open spec fn cell_width(window: WindowSize) -> int {
    window.width as int / COLUMNS as int
}

/// Height of the cell a brick sits in.
pub open spec fn cell_height() -> int {
    BLOCK_HEIGHT as int + BLOCK_SPACE as int
}

/// Extent of every brick: its cell less the gap.
pub open spec fn block_size(window: WindowSize) -> Size {
    Size { width: (cell_width(window) - BLOCK_SPACE as int) as i64, height: BLOCK_HEIGHT }
}

/// Centre of the brick in `row` and `column`: the grid starts in the top
/// left corner of the window and each brick is centred in its cell.
pub open spec fn block_position(row: int, column: int, window: WindowSize) -> Point {
    Point {
        x: (-window.half_width() + cell_width(window) / 2 + column * cell_width(window)) as i64,
        y: (window.half_height() - cell_height() / 2 - row * cell_height()) as i64,
    }
}

/// The `index`-th brick of the grid in row-major order, with identities
/// counted up from `first`.
pub open spec fn block_at(index: int, window: WindowSize, first: u64) -> Block {
    Block {
        entity: Entity((first + index) as u64),
        row: (index / COLUMNS as int) as usize,
        column: (index % COLUMNS as int) as usize,
        position: block_position(index / COLUMNS as int, index % COLUMNS as int, window),
        size: block_size(window),
    }
}

/// The full grid of a window, row by row from the top.
pub open spec fn grid(window: WindowSize, first: u64) -> Seq<Block> {
    Seq::new((ROWS * COLUMNS) as nat, |index: int| block_at(index, window, first))
}

/// Computes [`block_at`].
pub fn get_block(index: usize, window: WindowSize, first: u64) -> (block: Block)
    requires
        index < ROWS * COLUMNS,
        first + index <= u64::MAX,
    ensures
        block == block_at(index as int, window, first),
{
    let row: usize = index / COLUMNS;
    let column: usize = index % COLUMNS;
    let cell: i64 = (window.width as i64) / (COLUMNS as i64);
    let step: i64 = BLOCK_HEIGHT + BLOCK_SPACE;
    assert(0 <= column * cell <= 11 * cell && column * cell == (column as int) * cell_width(
        window,
    )) by (nonlinear_arith)
        requires
            0 <= column <= 11,
            0 <= cell,
            cell == cell_width(window),
    ;
    assert(0 <= row * step <= 17 * step && row * step == (row as int) * cell_height())
        by (nonlinear_arith)
        requires
            0 <= row <= 17,
            0 <= step,
            step == cell_height(),
    ;
    let x: i64 = -((window.width as i64) / 2) + cell / 2 + (column as i64) * cell;
    let y: i64 = (window.height as i64) / 2 - step / 2 - (row as i64) * step;
    Block {
        entity: Entity(first + index as u64),
        row,
        column,
        position: Point { x, y },
        size: Size { width: cell - BLOCK_SPACE, height: BLOCK_HEIGHT },
    }
}

/// The test that keeps every brick but the one of identity `entity`.
pub open spec fn other_than(entity: Entity) -> spec_fn(Block) -> bool {
    |block: Block| block.entity != entity
}

impl GameView {
    /// The game after the bricks were laid: with a window, its full grid is
    /// added under the next identities; without one, nothing changes.
    pub open spec fn load_blocks(self, window: Option<WindowSize>) -> GameView {
        match window {
            Some(size) => GameView {
                blocks: self.blocks + grid(size, self.next_entity),
                next_entity: (self.next_entity + ROWS * COLUMNS) as u64,
                ..self
            },
            None => self,
        }
    }

    /// The game after the field was cleared away: no brick is left.
    pub open spec fn unload_blocks(self) -> GameView {
        GameView { blocks: Seq::empty(), ..self }
    }

    /// Whether a live ball has this identity.
    pub open spec fn has_ball(self, entity: Entity) -> bool {
        exists|i: int| 0 <= i < self.balls.len() && (#[trigger] self.balls[i]).entity == entity
    }

    /// Whether a live brick has this identity.
    pub open spec fn has_block(self, entity: Entity) -> bool {
        exists|i: int| 0 <= i < self.blocks.len() && (#[trigger] self.blocks[i]).entity == entity
    }

    /// What a contact breaks: where one of the two bodies is a live ball and
    /// the other a live brick, that brick; otherwise nothing.
    pub open spec fn broken_by(self, contact: CollisionStarted) -> Option<BlockBreakEvent> {
        if self.has_ball(contact.0) && self.has_block(contact.1) {
            Some(BlockBreakEvent(contact.1))
        } else if self.has_ball(contact.1) && self.has_block(contact.0) {
            Some(BlockBreakEvent(contact.0))
        } else {
            None
        }
    }

    /// [`GameView::broken_by`] as a function of the contact.
    pub open spec fn breaking(self) -> spec_fn(CollisionStarted) -> Option<BlockBreakEvent> {
        |contact: CollisionStarted| self.broken_by(contact)
    }

    /// The break requests that the contacts of one tick give rise to: one
    /// for each contact between a ball and a brick, in the order of the
    /// contacts. Every other contact is passed over.
    pub open spec fn break_events(self, contacts: Seq<CollisionStarted>) -> Seq<BlockBreakEvent> {
        contacts.filter_map(self.breaking())
    }

    /// The game after one break request was served: the brick of that
    /// identity is gone, every other brick stays where it was in the field.
    pub open spec fn break_block(self, event: BlockBreakEvent) -> GameView {
        GameView { blocks: self.blocks.filter(other_than(event.0)), ..self }
    }

    /// The game after a run of break requests was served in turn.
    pub open spec fn break_blocks(self, events: Seq<BlockBreakEvent>) -> GameView
        decreases events.len(),
    {
        if events.len() == 0 {
            self
        } else {
            self.break_blocks(events.drop_last()).break_block(events.last())
        }
    }

    /// Whether the field is cleared.
    pub open spec fn won(self) -> bool {
        self.blocks.len() == 0
    }
}

impl Game {
    /// Lays the grid of bricks for the given window, row by row from the
    /// top left corner. Fails, and lays nothing, when there is no window.
    pub fn load_blocks_system(&mut self, window: Option<WindowSize>) -> (result: Result<
        (),
        GameError,
    >)
        requires
            old(self)@.wf(),
            window is Some ==> old(self)@.entities_left() >= ROWS * COLUMNS,
        ensures
            result == need_window(window),
            final(self)@ == old(self)@.load_blocks(window),
            final(self)@.wf(),
    {
        let size = match window {
            Some(size) => size,
            None => {
                return Err(GameError::MissingWindow);
            },
        };
        let first: u64 = self.next_entity;
        let mut index: usize = 0;
        while index < ROWS * COLUMNS
            invariant
                index <= ROWS * COLUMNS,
                first + ROWS * COLUMNS <= u64::MAX,
                self.blocks@.len() == old(self).blocks@.len() + index,
                forall|k: int|
                    0 <= k < old(self).blocks@.len() ==> self.blocks@[k] == old(self).blocks@[k],
                forall|k: int|
                    0 <= k < index ==> self.blocks@[old(self).blocks@.len() + k] == block_at(
                        k,
                        size,
                        first,
                    ),
                self.state == old(self).state,
                self.next_entity == first,
                self.paddle_size == old(self).paddle_size,
                self.menu == old(self).menu,
                self.paddles == old(self).paddles,
                self.balls == old(self).balls,
                self.borders == old(self).borders,
            decreases ROWS * COLUMNS - index,
        {
            self.blocks.push(get_block(index, size, first));
            index += 1;
        }
        self.next_entity = first + (ROWS * COLUMNS) as u64;
        proof {
            assert(self.blocks@ =~= old(self).blocks@ + grid(size, first));
        }
        Ok(())
    }

    /// Clears away every brick that is left.
    pub fn unload_blocks_system(&mut self)
        requires
            old(self)@.wf(),
        ensures
            final(self)@ == old(self)@.unload_blocks(),
            final(self)@.wf(),
    {
        self.blocks.clear();
    }

    /// Whether a live ball has this identity.
    pub fn is_ball(&self, entity: Entity) -> (found: bool)
        ensures
            found == self@.has_ball(entity),
    {
        let mut i: usize = 0;
        while i < self.balls.len()
            invariant
                i <= self.balls.len(),
                forall|k: int| 0 <= k < i ==> (#[trigger] self.balls@[k]).entity != entity,
            decreases self.balls.len() - i,
        {
            if self.balls[i].entity == entity {
                assert(self@.balls[i as int].entity == entity);
                return true;
            }
            i += 1;
        }
        false
    }

    /// Whether a live brick has this identity.
    pub fn is_block(&self, entity: Entity) -> (found: bool)
        ensures
            found == self@.has_block(entity),
    {
        let mut i: usize = 0;
        while i < self.blocks.len()
            invariant
                i <= self.blocks.len(),
                forall|k: int| 0 <= k < i ==> (#[trigger] self.blocks@[k]).entity != entity,
            decreases self.blocks.len() - i,
        {
            if self.blocks[i].entity == entity {
                assert(self@.blocks[i as int].entity == entity);
                return true;
            }
            i += 1;
        }
        false
    }

    /// Computes [`GameView::broken_by`].
    pub fn get_broken_by(&self, contact: CollisionStarted) -> (event: Option<BlockBreakEvent>)
        ensures
            event == self@.broken_by(contact),
    {
        if self.is_ball(contact.0) && self.is_block(contact.1) {
            Some(BlockBreakEvent(contact.1))
        } else if self.is_ball(contact.1) && self.is_block(contact.0) {
            Some(BlockBreakEvent(contact.0))
        } else {
            None
        }
    }

    /// Turns the contacts of one physics tick into break requests. Each
    /// contact is judged on its own against the bodies alive before the
    /// tick, so one ball touching several bricks breaks them all.
    pub fn trigger_ball_break_event_system(&self, contacts: &Vec<CollisionStarted>) -> (events:
        Vec<BlockBreakEvent>)
        ensures
            events@ == self@.break_events(contacts@),
    {
        let mut events: Vec<BlockBreakEvent> = Vec::new();
        let mut i: usize = 0;
        while i < contacts.len()
            invariant
                i <= contacts.len(),
                events@ == self@.break_events(contacts@.take(i as int)),
            decreases contacts.len() - i,
        {
            proof {
                contacts@.lemma_filter_map_take_succ(self@.breaking(), i as int);
            }
            match self.get_broken_by(contacts[i]) {
                Some(event) => {
                    events.push(event);
                },
                None => {},
            }
            i += 1;
        }
        proof {
            assert(contacts@.take(i as int) =~= contacts@);
        }
        events
    }

    /// Serves one break request: the brick of that identity is removed.
    /// A request that names no live brick changes nothing.
    pub fn break_block_observer(&mut self, event: BlockBreakEvent)
        requires
            old(self)@.wf(),
        ensures
            final(self)@ == old(self)@.break_block(event),
            final(self)@.wf(),
    {
        let mut kept: Vec<Block> = Vec::new();
        let mut i: usize = 0;
        while i < self.blocks.len()
            invariant
                i <= self.blocks.len(),
                *self == *old(self),
                self@.wf(),
                kept@ == self.blocks@.take(i as int).filter(other_than(event.0)),
            decreases self.blocks.len() - i,
        {
            proof {
                let seen = self.blocks@.take(i as int);
                assert(self.blocks@.take(i + 1) =~= seen.push(self.blocks@[i as int]));
                seen.lemma_filter_push(self.blocks@[i as int], other_than(event.0));
            }
            let block = self.blocks[i];
            if block.entity != event.0 {
                kept.push(block);
            }
            i += 1;
        }
        proof {
            assert(self.blocks@.take(i as int) =~= self.blocks@);
            lemma_filter_keeps_identities(
                self.blocks@,
                other_than(event.0),
                |block: Block| block.entity,
            );
        }
        self.blocks = kept;
    }

    /// Serves a run of break requests in turn.
    pub fn break_blocks(&mut self, events: &Vec<BlockBreakEvent>)
        requires
            old(self)@.wf(),
        ensures
            final(self)@ == old(self)@.break_blocks(events@),
            final(self)@ == (GameView { blocks: final(self)@.blocks, ..old(self)@ }),
            final(self)@.wf(),
    {
        let mut i: usize = 0;
        while i < events.len()
            invariant
                i <= events.len(),
                self@.wf(),
                self@ == old(self)@.break_blocks(events@.take(i as int)),
                self@ == (GameView { blocks: self@.blocks, ..old(self)@ }),
            decreases events.len() - i,
        {
            proof {
                assert(events@.take(i + 1).drop_last() =~= events@.take(i as int));
            }
            self.break_block_observer(events[i]);
            i += 1;
        }
        proof {
            assert(events@.take(i as int) =~= events@);
        }
    }

    /// Raises the stop signal when no brick is left.
    pub fn check_for_win_system(&self) -> (signal: Option<StopGame>)
        ensures
            signal is Some <==> self@.won(),
    {
        if self.blocks.is_empty() {
            Some(StopGame)
        } else {
            None
        }
    }
}

/// The colour the bricks are drawn in.
pub fn get_block_color() -> (color: Color)
    ensures
        color == (Color::Hsv { hue: 319, saturation: 950, value: 900 }),
{
    Color::Hsv { hue: 319, saturation: 950, value: 900 }
}

} // verus!
