//! What holds of the game across its rules.

use vstd::prelude::*;
use crate::app_state::AppState;
use crate::ball::{ball_start, below_field, in_play, launched, Ball};
use crate::entity::Entity;
use crate::game::GameView;
use crate::player::{Keys, Player};
use crate::units::WindowSize;
use crate::world::block::{other_than, Block, BlockBreakEvent, CollisionStarted, COLUMNS, ROWS};
use crate::world::BORDERS;

verus! {

impl GameView {
    /// The game after one round trip: back to the menu and onto the field
    /// again.
    pub open spec fn cycle(self, window: Option<WindowSize>) -> GameView {
        self.request_transition(AppState::MainMenu, None).request_transition(
            AppState::InGame,
            window,
        )
    }

    /// The game after `count` round trips.
    pub open spec fn cycles(self, count: nat, window: Option<WindowSize>) -> GameView
        decreases count,
    {
        if count == 0 {
            self
        } else {
            self.cycles((count - 1) as nat, window).cycle(window)
        }
    }

    /// Whether some contact of a tick breaks the brick of this identity.
    pub open spec fn hit(self, contacts: Seq<CollisionStarted>, entity: Entity) -> bool {
        exists|i: int|
            0 <= i < contacts.len() && self.broken_by(#[trigger] contacts[i]) == Some(
                BlockBreakEvent(entity),
            )
    }

    /// The test that keeps the bricks that no contact of a tick breaks.
    pub open spec fn spared(self, contacts: Seq<CollisionStarted>) -> spec_fn(Block) -> bool {
        |block: Block| !self.hit(contacts, block.entity)
    }

    /// Whether two games hold as many paddles, balls, walls and bricks as
    /// each other.
    pub open spec fn same_counts(self, other: GameView) -> bool {
        &&& self.paddles.len() == other.paddles.len()
        &&& self.balls.len() == other.balls.len()
        &&& self.borders.len() == other.borders.len()
        &&& self.blocks.len() == other.blocks.len()
    }
}

/// However long a frame lasts and whatever keys are held, once the paddles
/// have been steered and then held inside the window, the centre of every
/// paddle lies within half the field width less half the paddle width of
/// the centre of the window. A window narrower than a paddle that is out
/// leaves no such place, and is left out.
pub proof fn law_paddles_stay_inside(
    game: GameView,
    keys: Keys,
    delta_micros: u64,
    window: WindowSize,
)
    requires
        game.paddles.len() > 0 ==> game.paddle_limit(window) >= 0,
    ensures
        game.player_movement(keys, delta_micros).handle_border_collision(
            Some(window),
        ).paddles_within(window),
{
}

/// Entering the field from the menu, with a window, leaves the balls as
/// they were and puts on the field exactly two paddles, the first player's
/// above the second's, three walls and the full grid of bricks.
pub proof fn law_field_is_set(game: GameView, window: WindowSize)
    requires
        game.consistent(),
        game.state == AppState::MainMenu,
    ensures
        ({
            let field = game.request_transition(AppState::InGame, Some(window));
            &&& field.state == AppState::InGame
            &&& field.balls == game.balls
            &&& field.paddles.len() == 2
            &&& field.paddles[0].player == Player::First
            &&& field.paddles[1].player == Player::Second
            &&& field.paddles[0].position.y > field.paddles[1].position.y
            &&& field.borders.len() == BORDERS
            &&& field.blocks.len() == ROWS * COLUMNS
            &&& field.blocks.len() == 216
        }),
{
    let bare = GameView { state: AppState::InGame, ..game }.main_menu_cleanup().load_level(
        Some(window),
    ).load_blocks(Some(window));
    assert(!bare.has_player(Player::First));
    let one = bare.spawn_paddle(Player::First, Some(window));
    assert(one.paddles.len() == 1);
    assert(!one.has_player(Player::Second)) by {
        assert forall|i: int| 0 <= i < one.paddles.len() implies (
        #[trigger] one.paddles[i]).player != Player::Second by {}
    }
}

/// The first time the field is entered after the process has started, with
/// a window both times, there is exactly one ball, beside the two paddles,
/// three walls and 216 bricks.
pub proof fn law_first_start(at_startup: WindowSize, at_start: WindowSize)
    ensures
        ({
            let field = GameView::startup(at_startup).request_transition(
                AppState::InGame,
                Some(at_start),
            );
            &&& field.balls.len() == 1
            &&& field.paddles.len() == 2
            &&& field.paddles[0].player == Player::First
            &&& field.paddles[1].player == Player::Second
            &&& field.paddles[0].position.y > field.paddles[1].position.y
            &&& field.borders.len() == 3
            &&& field.blocks.len() == 216
        }),
{
    let game = GameView::startup(at_startup);
    assert(game.consistent());
    law_field_is_set(game, at_start);
}

/// Filtering with a test that every member passes changes nothing.
proof fn lemma_filter_all<T>(all: Seq<T>, keep: spec_fn(T) -> bool)
    requires
        forall|i: int| 0 <= i < all.len() ==> keep(#[trigger] all[i]),
    ensures
        all.filter(keep) == all,
    decreases all.len(),
{
    reveal(Seq::filter);
    if all.len() > 0 {
        lemma_filter_all(all.drop_last(), keep);
        assert(all.drop_last().push(all.last()) =~= all);
    }
}

/// Among bricks with identities of their own, keeping all but the identity
/// of one brick removes that brick and no other.
proof fn lemma_filter_removes_one(blocks: Seq<Block>, index: int)
    requires
        0 <= index < blocks.len(),
        forall|i: int, j: int|
            0 <= i < j < blocks.len() ==> (#[trigger] blocks[i]).entity != (
            #[trigger] blocks[j]).entity,
    ensures
        blocks.filter(other_than(blocks[index].entity)) == blocks.remove(index),
    decreases blocks.len(),
{
    reveal(Seq::filter);
    let keep = other_than(blocks[index].entity);
    let earlier = blocks.drop_last();
    if index == blocks.len() - 1 {
        lemma_filter_all(earlier, keep);
        assert(blocks.remove(index) =~= earlier);
    } else {
        lemma_filter_removes_one(earlier, index);
        assert(earlier[index] == blocks[index]);
        assert(earlier.remove(index).push(blocks.last()) =~= blocks.remove(index));
    }
}

/// A tick that reports one contact, between a live ball and a live brick in
/// either order, removes exactly that brick: every other brick stays, in
/// its place in the field.
pub proof fn law_contact_breaks_one_block(
    game: GameView,
    ball: int,
    block: int,
    contact: CollisionStarted,
)
    requires
        game.wf(),
        0 <= ball < game.balls.len(),
        0 <= block < game.blocks.len(),
        contact == CollisionStarted(game.balls[ball].entity, game.blocks[block].entity)
            || contact == CollisionStarted(game.blocks[block].entity, game.balls[ball].entity),
    ensures
        game.break_events(seq![contact]) == seq![BlockBreakEvent(game.blocks[block].entity)],
        game.after_contacts(seq![contact]).blocks == game.blocks.remove(block),
        game.after_contacts(seq![contact]) == (GameView {
            blocks: game.blocks.remove(block),
            ..game
        }),
{
    let hit = game.blocks[block].entity;
    let event = BlockBreakEvent(hit);
    assert(game.has_ball(game.balls[ball].entity));
    assert(game.has_block(hit));
    assert(!game.has_ball(hit));
    assert(game.breaking()(contact) == Some(event));
    Seq::lemma_filter_map_singleton(contact, game.breaking());
    assert(game.break_events(seq![contact]) =~= seq![event]);
    assert(seq![event].drop_last() =~= Seq::<BlockBreakEvent>::empty());
    assert(game.break_blocks(seq![event].drop_last()) == game);
    assert(game.break_blocks(seq![event]) == game.break_block(event));
    lemma_filter_removes_one(game.blocks, block);
}

/// Whether some break request of a run names this identity.
spec fn named(events: Seq<BlockBreakEvent>, entity: Entity) -> bool {
    exists|i: int| 0 <= i < events.len() && #[trigger] events[i] == BlockBreakEvent(entity)
}

/// Filtering twice is filtering once with both tests.
proof fn lemma_filter_twice(
    blocks: Seq<Block>,
    first: spec_fn(Block) -> bool,
    second: spec_fn(Block) -> bool,
    both: spec_fn(Block) -> bool,
)
    requires
        forall|i: int|
            0 <= i < blocks.len() ==> both(#[trigger] blocks[i]) == (first(blocks[i]) && second(
                blocks[i],
            )),
    ensures
        blocks.filter(first).filter(second) == blocks.filter(both),
    decreases blocks.len(),
{
    reveal(Seq::filter);
    if blocks.len() > 0 {
        let earlier = blocks.drop_last();
        lemma_filter_twice(earlier, first, second, both);
        if first(blocks.last()) {
            earlier.filter(first).lemma_filter_push(blocks.last(), second);
        }
    }
}

/// A run of break requests leaves exactly the bricks that none of them
/// names.
proof fn lemma_break_blocks_keeps_unnamed(
    game: GameView,
    events: Seq<BlockBreakEvent>,
    unnamed: spec_fn(Block) -> bool,
)
    requires
        forall|i: int|
            0 <= i < game.blocks.len() ==> unnamed(#[trigger] game.blocks[i]) == !named(
                events,
                game.blocks[i].entity,
            ),
    ensures
        game.break_blocks(events).blocks == game.blocks.filter(unnamed),
    decreases events.len(),
{
    if events.len() == 0 {
        lemma_filter_all(game.blocks, unnamed);
    } else {
        let earlier = events.drop_last();
        let unnamed_earlier = |block: Block| !named(earlier, block.entity);
        lemma_break_blocks_keeps_unnamed(game, earlier, unnamed_earlier);
        assert forall|i: int| 0 <= i < game.blocks.len() implies unnamed(
            #[trigger] game.blocks[i],
        ) == (unnamed_earlier(game.blocks[i]) && other_than(events.last().0)(game.blocks[i])) by {
            let entity = game.blocks[i].entity;
            if named(events, entity) {
                let k = choose|k: int|
                    0 <= k < events.len() && #[trigger] events[k] == BlockBreakEvent(entity);
                if k < events.len() - 1 {
                    assert(earlier[k] == BlockBreakEvent(entity));
                }
            }
            if named(earlier, entity) {
                let k = choose|k: int|
                    0 <= k < earlier.len() && #[trigger] earlier[k] == BlockBreakEvent(entity);
                assert(events[k] == BlockBreakEvent(entity));
            }
            if events.last().0 == entity {
                assert(events[events.len() - 1] == BlockBreakEvent(entity));
            }
        }
        lemma_filter_twice(game.blocks, unnamed_earlier, other_than(events.last().0), unnamed);
    }
}

/// A break request for a brick is among those of a tick exactly when some
/// contact of the tick breaks that brick.
proof fn lemma_named_is_hit(game: GameView, contacts: Seq<CollisionStarted>, entity: Entity)
    ensures
        named(game.break_events(contacts), entity) <==> game.hit(contacts, entity),
    decreases contacts.len(),
{
    let event = BlockBreakEvent(entity);
    let events = game.break_events(contacts);
    if contacts.len() > 0 {
        let earlier = contacts.drop_last();
        let before = game.break_events(earlier);
        lemma_named_is_hit(game, earlier, entity);
        assert(game.breaking()(contacts.last()) == game.broken_by(contacts.last()));
        if named(events, entity) {
            let k = choose|k: int| 0 <= k < events.len() && #[trigger] events[k] == event;
            if k < before.len() {
                assert(before[k] == event);
                let j = choose|j: int|
                    0 <= j < earlier.len() && game.broken_by(#[trigger] earlier[j]) == Some(event);
                assert(game.broken_by(contacts[j]) == Some(event));
            } else {
                assert(game.broken_by(contacts[contacts.len() - 1]) == Some(event));
            }
        }
        if game.hit(contacts, entity) {
            let j = choose|j: int|
                0 <= j < contacts.len() && game.broken_by(#[trigger] contacts[j]) == Some(event);
            if j < earlier.len() {
                assert(game.broken_by(earlier[j]) == Some(event));
                let k = choose|k: int| 0 <= k < before.len() && #[trigger] before[k] == event;
                assert(events[k] == event);
            } else {
                assert(events[events.len() - 1] == event);
            }
        }
    }
}

/// Whatever contacts a tick reports, the bricks left once they are served
/// are exactly the bricks that no contact between a live ball and a live
/// brick has named, in their order in the field; nothing else changes.
pub proof fn law_tick_breaks_the_hit_blocks(game: GameView, contacts: Seq<CollisionStarted>)
    ensures
        game.after_contacts(contacts) == (GameView {
            blocks: game.blocks.filter(game.spared(contacts)),
            ..game
        }),
{
    let events = game.break_events(contacts);
    assert forall|i: int| 0 <= i < game.blocks.len() implies game.spared(contacts)(
        #[trigger] game.blocks[i],
    ) == !named(events, game.blocks[i].entity) by {
        lemma_named_is_hit(game, contacts, game.blocks[i].entity);
    }
    lemma_break_blocks_keeps_unnamed(game, events, game.spared(contacts));
    lemma_break_blocks_frame(game, events);
}

/// The tick that clears the field raises the stop signal and enters the
/// menu; after it, no tick raises the signal again or changes anything, so
/// the signal fires once.
pub proof fn law_stop_fires_once(
    game: GameView,
    contacts: Seq<CollisionStarted>,
    later: Seq<CollisionStarted>,
)
    requires
        game.wins(contacts),
    ensures
        game.fixed_update(contacts).state == AppState::MainMenu,
        !game.fixed_update(contacts).wins(later),
        game.fixed_update(contacts).fixed_update(later) == game.fixed_update(contacts),
{
}

/// A tick on the field changes the mode exactly when it clears the field.
pub proof fn law_stop_only_on_win(game: GameView, contacts: Seq<CollisionStarted>)
    requires
        game.state == AppState::InGame,
    ensures
        game.fixed_update(contacts).state == AppState::MainMenu <==> game.wins(contacts),
{
    lemma_break_blocks_frame(game, game.break_events(contacts));
}

/// Serving break requests changes nothing but the bricks.
pub proof fn lemma_break_blocks_frame(game: GameView, events: Seq<BlockBreakEvent>)
    ensures
        game.break_blocks(events) == (GameView {
            blocks: game.break_blocks(events).blocks,
            ..game
        }),
    decreases events.len(),
{
    if events.len() > 0 {
        lemma_break_blocks_frame(game, events.drop_last());
    }
}

/// A game with one ball, whose lower edge has dropped below the field,
/// holds exactly one ball once lost balls were replaced: a new one, at the
/// launch point.
pub proof fn law_lost_ball_is_replaced(game: GameView, window: WindowSize)
    requires
        game.balls.len() == 1,
        below_field(game.balls[0].position, window),
    ensures
        game.check_ball_death(Some(window)).balls == seq![
            Ball { entity: Entity(game.next_entity), position: ball_start(window) },
        ],
{
    reveal_with_fuel(Seq::filter, 2);
    assert(game.balls.drop_last().len() == 0);
    assert(game.balls_in_play(window).len() == 0);
    assert(game.check_ball_death(Some(window)).balls =~= launched(1, window, game.next_entity));
}

/// A ball that is in play is left alone when lost balls are replaced.
pub proof fn law_ball_in_play_stays(game: GameView, window: WindowSize)
    requires
        game.balls.len() == 1,
        !below_field(game.balls[0].position, window),
    ensures
        game.check_ball_death(Some(window)).balls == game.balls,
        game.check_ball_death(Some(window)).next_entity == game.next_entity,
{
    lemma_filter_all(game.balls, in_play(window));
}

/// Going back to the menu and onto the field again, any number of times,
/// leaves as many paddles, balls, walls and bricks as going once.
pub proof fn law_cycles_leak_nothing(game: GameView, count: nat, window: Option<WindowSize>)
    requires
        game.state == AppState::InGame,
        count >= 1,
    ensures
        game.cycles(count, window).state == AppState::InGame,
        game.cycles(count, window).same_counts(game.cycle(window)),
    decreases count,
{
    if count == 1 {
        assert(game.cycles(0, window) == game);
        lemma_cycle_counts(game, window);
    } else {
        law_cycles_leak_nothing(game, (count - 1) as nat, window);
        lemma_cycle_counts(game.cycles((count - 1) as nat, window), window);
        lemma_cycle_counts(game, window);
    }
}

/// What one round trip leaves behind depends on the window alone.
proof fn lemma_cycle_counts(game: GameView, window: Option<WindowSize>)
    requires
        game.state == AppState::InGame,
    ensures
        game.cycle(window).state == AppState::InGame,
        game.cycle(window).balls.len() == 0,
        game.cycle(window).paddles.len() == (if window is Some { 2int } else { 0int }),
        game.cycle(window).borders.len() == (if window is Some { 3int } else { 0int }),
        game.cycle(window).blocks.len() == (if window is Some { 216int } else { 0int }),
{
    let menu = game.request_transition(AppState::MainMenu, None);
    assert(menu.state == AppState::MainMenu);
    assert(menu.paddles.len() == 0);
    if window is Some {
        let bare = GameView { state: AppState::InGame, ..menu }.main_menu_cleanup().load_level(
            window,
        ).load_blocks(window);
        assert(bare.paddles.len() == 0);
        assert(!bare.has_player(Player::First));
        let one = bare.spawn_paddle(Player::First, window);
        assert(one.paddles.len() == 1);
        assert(!one.has_player(Player::Second)) by {
            assert forall|i: int| 0 <= i < one.paddles.len() implies (
            #[trigger] one.paddles[i]).player != Player::Second by {}
        }
    }
}

} // verus!
