use breakout::entity::Entity;
use breakout::error::GameError;
use breakout::game::{Game, StopGame};
use breakout::units::{Point, Size, WindowSize};
use breakout::world::block::{Block, BlockBreakEvent, CollisionStarted};
use breakout::world::{Border, Side};

const WINDOW: WindowSize = WindowSize { width: 1_280_000, height: 720_000 };

fn started() -> Game {
    Game::startup(Some(WINDOW)).unwrap()
}

/// A game with the ball (0), the three walls (1 to 3), the bricks (4 to 219) and the paddles
/// (220 and 221).
fn on_the_field() -> Game {
    let mut game = started();
    assert_eq!(game.load_level_system(Some(WINDOW)), Ok(()));
    assert_eq!(game.load_blocks_system(Some(WINDOW)), Ok(()));
    assert_eq!(game.player_spawn_system(Some(WINDOW)), Ok(()));
    game
}

fn entities(blocks: &[Block]) -> Vec<u64> {
    blocks.iter().map(|block| block.entity.0).collect()
}

#[test]
fn the_level_has_three_walls() {
    let mut game = started();
    assert_eq!(game.load_level_system(Some(WINDOW)), Ok(()));
    assert_eq!(
        game.borders,
        vec![
            Border {
                entity: Entity(1),
                side: Side::Top,
                position: Point { x: 0, y: 360_000 },
                size: Size { width: 1_280_000, height: 5_000 },
            },
            Border {
                entity: Entity(2),
                side: Side::Left,
                position: Point { x: -640_000, y: 0 },
                size: Size { width: 5_000, height: 720_000 },
            },
            Border {
                entity: Entity(3),
                side: Side::Right,
                position: Point { x: 640_000, y: 0 },
                size: Size { width: 5_000, height: 720_000 },
            },
        ]
    );
    assert_eq!(game.next_entity, 4);
    game.unload_level_system();
    assert!(game.borders.is_empty());
    assert_eq!(game.next_entity, 4);
}

#[test]
fn no_level_without_a_window() {
    let mut game = started();
    assert_eq!(game.load_level_system(None), Err(GameError::MissingWindow));
    assert!(game.borders.is_empty());
    assert_eq!(game.load_blocks_system(None), Err(GameError::MissingWindow));
    assert!(game.blocks.is_empty());
    assert_eq!(game.next_entity, 1);
}

#[test]
fn the_field_has_eighteen_rows_of_twelve_bricks() {
    let mut game = started();
    assert_eq!(game.load_blocks_system(Some(WINDOW)), Ok(()));
    assert_eq!(game.blocks.len(), 216);
    assert_eq!(game.next_entity, 217);
    for (index, block) in game.blocks.iter().enumerate() {
        assert_eq!(block.entity, Entity(1 + index as u64));
        assert_eq!(block.row, index / 12);
        assert_eq!(block.column, index % 12);
        assert_eq!(block.size, Size { width: 101_666, height: 20_000 });
        assert_eq!(block.position.x, -586_667 + 106_666 * (index % 12) as i64);
        assert_eq!(block.position.y, 347_500 - 25_000 * (index / 12) as i64);
    }
    game.unload_blocks_system();
    assert!(game.blocks.is_empty());
}

#[test]
fn a_ball_touching_a_brick_breaks_it_in_either_order() {
    let game = on_the_field();
    assert_eq!(
        game.get_broken_by(CollisionStarted(Entity(0), Entity(4))),
        Some(BlockBreakEvent(Entity(4)))
    );
    assert_eq!(
        game.get_broken_by(CollisionStarted(Entity(219), Entity(0))),
        Some(BlockBreakEvent(Entity(219)))
    );
}

#[test]
fn other_contacts_break_nothing() {
    let game = on_the_field();
    // ball and wall, ball and paddle, brick and brick, brick and wall, ball and itself
    for (a, b) in [(0, 1), (220, 0), (4, 5), (4, 1), (0, 0), (4, 4)] {
        assert_eq!(game.get_broken_by(CollisionStarted(Entity(a), Entity(b))), None);
    }
    // bodies that do not exist
    assert_eq!(game.get_broken_by(CollisionStarted(Entity(0), Entity(222))), None);
    assert_eq!(game.get_broken_by(CollisionStarted(Entity(999), Entity(4))), None);
}

#[test]
fn contacts_that_do_not_count_are_passed_over() {
    let game = on_the_field();
    let contacts = vec![
        CollisionStarted(Entity(0), Entity(220)),
        CollisionStarted(Entity(0), Entity(10)),
        CollisionStarted(Entity(1), Entity(0)),
        CollisionStarted(Entity(11), Entity(0)),
        CollisionStarted(Entity(0), Entity(10)),
    ];
    assert_eq!(
        game.trigger_ball_break_event_system(&contacts),
        vec![
            BlockBreakEvent(Entity(10)),
            BlockBreakEvent(Entity(11)),
            BlockBreakEvent(Entity(10)),
        ]
    );
    assert_eq!(game.trigger_ball_break_event_system(&vec![]), vec![]);
}

#[test]
fn breaking_removes_exactly_the_named_brick() {
    let mut game = on_the_field();
    let before = game.clone();
    game.break_block_observer(BlockBreakEvent(Entity(100)));
    assert_eq!(game.blocks.len(), 215);
    assert!(!game.is_block(Entity(100)));
    let mut expected = before.blocks.clone();
    expected.remove(96);
    assert_eq!(game.blocks, expected);
    assert_eq!(game.balls, before.balls);
    assert_eq!(game.paddles, before.paddles);
    assert_eq!(game.borders, before.borders);
    assert_eq!(game.next_entity, before.next_entity);
}

#[test]
fn breaking_what_is_no_brick_changes_nothing() {
    let mut game = on_the_field();
    let before = game.clone();
    for entity in [0, 1, 220, 221, 222, 5_000] {
        game.break_block_observer(BlockBreakEvent(Entity(entity)));
    }
    assert_eq!(game.blocks, before.blocks);
    assert_eq!(game.balls, before.balls);
    assert_eq!(game.paddles, before.paddles);
    assert_eq!(game.borders, before.borders);
}

#[test]
fn several_bricks_break_in_one_run() {
    let mut game = on_the_field();
    game.break_blocks(&vec![
        BlockBreakEvent(Entity(6)),
        BlockBreakEvent(Entity(4)),
        BlockBreakEvent(Entity(6)),
    ]);
    assert_eq!(game.blocks.len(), 214);
    assert_eq!(entities(&game.blocks[..3]), vec![5, 7, 8]);
}

#[test]
fn the_win_is_found_when_no_brick_is_left() {
    let mut game = on_the_field();
    assert_eq!(game.check_for_win_system(), None);
    game.blocks.truncate(1);
    assert_eq!(game.check_for_win_system(), None);
    game.break_block_observer(BlockBreakEvent(Entity(4)));
    assert_eq!(game.check_for_win_system(), Some(StopGame));
}
