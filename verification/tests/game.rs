use breakout::app_state::AppState;
use breakout::ball::Ball;
use breakout::entity::Entity;
use breakout::error::GameError;
use breakout::game::{stop_game_on_esc_system, Game, StartGame, StopGame};
use breakout::main_menu::{AppExit, ButtonChange, ButtonKind, Interaction, MainMenu};
use breakout::player::{Keys, Player};
use breakout::schedule::FrameInput;
use breakout::units::{Color, Point, Size, WindowSize};
use breakout::world::block::CollisionStarted;

const WINDOW: WindowSize = WindowSize { width: 1_280_000, height: 720_000 };

fn started() -> Game {
    Game::startup(Some(WINDOW)).unwrap()
}

fn playing() -> Game {
    let mut game = started();
    assert_eq!(game.request_transition(AppState::InGame, Some(WINDOW)), Ok(()));
    game
}

fn no_keys() -> Keys {
    Keys { key_a: false, key_d: false, arrow_left: false, arrow_right: false, escape: false }
}

fn frame(keys: Keys, buttons: Vec<ButtonChange>) -> FrameInput {
    FrameInput { window: Some(WINDOW), keys, delta_micros: 16_667, buttons }
}

fn press(button: ButtonKind) -> ButtonChange {
    ButtonChange { button, interaction: Interaction::Pressed }
}

fn counts(game: &Game) -> (usize, usize, usize, usize) {
    (game.paddles.len(), game.balls.len(), game.borders.len(), game.blocks.len())
}

#[test]
fn the_mode_defaults_to_the_menu() {
    assert_eq!(AppState::default(), AppState::MainMenu);
}

#[test]
fn the_game_starts_up_in_the_menu_with_one_ball() {
    let game = started();
    assert_eq!(game.state, AppState::MainMenu);
    assert_eq!(game.menu, Some(MainMenu::main_menu_setup()));
    assert_eq!(game.paddle_size, Size { width: 160_000, height: 10_000 });
    assert_eq!(game.balls, vec![Ball { entity: Entity(0), position: Point { x: 0, y: -270_000 } }]);
    assert!(game.paddles.is_empty());
    assert!(game.borders.is_empty());
    assert!(game.blocks.is_empty());
    assert_eq!(game.next_entity, 1);
}

#[test]
fn the_game_does_not_start_up_without_a_window() {
    assert_eq!(Game::startup(None).err(), Some(GameError::MissingWindow));
}

#[test]
fn the_first_start_sets_the_whole_field() {
    let game = playing();
    assert_eq!(game.state, AppState::InGame);
    assert_eq!(game.menu, None);
    assert_eq!(game.balls.len(), 1);
    assert_eq!(game.paddles.len(), 2);
    assert_eq!(game.paddles[0].player, Player::First);
    assert_eq!(game.paddles[1].player, Player::Second);
    assert!(game.paddles[0].position.y > game.paddles[1].position.y);
    assert_eq!(game.borders.len(), 3);
    assert_eq!(game.blocks.len(), 216);
    // the ball, then the walls, the bricks and the paddles
    assert_eq!(game.borders[0].entity, Entity(1));
    assert_eq!(game.blocks[0].entity, Entity(4));
    assert_eq!(game.paddles[0].entity, Entity(220));
    assert_eq!(game.next_entity, 222);
}

#[test]
fn asking_for_the_current_mode_changes_nothing() {
    let mut game = started();
    assert_eq!(game.request_transition(AppState::MainMenu, None), Ok(()));
    assert_eq!(game.state, AppState::MainMenu);
    assert_eq!(game.balls.len(), 1);
    assert_eq!(game.next_entity, 1);

    let mut game = playing();
    let before = game.clone();
    assert_eq!(game.request_transition(AppState::InGame, None), Ok(()));
    assert_eq!(game.request_transition(AppState::InGame, Some(WINDOW)), Ok(()));
    assert_eq!(game.state, AppState::InGame);
    assert_eq!(game.paddles, before.paddles);
    assert_eq!(game.balls, before.balls);
    assert_eq!(game.borders, before.borders);
    assert_eq!(game.blocks, before.blocks);
    assert_eq!(game.next_entity, before.next_entity);
}

#[test]
fn entering_the_menu_clears_the_field() {
    let mut game = playing();
    assert_eq!(game.request_transition(AppState::MainMenu, None), Ok(()));
    assert_eq!(game.state, AppState::MainMenu);
    assert_eq!(game.menu, Some(MainMenu::main_menu_setup()));
    assert_eq!(counts(&game), (0, 0, 0, 0));
    assert_eq!(game.next_entity, 222);
}

#[test]
fn entering_the_field_without_a_window_spawns_nothing() {
    let mut game = started();
    assert_eq!(game.request_transition(AppState::InGame, None), Err(GameError::MissingWindow));
    assert_eq!(game.state, AppState::InGame);
    assert_eq!(game.menu, None);
    assert_eq!(counts(&game), (0, 1, 0, 0));
    assert_eq!(game.next_entity, 1);
}

#[test]
fn round_trips_leak_nothing() {
    let mut game = playing();
    let mut seen = Vec::new();
    for _ in 0..5 {
        game.stop_game_observer(StopGame);
        assert_eq!(game.start_game_observer(StartGame, Some(WINDOW)), Ok(()));
        seen.push(counts(&game));
    }
    assert_eq!(seen, vec![(2, 0, 3, 216); 5]);
    assert_eq!(game.next_entity, 222 + 5 * 221);
}

#[test]
fn a_second_start_has_no_ball() {
    let mut game = playing();
    assert_eq!(counts(&game), (2, 1, 3, 216));
    game.stop_game_observer(StopGame);
    assert_eq!(game.start_game_observer(StartGame, Some(WINDOW)), Ok(()));
    assert_eq!(counts(&game), (2, 0, 3, 216));
}

#[test]
fn escape_raises_the_stop_signal() {
    assert_eq!(stop_game_on_esc_system(Keys { escape: true, ..no_keys() }), Some(StopGame));
    assert_eq!(stop_game_on_esc_system(no_keys()), None);
    assert_eq!(stop_game_on_esc_system(Keys { key_a: true, arrow_right: true, ..no_keys() }), None);
}

#[test]
fn pressing_play_enters_the_field() {
    let mut game = started();
    let input = frame(no_keys(), vec![press(ButtonKind::Start)]);
    assert!(game.frame_ready(&input));
    assert_eq!(game.update(&input), Ok(None));
    assert_eq!(game.state, AppState::InGame);
    assert_eq!(counts(&game), (2, 1, 3, 216));
}

#[test]
fn pressing_exit_in_the_menu_ends_the_process_with_success() {
    let mut game = started();
    let input = frame(no_keys(), vec![press(ButtonKind::Exit)]);
    assert_eq!(game.update(&input), Ok(Some(AppExit::Success)));
    assert_eq!(game.state, AppState::MainMenu);
    assert_eq!(
        game.menu.unwrap().exit.background,
        Color::LinearRgb { red: 200, green: 200, blue: 200 }
    );
    assert_eq!(game.play_button_pressed_system(&input.buttons), None);
    assert_eq!(game.exit_button_pressed_system(&input.buttons), Some(AppExit::Success));
}

#[test]
fn hovering_shades_a_button_and_asks_for_nothing() {
    let mut game = started();
    let hover = ButtonChange { button: ButtonKind::Start, interaction: Interaction::Hovered };
    assert_eq!(game.update(&frame(no_keys(), vec![hover])), Ok(None));
    assert_eq!(game.state, AppState::MainMenu);
    let menu = game.menu.unwrap();
    assert_eq!(menu.start.background, Color::LinearRgb { red: 275, green: 275, blue: 275 });
    assert_eq!(menu.exit.background, Color::LinearRgb { red: 300, green: 300, blue: 300 });
    assert_eq!(game.update(&frame(no_keys(), vec![])), Ok(None));
    assert_eq!(game.menu, Some(menu));
}

#[test]
fn escape_in_the_menu_does_nothing() {
    let mut game = started();
    let input = frame(Keys { escape: true, key_d: true, ..no_keys() }, vec![]);
    assert_eq!(game.update(&input), Ok(None));
    assert_eq!(game.state, AppState::MainMenu);
    assert_eq!(counts(&game), (0, 1, 0, 0));
}

#[test]
fn pressing_play_without_a_window_fails() {
    let mut game = started();
    let input = FrameInput {
        window: None,
        keys: no_keys(),
        delta_micros: 16_667,
        buttons: vec![press(ButtonKind::Start), press(ButtonKind::Exit)],
    };
    assert!(game.frame_ready(&input));
    assert_eq!(game.update(&input), Err(GameError::MissingWindow));
    assert_eq!(game.state, AppState::InGame);
    assert_eq!(counts(&game), (0, 1, 0, 0));
}

#[test]
fn escape_on_the_field_returns_to_the_menu_without_ending_the_process() {
    let mut game = playing();
    let input = frame(Keys { escape: true, ..no_keys() }, vec![press(ButtonKind::Exit)]);
    assert_eq!(game.update(&input), Ok(None));
    assert_eq!(game.state, AppState::MainMenu);
    assert_eq!(game.menu, Some(MainMenu::main_menu_setup()));
    assert_eq!(counts(&game), (0, 0, 0, 0));
}

#[test]
fn a_frame_on_the_field_steers_holds_and_replaces() {
    let mut game = playing();
    game.paddles[1].position.x = -559_000;
    assert!(game.ball_moved(Entity(0), Point { x: 0, y: -400_000 }));
    let input = frame(Keys { key_d: true, arrow_left: true, ..no_keys() }, vec![]);
    assert!(game.frame_ready(&input));
    assert_eq!(game.update(&input), Ok(None));
    assert_eq!(game.state, AppState::InGame);
    assert_eq!(game.paddles[0].position, Point { x: 8_533, y: -307_500 });
    assert_eq!(game.paddles[1].position, Point { x: -560_000, y: -322_500 });
    assert_eq!(
        game.balls,
        vec![Ball { entity: Entity(222), position: Point { x: 0, y: -270_000 } }]
    );
}

#[test]
fn a_frame_on_the_field_needs_a_window() {
    let mut game = playing();
    let input = FrameInput {
        window: None,
        keys: Keys { key_d: true, ..no_keys() },
        delta_micros: 1_000_000,
        buttons: vec![],
    };
    assert!(game.frame_ready(&input));
    assert_eq!(game.update(&input), Err(GameError::MissingWindow));
    assert_eq!(game.state, AppState::InGame);
    assert_eq!(game.paddles[0].position.x, 512_000);
    assert_eq!(counts(&game), (2, 1, 3, 216));
}

#[test]
fn a_frame_is_not_ready_in_a_window_narrower_than_a_paddle() {
    let game = playing();
    let mut input = frame(no_keys(), vec![]);
    input.window = Some(WindowSize { width: 159_999, height: 720_000 });
    assert!(!game.frame_ready(&input));
    input.window = Some(WindowSize { width: 160_000, height: 720_000 });
    assert!(game.frame_ready(&input));
}

#[test]
fn a_frame_is_not_ready_when_identities_run_out() {
    let mut game = started();
    game.next_entity = u64::MAX - 220;
    let input = frame(no_keys(), vec![press(ButtonKind::Start)]);
    assert!(!game.frame_ready(&input));
    assert!(game.frame_ready(&frame(no_keys(), vec![])));
    game.next_entity = u64::MAX - 221;
    assert!(game.frame_ready(&input));
}

#[test]
fn a_tick_in_the_menu_does_nothing() {
    let mut game = started();
    let contacts = vec![CollisionStarted(Entity(0), Entity(4))];
    assert_eq!(game.fixed_update(&contacts), None);
    assert_eq!(game.state, AppState::MainMenu);
    assert_eq!(counts(&game), (0, 1, 0, 0));
}

#[test]
fn a_tick_breaks_the_bricks_the_ball_touched() {
    let mut game = playing();
    let before = game.clone();
    let contacts = vec![
        CollisionStarted(Entity(0), Entity(220)),
        CollisionStarted(Entity(0), Entity(15)),
        CollisionStarted(Entity(16), Entity(0)),
        CollisionStarted(Entity(1), Entity(0)),
    ];
    assert_eq!(game.fixed_update(&contacts), None);
    assert_eq!(game.state, AppState::InGame);
    let mut expected = before.blocks.clone();
    expected.retain(|block| block.entity != Entity(15) && block.entity != Entity(16));
    assert_eq!(expected.len(), 214);
    assert_eq!(game.blocks, expected);
    assert_eq!(game.balls, before.balls);
    assert_eq!(game.paddles, before.paddles);
    assert_eq!(game.borders, before.borders);
}

#[test]
fn one_contact_breaks_one_brick() {
    let mut game = playing();
    let before = game.clone();
    assert_eq!(game.fixed_update(&vec![CollisionStarted(Entity(0), Entity(219))]), None);
    let mut expected = before.blocks.clone();
    expected.remove(215);
    assert_eq!(game.blocks, expected);
}

#[test]
fn breaking_the_last_brick_stops_the_game_once() {
    let mut game = playing();
    game.blocks.truncate(1);
    assert_eq!(game.fixed_update(&vec![]), None);
    assert_eq!(game.state, AppState::InGame);
    let contacts = vec![CollisionStarted(Entity(4), Entity(0))];
    assert_eq!(game.fixed_update(&contacts), Some(StopGame));
    assert_eq!(game.state, AppState::MainMenu);
    assert_eq!(game.menu, Some(MainMenu::main_menu_setup()));
    assert_eq!(counts(&game), (0, 0, 0, 0));
    assert_eq!(game.fixed_update(&contacts), None);
    assert_eq!(game.fixed_update(&vec![]), None);
    assert_eq!(game.state, AppState::MainMenu);
}

#[test]
fn a_field_without_bricks_is_won_at_the_next_tick() {
    let mut game = started();
    assert_eq!(game.request_transition(AppState::InGame, None), Err(GameError::MissingWindow));
    assert_eq!(game.fixed_update(&vec![]), Some(StopGame));
    assert_eq!(game.state, AppState::MainMenu);
}
