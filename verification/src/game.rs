//! The whole game as one value: the mode, every live body and the menu.

use vstd::prelude::*;
use crate::app_state::AppState;
use crate::ball::{ball_start, get_ball_start, Ball};
use crate::entity::Entity;
use crate::error::{first_failure, need_window, GameError};
use crate::main_menu::{fresh_menu, MainMenu};
use crate::player::{get_paddle_size, paddle_size, Keys, Paddle};
use crate::units::{Size, WindowSize};
use crate::world::block::{Block, COLUMNS, ROWS};
use crate::world::{Border, BORDERS};

verus! {

/// The signal to leave the menu and play.
#[derive(Debug, Clone, Copy, PartialEq, Eq, Structural)]
pub struct StartGame;

/// The signal to leave the field and return to the menu.
#[derive(Debug, Clone, Copy, PartialEq, Eq, Structural)]
pub struct StopGame;

/// The game. Each rule of the game is a method that steps this value; an
/// engine that shows the game mirrors what it finds here.
#[derive(Debug, Clone)]
pub struct Game {
    /// The current mode.
    pub state: AppState,
    /// The identity the next spawned body gets.
    pub next_entity: u64,
    /// The size every paddle is spawned with, fixed when the game starts up.
    pub paddle_size: Size,
    /// The menu, while it is shown.
    pub menu: Option<MainMenu>,
    pub paddles: Vec<Paddle>,
    pub balls: Vec<Ball>,
    pub borders: Vec<Border>,
    pub blocks: Vec<Block>,
}

/// What a [`Game`] holds, as mathematical values. The rules of the game are
/// functions from one such value to the next.
#[verifier::ext_equal]
pub struct GameView {
    pub state: AppState,
    pub next_entity: u64,
    pub paddle_size: Size,
    pub menu: Option<MainMenu>,
    pub paddles: Seq<Paddle>,
    pub balls: Seq<Ball>,
    pub borders: Seq<Border>,
    pub blocks: Seq<Block>,
}

impl View for Game {
    type V = GameView;

    open spec fn view(&self) -> GameView {
        GameView {
            state: self.state,
            next_entity: self.next_entity,
            paddle_size: self.paddle_size,
            menu: self.menu,
            paddles: self.paddles@,
            balls: self.balls@,
            borders: self.borders@,
            blocks: self.blocks@,
        }
    }
}

impl GameView {
    /// Every live identity has been handed out already.
    pub open spec fn issued(self) -> bool {
        &&& forall|i: int|
            0 <= i < self.paddles.len() ==> (#[trigger] self.paddles[i]).entity.0
                < self.next_entity
        &&& forall|i: int|
            0 <= i < self.balls.len() ==> (#[trigger] self.balls[i]).entity.0 < self.next_entity
        &&& forall|i: int|
            0 <= i < self.borders.len() ==> (#[trigger] self.borders[i]).entity.0
                < self.next_entity
        &&& forall|i: int|
            0 <= i < self.blocks.len() ==> (#[trigger] self.blocks[i]).entity.0
                < self.next_entity
    }

    /// No two bodies of one kind share an identity.
    pub open spec fn distinct(self) -> bool {
        &&& forall|i: int, j: int|
            0 <= i < j < self.paddles.len() ==> (#[trigger] self.paddles[i]).entity != (
            #[trigger] self.paddles[j]).entity
        &&& forall|i: int, j: int|
            0 <= i < j < self.balls.len() ==> (#[trigger] self.balls[i]).entity != (
            #[trigger] self.balls[j]).entity
        &&& forall|i: int, j: int|
            0 <= i < j < self.borders.len() ==> (#[trigger] self.borders[i]).entity != (
            #[trigger] self.borders[j]).entity
        &&& forall|i: int, j: int|
            0 <= i < j < self.blocks.len() ==> (#[trigger] self.blocks[i]).entity != (
            #[trigger] self.blocks[j]).entity
    }

    /// No two bodies of different kinds share an identity.
    pub open spec fn apart(self) -> bool {
        &&& forall|i: int, j: int|
            0 <= i < self.paddles.len() && 0 <= j < self.balls.len() ==> (
            #[trigger] self.paddles[i]).entity != (#[trigger] self.balls[j]).entity
        &&& forall|i: int, j: int|
            0 <= i < self.paddles.len() && 0 <= j < self.borders.len() ==> (
            #[trigger] self.paddles[i]).entity != (#[trigger] self.borders[j]).entity
        &&& forall|i: int, j: int|
            0 <= i < self.paddles.len() && 0 <= j < self.blocks.len() ==> (
            #[trigger] self.paddles[i]).entity != (#[trigger] self.blocks[j]).entity
        &&& forall|i: int, j: int|
            0 <= i < self.balls.len() && 0 <= j < self.borders.len() ==> (
            #[trigger] self.balls[i]).entity != (#[trigger] self.borders[j]).entity
        &&& forall|i: int, j: int|
            0 <= i < self.balls.len() && 0 <= j < self.blocks.len() ==> (
            #[trigger] self.balls[i]).entity != (#[trigger] self.blocks[j]).entity
        &&& forall|i: int, j: int|
            0 <= i < self.borders.len() && 0 <= j < self.blocks.len() ==> (
            #[trigger] self.borders[i]).entity != (#[trigger] self.blocks[j]).entity
    }

    /// At most one paddle exists for each player.
    pub open spec fn one_paddle_each(self) -> bool {
        forall|i: int, j: int|
            0 <= i < j < self.paddles.len() ==> (#[trigger] self.paddles[i]).player != (
            #[trigger] self.paddles[j]).player
    }

    /// What holds of every game, whichever rules were applied in whatever
    /// order: every body has an identity of its own, handed out before, no
    /// player has two paddles, and the paddle width is no negative number.
    pub open spec fn wf(self) -> bool {
        &&& self.paddle_size.width >= 0
        &&& self.issued()
        &&& self.distinct()
        &&& self.apart()
        &&& self.one_paddle_each()
    }

    /// How many more bodies can be given an identity.
    pub open spec fn entities_left(self) -> int {
        u64::MAX as int - self.next_entity as int
    }

    /// What holds of a game that was started up and stepped only by
    /// transitions, frames and ticks: besides [`GameView::wf`], the menu is
    /// on show exactly while the mode is the main menu, the field is bare
    /// while the menu is on show, and there is never more than one ball.
    pub open spec fn consistent(self) -> bool {
        &&& self.wf()
        &&& self.balls.len() <= 1
        &&& self.state == AppState::MainMenu ==> {
            &&& self.menu is Some
            &&& self.paddles.len() == 0
            &&& self.borders.len() == 0
            &&& self.blocks.len() == 0
        }
        &&& self.state == AppState::InGame ==> self.menu is None
    }

    /// The game right after the process has started with this window: the
    /// menu is on show, the paddle size is fixed, and the first ball stands
    /// at its launch point.
    pub open spec fn startup(window: WindowSize) -> GameView {
        GameView {
            state: AppState::MainMenu,
            next_entity: 1,
            paddle_size: paddle_size(window),
            menu: Some(fresh_menu()),
            paddles: Seq::empty(),
            balls: seq![Ball { entity: Entity(0), position: ball_start(window) }],
            borders: Seq::empty(),
            blocks: Seq::empty(),
        }
    }

    /// The game after the field was entered: the menu is taken down, then
    /// the walls are built, the bricks laid and the paddles spawned.
    pub open spec fn enter_in_game(self, window: Option<WindowSize>) -> GameView {
        GameView { state: AppState::InGame, ..self }.main_menu_cleanup().load_level(
            window,
        ).load_blocks(window).player_spawn(window)
    }

    /// What entering the field reports: the first failure of its steps, if
    /// any.
    pub open spec fn enter_in_game_result(self, window: Option<WindowSize>) -> Result<
        (),
        GameError,
    > {
        first_failure(
            need_window(window),
            GameView { state: AppState::InGame, ..self }.main_menu_cleanup().load_level(
                window,
            ).load_blocks(window).player_spawn_result(window),
        )
    }

    /// The game after the menu was entered: the menu is built, and every
    /// wall, brick, paddle and ball is taken away.
    pub open spec fn enter_main_menu(self) -> GameView {
        GameView {
            state: AppState::MainMenu,
            ..self
        }.main_menu_setup().unload_level().unload_blocks().player_despawn().despawn_balls()
    }

    /// The game after a change of mode was asked for. Asking for the mode
    /// the game is in changes nothing.
    pub open spec fn request_transition(
        self,
        target: AppState,
        window: Option<WindowSize>,
    ) -> GameView {
        if target == self.state {
            self
        } else {
            match target {
                AppState::InGame => self.enter_in_game(window),
                AppState::MainMenu => self.enter_main_menu(),
            }
        }
    }

    /// What asking for a change of mode reports. Only entering the field
    /// can fail.
    pub open spec fn request_transition_result(
        self,
        target: AppState,
        window: Option<WindowSize>,
    ) -> Result<(), GameError> {
        if target != self.state && target == AppState::InGame {
            self.enter_in_game_result(window)
        } else {
            Ok(())
        }
    }

    /// How many identities a change of mode uses up: those of the walls,
    /// the bricks and the two paddles when the field is entered with a
    /// window, none otherwise.
    pub open spec fn transition_cost(self, target: AppState, window: Option<WindowSize>) -> int {
        if target != self.state && target == AppState::InGame && window is Some {
            BORDERS + ROWS * COLUMNS + 2
        } else {
            0
        }
    }
}

/// The stop signal that the keyboard asks for: one when escape went down
/// during the frame.
pub fn stop_game_on_esc_system(keys: Keys) -> (signal: Option<StopGame>)
    ensures
        signal is Some <==> keys.escape,
{
    if keys.escape {
        Some(StopGame)
    } else {
        None
    }
}

impl Game {
    /// Starts the game up: the mode is the main menu and the menu is on
    /// show, the paddle size is taken from the window, and the first ball
    /// is launched. Fails when there is no window.
    pub fn startup(window: Option<WindowSize>) -> (result: Result<Game, GameError>)
        ensures
            match result {
                Ok(game) => window is Some && game@ == GameView::startup(window->Some_0)
                    && game@.consistent(),
                Err(error) => window is None && error == GameError::MissingWindow,
            },
    {
        let size = match window {
            Some(size) => size,
            None => {
                return Err(GameError::MissingWindow);
            },
        };
        let mut balls: Vec<Ball> = Vec::new();
        balls.push(Ball { entity: Entity(0), position: get_ball_start(size) });
        let game = Game {
            state: AppState::MainMenu,
            next_entity: 1,
            paddle_size: get_paddle_size(size),
            menu: Some(MainMenu::main_menu_setup()),
            paddles: Vec::new(),
            balls,
            borders: Vec::new(),
            blocks: Vec::new(),
        };
        proof {
            assert(game@.balls =~= GameView::startup(size).balls);
        }
        Ok(game)
    }

    /// Changes the mode at once, with everything that entering the new mode
    /// and leaving the old one brings about. Entering the field takes the
    /// menu down, builds the walls, lays the bricks and spawns the paddles;
    /// entering the menu builds the menu and takes every wall, brick,
    /// paddle and ball away. Asking for the current mode changes nothing.
    /// Entering the field without a window fails after the mode has
    /// changed and the menu is down, with nothing spawned.
    pub fn request_transition(&mut self, target: AppState, window: Option<WindowSize>) -> (result:
        Result<(), GameError>)
        requires
            old(self)@.consistent(),
            old(self)@.entities_left() >= old(self)@.transition_cost(target, window),
        ensures
            result == old(self)@.request_transition_result(target, window),
            result is Err <==> target == AppState::InGame && old(self)@.state
                == AppState::MainMenu && window is None,
            result is Err ==> result == Err::<(), GameError>(GameError::MissingWindow),
            final(self)@ == old(self)@.request_transition(target, window),
            final(self)@.consistent(),
            final(self)@.state == target,
    {
        if target == self.state {
            return Ok(());
        }
        match target {
            AppState::InGame => {
                self.state = AppState::InGame;
                self.main_menu_cleanup();
                let level = self.load_level_system(window);
                let blocks = self.load_blocks_system(window);
                let players = self.player_spawn_system(window);
                match level {
                    Err(error) => Err(error),
                    Ok(()) => match blocks {
                        Err(error) => Err(error),
                        Ok(()) => players,
                    },
                }
            },
            AppState::MainMenu => {
                self.state = AppState::MainMenu;
                self.main_menu_setup_system();
                self.unload_level_system();
                self.unload_blocks_system();
                self.player_despawn_system();
                self.despawn_balls_system();
                Ok(())
            },
        }
    }

    /// Serves the start signal: the field is entered.
    pub fn start_game_observer(&mut self, _signal: StartGame, window: Option<WindowSize>) -> (result:
        Result<(), GameError>)
        requires
            old(self)@.consistent(),
            old(self)@.entities_left() >= old(self)@.transition_cost(AppState::InGame, window),
        ensures
            result == old(self)@.request_transition_result(AppState::InGame, window),
            result is Err <==> old(self)@.state == AppState::MainMenu && window is None,
            result is Err ==> result == Err::<(), GameError>(GameError::MissingWindow),
            final(self)@ == old(self)@.request_transition(AppState::InGame, window),
            final(self)@.consistent(),
            final(self)@.state == AppState::InGame,
    {
        self.request_transition(AppState::InGame, window)
    }

    /// Serves the stop signal: the menu is entered.
    pub fn stop_game_observer(&mut self, _signal: StopGame)
        requires
            old(self)@.consistent(),
        ensures
            final(self)@ == old(self)@.request_transition(AppState::MainMenu, None),
            final(self)@.consistent(),
            final(self)@.state == AppState::MainMenu,
    {
        let _ = self.request_transition(AppState::MainMenu, None);
    }

    /// Whether `count` more bodies can be given an identity.
    pub fn can_spawn(&self, count: u64) -> (enough: bool)
        ensures
            enough == (count <= self@.entities_left()),
    {
        count <= u64::MAX - self.next_entity
    }
}

} // verus!
