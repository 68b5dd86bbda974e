//! What happens in one frame and in one physics tick, by mode.

use vstd::prelude::*;
use crate::app_state::AppState;
use crate::error::{need_window, GameError};
use crate::game::{stop_game_on_esc_system, Game, GameView, StopGame};
use crate::main_menu::{AppExit, ButtonChange, ButtonKind};
use crate::player::Keys;
use crate::units::WindowSize;
use crate::world::block::{BlockBreakEvent, CollisionStarted, COLUMNS, ROWS};
use crate::world::BORDERS;

verus! {

/// What the engine hands over at the start of a frame.
#[derive(Debug, Clone)]
pub struct FrameInput {
    /// The size of the primary window, if there is one.
    pub window: Option<WindowSize>,
    /// The state of the keyboard.
    pub keys: Keys,
    /// The time since the last frame, in microseconds.
    pub delta_micros: u64,
    /// The buttons whose interaction changed since the last frame.
    pub buttons: Vec<ButtonChange>,
}

/// A [`FrameInput`] as mathematical values.
#[verifier::ext_equal]
pub struct FrameInputView {
    pub window: Option<WindowSize>,
    pub keys: Keys,
    pub delta_micros: u64,
    pub buttons: Seq<ButtonChange>,
}

impl View for FrameInput {
    type V = FrameInputView;

    open spec fn view(&self) -> FrameInputView {
        FrameInputView {
            window: self.window,
            keys: self.keys,
            delta_micros: self.delta_micros,
            buttons: self.buttons@,
        }
    }
}

impl GameView {
    /// The game after a frame in the menu: the buttons are shaded, and a
    /// press of "Play" enters the field.
    pub open spec fn menu_frame(self, input: FrameInputView) -> GameView {
        let shaded = self.update_button_color(input.buttons);
        if self.button_pressed(input.buttons, ButtonKind::Start) {
            shaded.request_transition(AppState::InGame, input.window)
        } else {
            shaded
        }
    }

    /// The game after a frame on the field: the paddles are steered and
    /// then held inside the window, lost balls are replaced, and escape
    /// enters the menu.
    pub open spec fn field_frame(self, input: FrameInputView) -> GameView {
        let played = self.player_movement(input.keys, input.delta_micros).handle_border_collision(
            input.window,
        ).check_ball_death(input.window);
        if input.keys.escape {
            played.request_transition(AppState::MainMenu, None)
        } else {
            played
        }
    }

    /// The game after one frame.
    pub open spec fn update(self, input: FrameInputView) -> GameView {
        match self.state {
            AppState::MainMenu => self.menu_frame(input),
            AppState::InGame => self.field_frame(input),
        }
    }

    /// What a frame reports. In the menu: the failure of entering the
    /// field, if "Play" was pressed and entering failed; otherwise the
    /// request to end the process, if "Exit" was pressed. On the field:
    /// that the window is missing, if it is; never a request to end the
    /// process.
    pub open spec fn update_result(self, input: FrameInputView) -> Result<
        Option<AppExit>,
        GameError,
    > {
        match self.state {
            AppState::MainMenu => {
                let shaded = self.update_button_color(input.buttons);
                let entered = shaded.request_transition_result(AppState::InGame, input.window);
                if self.button_pressed(input.buttons, ButtonKind::Start) && entered is Err {
                    Err(entered->Err_0)
                } else if self.button_pressed(input.buttons, ButtonKind::Exit) {
                    Ok(Some(AppExit::Success))
                } else {
                    Ok(None)
                }
            },
            AppState::InGame => match need_window(input.window) {
                Err(error) => Err(error),
                Ok(_) => Ok(None),
            },
        }
    }

    /// Whether a frame can be stepped with this input: enough identities
    /// are left for what the frame spawns, and, on the field, the window is
    /// at least as wide as a paddle while a paddle is out.
    pub open spec fn frame_ready(self, input: FrameInputView) -> bool {
        match self.state {
            AppState::MainMenu => self.button_pressed(input.buttons, ButtonKind::Start)
                ==> self.entities_left() >= self.transition_cost(AppState::InGame, input.window),
            AppState::InGame => input.window is Some ==> {
                &&& self.paddles.len() > 0 ==> self.paddle_limit(input.window->Some_0) >= 0
                &&& self.entities_left() >= self.balls_lost(input.window->Some_0)
            },
        }
    }

    /// The game after the contacts of a tick were served, before the win is
    /// looked for.
    pub open spec fn after_contacts(self, contacts: Seq<CollisionStarted>) -> GameView {
        self.break_blocks(self.break_events(contacts))
    }

    /// Whether a tick with these contacts ends the round: the game is on
    /// the field and no brick is left once the contacts are served.
    pub open spec fn wins(self, contacts: Seq<CollisionStarted>) -> bool {
        self.state == AppState::InGame && self.after_contacts(contacts).won()
    }

    /// The game after one physics tick. In the menu a tick changes nothing.
    /// On the field the contacts are served and then, if no brick is left,
    /// the menu is entered.
    pub open spec fn fixed_update(self, contacts: Seq<CollisionStarted>) -> GameView {
        if self.state == AppState::InGame {
            if self.wins(contacts) {
                self.after_contacts(contacts).request_transition(AppState::MainMenu, None)
            } else {
                self.after_contacts(contacts)
            }
        } else {
            self
        }
    }
}

impl Game {
    /// Computes [`GameView::frame_ready`].
    pub fn frame_ready(&self, input: &FrameInput) -> (ready: bool)
        requires
            self@.wf(),
        ensures
            ready == self@.frame_ready(input@),
    {
        match self.state {
            AppState::MainMenu => {
                if self.play_button_pressed_system(&input.buttons).is_some() {
                    match input.window {
                        Some(_) => self.can_spawn((BORDERS + ROWS * COLUMNS + 2) as u64),
                        None => true,
                    }
                } else {
                    true
                }
            },
            AppState::InGame => match input.window {
                Some(size) => {
                    let wide_enough = self.paddles.len() == 0 || (size.width as i64) / 2
                        - self.paddle_size.width / 2 >= 0;
                    wide_enough && self.can_replace_balls(size)
                },
                None => true,
            },
        }
    }

    /// Steps the game by one frame. In the menu, the buttons are shaded for
    /// their new interactions, a press of "Play" enters the field and a
    /// press of "Exit" asks for the process to end. On the field, the
    /// paddles are steered and then held inside the window, every lost ball
    /// is replaced, and escape enters the menu.
    pub fn update(&mut self, input: &FrameInput) -> (result: Result<Option<AppExit>, GameError>)
        requires
            old(self)@.consistent(),
            old(self)@.frame_ready(input@),
        ensures
            result == old(self)@.update_result(input@),
            result is Err <==> input@.window is None && (old(self)@.state == AppState::InGame
                || old(self)@.button_pressed(input@.buttons, ButtonKind::Start)),
            result is Err ==> result == Err::<Option<AppExit>, GameError>(
                GameError::MissingWindow,
            ),
            result is Ok ==> (result->Ok_0 is Some <==> old(self)@.state == AppState::MainMenu
                && old(self)@.button_pressed(input@.buttons, ButtonKind::Exit)),
            final(self)@ == old(self)@.update(input@),
            final(self)@.consistent(),
            old(self)@.state == AppState::InGame && input@.window is Some
                ==> final(self)@.paddles_within(input@.window->Some_0),
            old(self)@.state == AppState::InGame && input@.keys.escape ==> final(self)@.state
                == AppState::MainMenu,
    {
        match self.state {
            AppState::MainMenu => {
                let start = self.play_button_pressed_system(&input.buttons);
                let exit = self.exit_button_pressed_system(&input.buttons);
                self.update_button_color_system(&input.buttons);
                let entered = match start {
                    Some(signal) => self.start_game_observer(signal, input.window),
                    None => Ok(()),
                };
                match entered {
                    Err(error) => Err(error),
                    Ok(()) => Ok(exit),
                }
            },
            AppState::InGame => {
                self.player_movement_system(input.keys, input.delta_micros);
                let held = self.handle_border_collision_system(input.window);
                let replaced = self.check_ball_death(input.window);
                match stop_game_on_esc_system(input.keys) {
                    Some(signal) => self.stop_game_observer(signal),
                    None => {},
                }
                match held {
                    Err(error) => Err(error),
                    Ok(()) => match replaced {
                        Err(error) => Err(error),
                        Ok(()) => Ok(None),
                    },
                }
            },
        }
    }

    /// Steps the game by one physics tick. In the menu nothing happens. On
    /// the field, every contact between a ball and a brick breaks that
    /// brick, every other contact is passed over, and once no brick is left
    /// the stop signal is raised and served: the menu is entered. Hands
    /// back the stop signal if it was raised.
    pub fn fixed_update(&mut self, contacts: &Vec<CollisionStarted>) -> (signal: Option<StopGame>)
        requires
            old(self)@.consistent(),
        ensures
            signal is Some <==> old(self)@.wins(contacts@),
            final(self)@ == old(self)@.fixed_update(contacts@),
            final(self)@.consistent(),
            signal is Some ==> final(self)@.state == AppState::MainMenu,
    {
        match self.state {
            AppState::MainMenu => None,
            AppState::InGame => {
                let events: Vec<BlockBreakEvent> = self.trigger_ball_break_event_system(contacts);
                self.break_blocks(&events);
                let signal = self.check_for_win_system();
                match signal {
                    Some(stop) => self.stop_game_observer(stop),
                    None => {},
                }
                signal
            },
        }
    }
}

} // verus!
