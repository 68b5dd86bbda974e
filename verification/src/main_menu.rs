//! The main menu: a title and two buttons, how the buttons are shaded under
//! the pointer, and what pressing them asks for.

use vstd::prelude::*;
use crate::game::{Game, GameView, StartGame};
use crate::units::Color;

verus! {

/// How the pointer stands to a button.
#[derive(Debug, Clone, Copy, PartialEq, Eq, Hash, Structural)]
pub enum Interaction {
    Pressed,
    Hovered,
    Idle,
}

/// Which of the two buttons.
#[derive(Debug, Clone, Copy, PartialEq, Eq, Hash, Structural)]
pub enum ButtonKind {
    Start,
    Exit,
}

/// The three shades of a button, one for each [`Interaction`].
#[derive(Debug, Clone, Copy, PartialEq, Eq, Structural)]
pub struct ButtonColorScheme {
    pub normal: Color,
    pub hover: Color,
    pub pressed: Color,
}

/// A line of text. The font size is in pixels.
#[derive(Debug, Clone, Copy, PartialEq, Eq)]
pub struct Text {
    pub content: &'static str,
    pub font_size: u32,
    pub color: Color,
}

/// A button of the menu. Width and height are in pixels.
#[derive(Debug, Clone, Copy, PartialEq, Eq)]
pub struct Button {
    pub kind: ButtonKind,
    pub label: Text,
    pub width: u32,
    pub height: u32,
    pub scheme: ButtonColorScheme,
    pub background: Color,
}

/// The menu as it is shown: the title above a column of the two buttons.
/// The gap between neighbours of a column is in pixels.
#[derive(Debug, Clone, Copy, PartialEq, Eq)]
pub struct MainMenu {
    pub title: Text,
    pub row_gap: u32,
    pub start: Button,
    pub exit: Button,
}

/// A button whose interaction changed during the frame, and what it changed
/// to.
#[derive(Debug, Clone, Copy, PartialEq, Eq, Structural)]
pub struct ButtonChange {
    pub button: ButtonKind,
    pub interaction: Interaction,
}

/// The request to end the process.
#[derive(Debug, Clone, Copy, PartialEq, Eq, Structural)]
pub enum AppExit {
    Success,
}

/// A gray of the given strength, in thousandths.
pub open spec fn gray(level: u16) -> Color {
    Color::LinearRgb { red: level, green: level, blue: level }
}

/// The shades every button starts with.
pub open spec fn default_scheme() -> ButtonColorScheme {
    ButtonColorScheme { normal: gray(300), hover: gray(275), pressed: gray(200) }
}

/// White text of the given content and size.
pub open spec fn white_text(content: &'static str, font_size: u32) -> Text {
    Text { content, font_size, color: gray(1000) }
}

/// A button as it is first shown: 220 by 60 pixels, in its normal shade.
pub open spec fn fresh_button(kind: ButtonKind, label: &'static str) -> Button {
    Button {
        kind,
        label: white_text(label, 32),
        width: 220,
        height: 60,
        scheme: default_scheme(),
        background: gray(300),
    }
}

/// The menu as it is first shown.
pub open spec fn fresh_menu() -> MainMenu {
    MainMenu {
        title: white_text("BREAKOUT", 64),
        row_gap: 12,
        start: fresh_button(ButtonKind::Start, "Play"),
        exit: fresh_button(ButtonKind::Exit, "Exit"),
    }
}

impl ButtonColorScheme {
    /// The shade that goes with an interaction.
    pub open spec fn shade(self, interaction: Interaction) -> Color {
        match interaction {
            Interaction::Idle => self.normal,
            Interaction::Hovered => self.hover,
            Interaction::Pressed => self.pressed,
        }
    }

    /// Computes [`ButtonColorScheme::shade`].
    pub fn get_shade(&self, interaction: Interaction) -> (color: Color)
        ensures
            color == self.shade(interaction),
    {
        match interaction {
            Interaction::Idle => self.normal,
            Interaction::Hovered => self.hover,
            Interaction::Pressed => self.pressed,
        }
    }
}

impl Default for ButtonColorScheme {
    fn default() -> (scheme: ButtonColorScheme)
        ensures
            scheme == default_scheme(),
    {
        ButtonColorScheme {
            normal: Color::LinearRgb { red: 300, green: 300, blue: 300 },
            hover: Color::LinearRgb { red: 275, green: 275, blue: 275 },
            pressed: Color::LinearRgb { red: 200, green: 200, blue: 200 },
        }
    }
}

impl MainMenu {
    /// The menu with the background of one button set to the shade its
    /// scheme has for the interaction. Nothing else changes.
    pub open spec fn recolored(self, change: ButtonChange) -> MainMenu {
        match change.button {
            ButtonKind::Start => MainMenu {
                start: Button {
                    background: self.start.scheme.shade(change.interaction),
                    ..self.start
                },
                ..self
            },
            ButtonKind::Exit => MainMenu {
                exit: Button {
                    background: self.exit.scheme.shade(change.interaction),
                    ..self.exit
                },
                ..self
            },
        }
    }

    /// The menu after every change of a frame has been applied in turn.
    pub open spec fn recolored_all(self, changes: Seq<ButtonChange>) -> MainMenu
        decreases changes.len(),
    {
        if changes.len() == 0 {
            self
        } else {
            self.recolored_all(changes.drop_last()).recolored(changes.last())
        }
    }

    /// Builds the menu as it is first shown: the title "BREAKOUT" over the
    /// buttons "Play" and "Exit".
    pub fn main_menu_setup() -> (menu: MainMenu)
        ensures
            menu == fresh_menu(),
    {
        let white = Color::LinearRgb { red: 1000, green: 1000, blue: 1000 };
        MainMenu {
            title: Text { content: "BREAKOUT", font_size: 64, color: white },
            row_gap: 12,
            start: Button {
                kind: ButtonKind::Start,
                label: Text { content: "Play", font_size: 32, color: white },
                width: 220,
                height: 60,
                scheme: ButtonColorScheme::default(),
                background: Color::LinearRgb { red: 300, green: 300, blue: 300 },
            },
            exit: Button {
                kind: ButtonKind::Exit,
                label: Text { content: "Exit", font_size: 32, color: white },
                width: 220,
                height: 60,
                scheme: ButtonColorScheme::default(),
                background: Color::LinearRgb { red: 300, green: 300, blue: 300 },
            },
        }
    }

    /// Shades one button for its new interaction.
    pub fn recolor(&mut self, change: ButtonChange)
        ensures
            *final(self) == old(self).recolored(change),
    {
        match change.button {
            ButtonKind::Start => {
                self.start.background = self.start.scheme.get_shade(change.interaction);
            },
            ButtonKind::Exit => {
                self.exit.background = self.exit.scheme.get_shade(change.interaction);
            },
        }
    }

    /// Shades the buttons for a run of changes, taken in turn.
    pub fn recolor_all(&mut self, changes: &Vec<ButtonChange>)
        ensures
            *final(self) == old(self).recolored_all(changes@),
    {
        let mut i: usize = 0;
        while i < changes.len()
            invariant
                i <= changes.len(),
                *self == old(self).recolored_all(changes@.take(i as int)),
            decreases changes.len() - i,
        {
            proof {
                assert(changes@.take(i + 1).drop_last() =~= changes@.take(i as int));
            }
            self.recolor(changes[i]);
            i += 1;
        }
        proof {
            assert(changes@.take(i as int) =~= changes@);
        }
    }
}

/// Whether a frame's changes hold a press of the given button.
pub open spec fn pressed(changes: Seq<ButtonChange>, button: ButtonKind) -> bool {
    exists|i: int|
        0 <= i < changes.len() && #[trigger] changes[i] == (ButtonChange {
            button,
            interaction: Interaction::Pressed,
        })
}

/// Computes [`pressed`].
pub fn is_pressed(changes: &Vec<ButtonChange>, button: ButtonKind) -> (found: bool)
    ensures
        found == pressed(changes@, button),
{
    let mut i: usize = 0;
    while i < changes.len()
        invariant
            i <= changes.len(),
            forall|j: int|
                0 <= j < i ==> #[trigger] changes@[j] != (ButtonChange {
                    button,
                    interaction: Interaction::Pressed,
                }),
        decreases changes.len() - i,
    {
        let change = changes[i];
        if change.button == button && change.interaction == Interaction::Pressed {
            return true;
        }
        i += 1;
    }
    false
}

impl GameView {
    /// The game after the menu was built: it shows the menu as it is first
    /// shown.
    pub open spec fn main_menu_setup(self) -> GameView {
        GameView { menu: Some(fresh_menu()), ..self }
    }

    /// The game after the menu was taken down.
    pub open spec fn main_menu_cleanup(self) -> GameView {
        GameView { menu: None, ..self }
    }

    /// The game after the buttons were shaded for the changes of a frame.
    /// Without a menu there is nothing to shade.
    pub open spec fn update_button_color(self, changes: Seq<ButtonChange>) -> GameView {
        match self.menu {
            Some(menu) => GameView { menu: Some(menu.recolored_all(changes)), ..self },
            None => self,
        }
    }

    /// Whether a button of the menu on show was pressed during the frame.
    pub open spec fn button_pressed(self, changes: Seq<ButtonChange>, button: ButtonKind) -> bool {
        self.menu is Some && pressed(changes, button)
    }
}

impl Game {
    /// Builds the menu: the title and the two buttons, in their normal
    /// shade.
    pub fn main_menu_setup_system(&mut self)
        requires
            old(self)@.wf(),
        ensures
            final(self)@ == old(self)@.main_menu_setup(),
            final(self)@.wf(),
    {
        self.menu = Some(MainMenu::main_menu_setup());
    }

    /// Takes the menu down.
    pub fn main_menu_cleanup(&mut self)
        requires
            old(self)@.wf(),
        ensures
            final(self)@ == old(self)@.main_menu_cleanup(),
            final(self)@.wf(),
    {
        self.menu = None;
    }

    /// Shades every button whose interaction changed during the frame, in
    /// the order the changes are given: each gets the shade its scheme has
    /// for the new interaction. A button that did not change keeps its
    /// shade.
    pub fn update_button_color_system(&mut self, changes: &Vec<ButtonChange>)
        requires
            old(self)@.wf(),
        ensures
            final(self)@ == old(self)@.update_button_color(changes@),
            final(self)@.wf(),
    {
        match self.menu {
            Some(shown) => {
                let mut menu = shown;
                menu.recolor_all(changes);
                self.menu = Some(menu);
            },
            None => {},
        }
    }

    /// Raises the start signal when the "Play" button was pressed during
    /// the frame.
    pub fn play_button_pressed_system(&self, changes: &Vec<ButtonChange>) -> (signal: Option<
        StartGame,
    >)
        ensures
            signal is Some <==> self@.button_pressed(changes@, ButtonKind::Start),
    {
        if self.menu.is_some() && is_pressed(changes, ButtonKind::Start) {
            Some(StartGame)
        } else {
            None
        }
    }

    /// Asks for the process to end, with success, when the "Exit" button
    /// was pressed during the frame.
    pub fn exit_button_pressed_system(&self, changes: &Vec<ButtonChange>) -> (exit: Option<
        AppExit,
    >)
        ensures
            exit is Some <==> self@.button_pressed(changes@, ButtonKind::Exit),
            exit is Some ==> exit == Some(AppExit::Success),
    {
        if self.menu.is_some() && is_pressed(changes, ButtonKind::Exit) {
            Some(AppExit::Success)
        } else {
            None
        }
    }
}

} // verus!
