use breakout::main_menu::{
    is_pressed, ButtonChange, ButtonColorScheme, ButtonKind, Interaction, MainMenu,
};
use breakout::units::Color;

fn gray(level: u16) -> Color {
    Color::LinearRgb { red: level, green: level, blue: level }
}

fn change(button: ButtonKind, interaction: Interaction) -> ButtonChange {
    ButtonChange { button, interaction }
}

#[test]
fn default_scheme_has_three_grays() {
    let scheme = ButtonColorScheme::default();
    assert_eq!(scheme.normal, gray(300));
    assert_eq!(scheme.hover, gray(275));
    assert_eq!(scheme.pressed, gray(200));
    assert_eq!(scheme.get_shade(Interaction::Idle), gray(300));
    assert_eq!(scheme.get_shade(Interaction::Hovered), gray(275));
    assert_eq!(scheme.get_shade(Interaction::Pressed), gray(200));
}

#[test]
fn menu_shows_a_title_and_two_buttons() {
    let menu = MainMenu::main_menu_setup();
    assert_eq!(menu.title.content, "BREAKOUT");
    assert_eq!(menu.title.font_size, 64);
    assert_eq!(menu.title.color, gray(1000));
    assert_eq!(menu.row_gap, 12);
    assert_eq!(menu.start.kind, ButtonKind::Start);
    assert_eq!(menu.start.label.content, "Play");
    assert_eq!(menu.exit.kind, ButtonKind::Exit);
    assert_eq!(menu.exit.label.content, "Exit");
    for button in [menu.start, menu.exit] {
        assert_eq!(button.label.font_size, 32);
        assert_eq!(button.label.color, gray(1000));
        assert_eq!((button.width, button.height), (220, 60));
        assert_eq!(button.scheme, ButtonColorScheme::default());
        assert_eq!(button.background, gray(300));
    }
}

#[test]
fn a_button_takes_the_shade_of_its_interaction() {
    let mut menu = MainMenu::main_menu_setup();
    menu.recolor(change(ButtonKind::Start, Interaction::Hovered));
    assert_eq!(menu.start.background, gray(275));
    assert_eq!(menu.exit.background, gray(300));
    menu.recolor(change(ButtonKind::Exit, Interaction::Pressed));
    assert_eq!(menu.start.background, gray(275));
    assert_eq!(menu.exit.background, gray(200));
    menu.recolor(change(ButtonKind::Start, Interaction::Idle));
    assert_eq!(menu.start.background, gray(300));
    assert_eq!(menu.exit.background, gray(200));
}

#[test]
fn recolouring_changes_nothing_but_the_background() {
    let fresh = MainMenu::main_menu_setup();
    let mut menu = fresh;
    menu.recolor(change(ButtonKind::Start, Interaction::Pressed));
    menu.start.background = gray(300);
    assert_eq!(menu, fresh);
}

#[test]
fn the_last_change_of_a_button_decides_its_shade() {
    let mut menu = MainMenu::main_menu_setup();
    menu.recolor_all(&vec![
        change(ButtonKind::Start, Interaction::Pressed),
        change(ButtonKind::Exit, Interaction::Hovered),
        change(ButtonKind::Start, Interaction::Hovered),
    ]);
    assert_eq!(menu.start.background, gray(275));
    assert_eq!(menu.exit.background, gray(275));
    let before = menu;
    menu.recolor_all(&vec![]);
    assert_eq!(menu, before);
}

#[test]
fn a_custom_scheme_is_honoured() {
    let mut menu = MainMenu::main_menu_setup();
    menu.exit.scheme =
        ButtonColorScheme { normal: gray(1), hover: gray(2), pressed: gray(3) };
    menu.recolor(change(ButtonKind::Exit, Interaction::Hovered));
    assert_eq!(menu.exit.background, gray(2));
    menu.recolor(change(ButtonKind::Start, Interaction::Hovered));
    assert_eq!(menu.start.background, gray(275));
}

#[test]
fn a_press_is_found_among_the_changes() {
    let changes = vec![
        change(ButtonKind::Start, Interaction::Hovered),
        change(ButtonKind::Exit, Interaction::Pressed),
        change(ButtonKind::Exit, Interaction::Idle),
    ];
    assert!(is_pressed(&changes, ButtonKind::Exit));
    assert!(!is_pressed(&changes, ButtonKind::Start));
    assert!(!is_pressed(&vec![], ButtonKind::Start));
    assert!(!is_pressed(&vec![], ButtonKind::Exit));
}
