//! What the controls decide: how a button looks under the pointer, and which
//! screen a pressed button leads to.

use vstd::prelude::*;

verus! {

/// What the pointer does to a button.
#[derive(Clone, Copy, Debug, PartialEq, Eq, Structural)]
pub enum Interaction {
    Pressed,
    Hovered,
    Idle,
}

/// How a button is shown.
#[derive(Clone, Copy, Debug, PartialEq, Eq, Structural)]
pub enum ButtonShade {
    Normal,
    Hovered,
    HoveredPressed,
    Pressed,
}

/// The screens of the program.
#[derive(Clone, Copy, Debug, PartialEq, Eq, Structural)]
pub enum Screen {
    Menu,
    RegionGame,
    RpsGame,
}

/// What a button of the main menu stands for.
#[derive(Clone, Copy, Debug, PartialEq, Eq, Structural)]
pub enum MenuButtonAction {
    RegionBattle,
    RPSBattle,
    HardPlay,
    Help,
    Quit,
}

/// The shade of a button: pressed while it is pressed, and while it is the
/// selected one and left alone; a hovered button is shown according to
/// whether it is selected.
pub open spec fn spec_button_shade(interaction: Interaction, selected: bool) -> ButtonShade {
    match (interaction, selected) {
        (Interaction::Pressed, _) => ButtonShade::Pressed,
        (Interaction::Idle, true) => ButtonShade::Pressed,
        (Interaction::Hovered, true) => ButtonShade::HoveredPressed,
        (Interaction::Hovered, false) => ButtonShade::Hovered,
        (Interaction::Idle, false) => ButtonShade::Normal,
    }
}

/// How a button under `interaction` is shown, selected or not.
pub fn button_shade(interaction: Interaction, selected: bool) -> (shade: ButtonShade)
    ensures
        shade == spec_button_shade(interaction, selected),
{
    match interaction {
        Interaction::Pressed => ButtonShade::Pressed,
        Interaction::Hovered => if selected {
            ButtonShade::HoveredPressed
        } else {
            ButtonShade::Hovered
        },
        Interaction::Idle => if selected {
            ButtonShade::Pressed
        } else {
            ButtonShade::Normal
        },
    }
}

/// The screen that a button of the main menu leads to: a pressed button for
/// one of the two games leads to that game; nothing else leads anywhere.
pub open spec fn spec_menu_action(interaction: Interaction, action: MenuButtonAction) -> Option<
    Screen,
> {
    if interaction == Interaction::Pressed {
        match action {
            MenuButtonAction::RegionBattle => Some(Screen::RegionGame),
            MenuButtonAction::RPSBattle => Some(Screen::RpsGame),
            _ => None,
        }
    } else {
        None
    }
}

/// The screen that a button of the main menu leads to, if any.
pub fn menu_action(interaction: Interaction, action: MenuButtonAction) -> (next: Option<Screen>)
    ensures
        next == spec_menu_action(interaction, action),
{
    match interaction {
        Interaction::Pressed => match action {
            MenuButtonAction::RegionBattle => Some(Screen::RegionGame),
            MenuButtonAction::RPSBattle => Some(Screen::RpsGame),
            _ => None,
        },
        _ => None,
    }
}

/// The screen that the return control of a game leads to: the menu, when it
/// is pressed.
pub fn return_action(interaction: Interaction) -> (next: Option<Screen>)
    ensures
        next == if interaction == Interaction::Pressed {
            Some(Screen::Menu)
        } else {
            None
        },
{
    match interaction {
        Interaction::Pressed => Some(Screen::Menu),
        _ => None,
    }
}

} // verus!
