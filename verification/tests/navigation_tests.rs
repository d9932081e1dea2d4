use region_capture::navigation::{
    button_shade, menu_action, return_action, ButtonShade, Interaction, MenuButtonAction, Screen,
};

#[test]
fn pressed_button_is_shown_pressed() {
    assert_eq!(button_shade(Interaction::Pressed, false), ButtonShade::Pressed);
    assert_eq!(button_shade(Interaction::Pressed, true), ButtonShade::Pressed);
}

#[test]
fn selected_button_left_alone_is_shown_pressed() {
    assert_eq!(button_shade(Interaction::Idle, true), ButtonShade::Pressed);
}

#[test]
fn hovered_button_depends_on_selection() {
    assert_eq!(button_shade(Interaction::Hovered, true), ButtonShade::HoveredPressed);
    assert_eq!(button_shade(Interaction::Hovered, false), ButtonShade::Hovered);
}

#[test]
fn button_left_alone_is_shown_normal() {
    assert_eq!(button_shade(Interaction::Idle, false), ButtonShade::Normal);
}

#[test]
fn pressed_game_buttons_lead_to_their_games() {
    assert_eq!(
        menu_action(Interaction::Pressed, MenuButtonAction::RegionBattle),
        Some(Screen::RegionGame)
    );
    assert_eq!(
        menu_action(Interaction::Pressed, MenuButtonAction::RPSBattle),
        Some(Screen::RpsGame)
    );
}

#[test]
fn other_menu_buttons_lead_nowhere() {
    assert_eq!(menu_action(Interaction::Pressed, MenuButtonAction::HardPlay), None);
    assert_eq!(menu_action(Interaction::Pressed, MenuButtonAction::Help), None);
    assert_eq!(menu_action(Interaction::Pressed, MenuButtonAction::Quit), None);
}

#[test]
fn buttons_that_are_not_pressed_lead_nowhere() {
    assert_eq!(menu_action(Interaction::Hovered, MenuButtonAction::RegionBattle), None);
    assert_eq!(menu_action(Interaction::Idle, MenuButtonAction::RPSBattle), None);
    assert_eq!(return_action(Interaction::Hovered), None);
    assert_eq!(return_action(Interaction::Idle), None);
}

#[test]
fn pressed_return_control_leads_to_the_menu() {
    assert_eq!(return_action(Interaction::Pressed), Some(Screen::Menu));
}
