use rhythm_game::flow::button_pressed;
use rhythm_game::{FlowAction, FlowEvent, GameState, Interaction};

#[test]
fn game_starts_in_the_menu() {
    assert_eq!(GameState::initial(), GameState::StartMenu);
    assert!(!GameState::StartMenu.is_playing());
    assert!(GameState::Playing.is_playing());
    assert!(!GameState::GameOverMenu.is_playing());
}

#[test]
fn menu_buttons_and_escape() {
    let m = GameState::StartMenu;
    assert_eq!(m.on_event(FlowEvent::StartButton), FlowAction::Enter(GameState::Playing));
    assert_eq!(m.on_event(FlowEvent::ExitButton), FlowAction::Quit);
    assert_eq!(m.on_event(FlowEvent::Escape), FlowAction::Quit);
}

#[test]
fn escape_while_playing_returns_to_the_menu() {
    let p = GameState::Playing;
    assert_eq!(p.on_event(FlowEvent::Escape), FlowAction::Enter(GameState::StartMenu));
    assert_eq!(p.on_event(FlowEvent::StartButton), FlowAction::Stay);
    assert_eq!(p.on_event(FlowEvent::ExitButton), FlowAction::Stay);
    assert_eq!(GameState::GameOverMenu.on_event(FlowEvent::Escape), FlowAction::Stay);
}

#[test]
fn release_over_a_clicked_button_is_a_press() {
    let mut prev = Interaction::Idle;
    assert!(!button_pressed(Interaction::Hovered, &mut prev));
    assert_eq!(prev, Interaction::Hovered);
    assert!(!button_pressed(Interaction::Clicked, &mut prev));
    assert_eq!(prev, Interaction::Clicked);
    assert!(button_pressed(Interaction::Hovered, &mut prev));
    assert_eq!(prev, Interaction::Clicked);
    assert!(!button_pressed(Interaction::Idle, &mut prev));
    assert_eq!(prev, Interaction::Idle);
}

#[test]
fn hover_without_click_is_no_press() {
    let mut prev = Interaction::Hovered;
    assert!(!button_pressed(Interaction::Hovered, &mut prev));
    let mut prev = Interaction::Clicked;
    assert!(!button_pressed(Interaction::Idle, &mut prev));
    assert_eq!(prev, Interaction::Idle);
}

#[test]
fn button_shades() {
    assert_eq!(Interaction::Clicked.shade_percent(), 75);
    assert_eq!(Interaction::Hovered.shade_percent(), 80);
    assert_eq!(Interaction::Idle.shade_percent(), 100);
}
