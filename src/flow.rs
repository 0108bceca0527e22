//! The screens of the game, what moves between them, and how the menu's
//! buttons respond to the pointer.

use vstd::prelude::*;

verus! {

/// The screen the game shows.
#[derive(Clone, Copy, PartialEq, Eq, Structural, Debug, Hash)]
pub enum GameState {
    StartMenu,
    Playing,
    GameOverMenu,
}

/// Something the player did that may change the screen.
#[derive(Clone, Copy, PartialEq, Eq, Structural, Debug)]
pub enum FlowEvent {
    /// The start button was clicked and released.
    StartButton,
    /// The exit button was clicked and released.
    ExitButton,
    /// The escape key was pressed.
    Escape,
}

/// What the game does in answer to a `FlowEvent`.
#[derive(Clone, Copy, PartialEq, Eq, Structural, Debug)]
pub enum FlowAction {
    /// Nothing changes.
    Stay,
    /// The game moves to another screen.
    Enter(GameState),
    /// The game closes.
    Quit,
}

/// The pointer's relation to a button.
#[derive(Clone, Copy, PartialEq, Eq, Structural, Debug)]
pub enum Interaction {
    Clicked,
    Hovered,
    Idle,
}

/// The answer of each screen to each event: in the start menu the start
/// button starts a game and the exit button or escape closes the game; while
/// playing, escape goes back to the start menu; anything else changes nothing.
pub open spec fn flow_step(state: GameState, event: FlowEvent) -> FlowAction {
    match (state, event) {
        (GameState::StartMenu, FlowEvent::StartButton) => FlowAction::Enter(GameState::Playing),
        (GameState::StartMenu, FlowEvent::ExitButton) => FlowAction::Quit,
        (GameState::StartMenu, FlowEvent::Escape) => FlowAction::Quit,
        (GameState::Playing, FlowEvent::Escape) => FlowAction::Enter(GameState::StartMenu),
        _ => FlowAction::Stay,
    }
}

/// Grey level of a button, in percent of white: darker the closer the
/// pointer is to pressing it.
pub open spec fn shade_of(i: Interaction) -> u8 {
    match i {
        Interaction::Clicked => 75,
        Interaction::Hovered => 80,
        Interaction::Idle => 100,
    }
}

impl GameState {
    /// The game starts in the start menu.
    pub fn initial() -> (r: GameState)
        ensures
            r == GameState::StartMenu,
    {
        GameState::StartMenu
    }

    /// What the game does when `event` comes in this state.
    pub fn on_event(&self, event: FlowEvent) -> (r: FlowAction)
        ensures
            r == flow_step(*self, event),
    {
        match (self, event) {
            (GameState::StartMenu, FlowEvent::StartButton) => FlowAction::Enter(GameState::Playing),
            (GameState::StartMenu, FlowEvent::ExitButton) => FlowAction::Quit,
            (GameState::StartMenu, FlowEvent::Escape) => FlowAction::Quit,
            (GameState::Playing, FlowEvent::Escape) => FlowAction::Enter(GameState::StartMenu),
            _ => FlowAction::Stay,
        }
    }

    /// Whether notes fall and lane keys play in this state.
    pub fn is_playing(&self) -> (r: bool)
        ensures
            r == (*self == GameState::Playing),
    {
        match self {
            GameState::Playing => true,
            _ => false,
        }
    }
}

impl Interaction {
    /// Grey level of a button in this interaction, in percent of white.
    pub fn shade_percent(&self) -> (r: u8)
        ensures
            r == shade_of(*self),
    {
        match self {
            Interaction::Clicked => 75,
            Interaction::Hovered => 80,
            Interaction::Idle => 100,
        }
    }
}

/// Takes a button's new interaction, with the one it had before in `prev`.
/// A button that goes from clicked to hovered was released over it: that is
/// a press, and `true` comes back with `prev` left as it was. Any other change
/// is recorded in `prev` and gives `false`.
pub fn button_pressed(new: Interaction, prev: &mut Interaction) -> (r: bool)
    ensures
        r == (new == Interaction::Hovered && *old(prev) == Interaction::Clicked),
        r ==> *final(prev) == *old(prev),
        !r ==> *final(prev) == new,
{
    if new == Interaction::Hovered && *prev == Interaction::Clicked {
        return true;
    }
    *prev = new;
    false
}

} // verus!
