//! The coarse game states and the transitions the core requests of them:
//! pausing and the main-menu actions. Input reading, button rendering and
//! the actual state hosting stay with the caller.

use vstd::prelude::*;

verus! {

/// Top-level state of the application.
#[derive(Clone, Copy, PartialEq, Eq, Structural, Debug)]
pub enum AppState {
    Menu,
    InGame,
    Paused,
}

/// State of the menu overlay.
#[derive(Clone, Copy, PartialEq, Eq, Structural, Debug)]
pub enum MenuState {
    Main,
    Settings,
    Disabled,
}

/// A pressed main-menu button.
#[derive(Clone, Copy, PartialEq, Eq, Structural, Debug)]
pub enum MenuButtonAction {
    Play,
    Settings,
    Quit,
}

/// What a menu action asks the host to do.
#[derive(Clone, Copy, PartialEq, Eq, Structural, Debug)]
pub struct MenuTransition {
    /// New top-level state, if the action changes it.
    pub game_state: Option<AppState>,
    /// New menu state, if the action changes it.
    pub menu_state: Option<MenuState>,
    /// Whether the application should quit.
    pub exit: bool,
}

/// Pause toggle: on the rising edge of the pause action, a running game
/// pauses and a paused game resumes. The pause action is never delivered
/// in the menu.
pub fn pause_continue_game(state: AppState, escape_pressed: bool) -> (r: AppState)
    requires
        escape_pressed ==> state != AppState::Menu,
    ensures
        r == if escape_pressed {
            if state == AppState::InGame {
                AppState::Paused
            } else {
                AppState::InGame
            }
        } else {
            state
        },
{
    if escape_pressed {
        match state {
            AppState::InGame => AppState::Paused,
            AppState::Paused => AppState::InGame,
            AppState::Menu => AppState::InGame,  // ruled out by the precondition
        }
    } else {
        state
    }
}

/// Main-menu dispatch: Play enters the game and hides the menu; Quit
/// asks the host to exit. The settings screen is not implemented, so
/// that action is never delivered.
pub fn update_menu_game_state(action: &MenuButtonAction) -> (r: MenuTransition)
    requires
        *action != MenuButtonAction::Settings,
    ensures
        *action == MenuButtonAction::Play ==> r == (MenuTransition {
            game_state: Some(AppState::InGame),
            menu_state: Some(MenuState::Disabled),
            exit: false,
        }),
        *action == MenuButtonAction::Quit ==> r == (MenuTransition {
            game_state: None::<AppState>,
            menu_state: None::<MenuState>,
            exit: true,
        }),
{
    match action {
        MenuButtonAction::Play => MenuTransition {
            game_state: Some(AppState::InGame),
            menu_state: Some(MenuState::Disabled),
            exit: false,
        },
        // ruled out by the precondition
        MenuButtonAction::Settings => MenuTransition {
            game_state: None,
            menu_state: None,
            exit: false,
        },
        MenuButtonAction::Quit => MenuTransition { game_state: None, menu_state: None, exit: true },
    }
}

} // verus!
