//! The pause menu: its screens, its buttons and what they do.

use vstd::prelude::*;
use crate::game::GameState;
use crate::menus::main_menu::{Interaction, MenuState};

verus! {

/// The screen that the pause menu shows.
#[derive(Clone, Copy, Debug, PartialEq, Eq, Structural)]
pub enum InGameMenuState {
    Base,
    Settings,
    Disabled,
}

/// The screen from which the game was paused.
#[derive(Clone, Copy, Debug, PartialEq, Eq, Structural)]
pub enum PauseFromState {
    Game,
    Disabled,
}

/// What a button of the pause menu does.
#[derive(Clone, Copy, Debug, PartialEq, Eq, Structural)]
pub enum InGameMenuButtonAction {
    Resume,
    Settings,
    BackToInGameMenu,
    BackToMainMenu,
    Quit,
}

/// What follows from the buttons of one frame; `None` leaves a state as it is.
#[derive(Clone, Copy, Debug, PartialEq, Eq, Structural)]
pub struct PauseMenuOutcome {
    pub exit: bool,
    pub game_state: Option<GameState>,
    pub menu_state: Option<MenuState>,
    pub paused_menu_state: Option<InGameMenuState>,
}

impl Default for InGameMenuState {
    fn default() -> (r: InGameMenuState)
        ensures
            r == InGameMenuState::Disabled,
    {
        InGameMenuState::Disabled
    }
}

/// The screen that the pause menu shows when the game is paused.
pub fn menu_setup() -> (r: InGameMenuState)
    ensures
        r == InGameMenuState::Base,
{
    InGameMenuState::Base
}

/// What one button does to the outcome so far.
pub open spec fn acted(
    outcome: PauseMenuOutcome,
    button: (Interaction, InGameMenuButtonAction),
) -> PauseMenuOutcome {
    if button.0 == Interaction::Pressed {
        match button.1 {
            InGameMenuButtonAction::Quit => PauseMenuOutcome { exit: true, ..outcome },
            InGameMenuButtonAction::Resume => PauseMenuOutcome {
                game_state: Some(GameState::Game),
                paused_menu_state: Some(InGameMenuState::Disabled),
                ..outcome
            },
            InGameMenuButtonAction::Settings => PauseMenuOutcome {
                paused_menu_state: Some(InGameMenuState::Settings),
                ..outcome
            },
            InGameMenuButtonAction::BackToInGameMenu => PauseMenuOutcome {
                paused_menu_state: Some(InGameMenuState::Base),
                ..outcome
            },
            InGameMenuButtonAction::BackToMainMenu => PauseMenuOutcome {
                game_state: Some(GameState::Menu),
                menu_state: Some(MenuState::Main),
                paused_menu_state: Some(InGameMenuState::Disabled),
                ..outcome
            },
        }
    } else {
        outcome
    }
}

/// What the buttons of one frame do, taken in order: a later button
/// overrules an earlier one where both set the same state.
pub open spec fn menu_outcome(buttons: Seq<(Interaction, InGameMenuButtonAction)>) -> PauseMenuOutcome
    decreases buttons.len(),
{
    if buttons.len() == 0 {
        PauseMenuOutcome { exit: false, game_state: None, menu_state: None, paused_menu_state: None }
    } else {
        acted(menu_outcome(buttons.drop_last()), buttons.last())
    }
}

/// What the buttons of the pause menu do in one frame.
pub fn menu_action(buttons: &Vec<(Interaction, InGameMenuButtonAction)>) -> (outcome: PauseMenuOutcome)
    ensures
        outcome == menu_outcome(buttons@),
{
    let mut outcome = PauseMenuOutcome {
        exit: false,
        game_state: None,
        menu_state: None,
        paused_menu_state: None,
    };
    let mut i: usize = 0;
    while i < buttons.len()
        invariant
            i <= buttons.len(),
            outcome == menu_outcome(buttons@.take(i as int)),
        decreases buttons.len() - i,
    {
        proof {
            assert(buttons@.take(i + 1).drop_last() == buttons@.take(i as int));
        }
        let button: (Interaction, InGameMenuButtonAction) = buttons[i];
        if button.0 == Interaction::Pressed {
            match button.1 {
                InGameMenuButtonAction::Quit => {
                    outcome.exit = true;
                },
                InGameMenuButtonAction::Resume => {
                    outcome.game_state = Some(GameState::Game);
                    outcome.paused_menu_state = Some(InGameMenuState::Disabled);
                },
                InGameMenuButtonAction::Settings => {
                    outcome.paused_menu_state = Some(InGameMenuState::Settings);
                },
                InGameMenuButtonAction::BackToInGameMenu => {
                    outcome.paused_menu_state = Some(InGameMenuState::Base);
                },
                InGameMenuButtonAction::BackToMainMenu => {
                    outcome.game_state = Some(GameState::Menu);
                    outcome.menu_state = Some(MenuState::Main);
                    outcome.paused_menu_state = Some(InGameMenuState::Disabled);
                },
            }
        }
        i = i + 1;
    }
    proof {
        assert(buttons@.take(i as int) == buttons@);
    }
    outcome
}

} // verus!
