//! The main menu: its screens, its buttons and what they do.

use vstd::prelude::*;
use crate::game::{GameState, SetFps};

verus! {

/// The screen that the main menu shows.
#[derive(Clone, Copy, Debug, PartialEq, Eq, Structural)]
pub enum MenuState {
    Main,
    Settings,
    Disabled,
}

/// What the pointer does to a button.
#[derive(Clone, Copy, Debug, PartialEq, Eq, Structural)]
pub enum Interaction {
    Pressed,
    Hovered,
    /// The pointer is elsewhere.
    Idle,
}

/// The colour of a button.
#[derive(Clone, Copy, Debug, PartialEq, Eq, Structural)]
pub enum ButtonColor {
    Normal,
    Hovered,
    HoveredPressed,
    Pressed,
}

/// What a button of the main menu does.
#[derive(Clone, Copy, Debug, PartialEq, Eq, Structural)]
pub enum MenuButtonAction {
    Play,
    Settings,
    BackToMainMenu,
    Quit,
}

/// What follows from the buttons of one frame; `None` leaves a state as it is.
#[derive(Clone, Copy, Debug, PartialEq, Eq, Structural)]
pub struct MenuOutcome {
    pub exit: bool,
    pub game_state: Option<GameState>,
    pub menu_state: Option<MenuState>,
}

impl Default for MenuState {
    fn default() -> (r: MenuState)
        ensures
            r == MenuState::Disabled,
    {
        MenuState::Disabled
    }
}

/// The colour that a button takes: pressed while it is pressed, and while
/// it is the selected option and not hovered; a lighter shade while hovered.
pub fn button_system(interaction: Interaction, selected: bool) -> (r: ButtonColor)
    ensures
        r == (match (interaction, selected) {
            (Interaction::Pressed, _) => ButtonColor::Pressed,
            (Interaction::Idle, true) => ButtonColor::Pressed,
            (Interaction::Hovered, true) => ButtonColor::HoveredPressed,
            (Interaction::Hovered, false) => ButtonColor::Hovered,
            (Interaction::Idle, false) => ButtonColor::Normal,
        }),
{
    match interaction {
        Interaction::Pressed => ButtonColor::Pressed,
        Interaction::Hovered => if selected {
            ButtonColor::HoveredPressed
        } else {
            ButtonColor::Hovered
        },
        Interaction::Idle => if selected {
            ButtonColor::Pressed
        } else {
            ButtonColor::Normal
        },
    }
}

/// The screen that the main menu shows when it is entered.
pub fn menu_setup() -> (r: MenuState)
    ensures
        r == MenuState::Main,
{
    MenuState::Main
}

/// The setting after one button: a pressed button with another value sets it.
pub open spec fn chosen(setting: SetFps, button: (Interaction, SetFps)) -> SetFps {
    if button.0 == Interaction::Pressed && button.1 != setting {
        button.1
    } else {
        setting
    }
}

/// The setting after the buttons of one frame, taken in order.
pub open spec fn setting_after(setting: SetFps, buttons: Seq<(Interaction, SetFps)>) -> SetFps
    decreases buttons.len(),
{
    if buttons.len() == 0 {
        setting
    } else {
        chosen(setting_after(setting, buttons.drop_last()), buttons.last())
    }
}

/// The button that is marked as selected after the buttons of one frame:
/// the last one that changed the setting, if any did.
pub open spec fn selected_after(setting: SetFps, buttons: Seq<(Interaction, SetFps)>) -> Option<usize>
    decreases buttons.len(),
{
    if buttons.len() == 0 {
        None
    } else {
        let earlier = setting_after(setting, buttons.drop_last());
        if chosen(earlier, buttons.last()) != earlier {
            Some((buttons.len() - 1) as usize)
        } else {
            selected_after(setting, buttons.drop_last())
        }
    }
}

/// Takes up a newly chosen value of a setting. Returns the place of the
/// button that is now to be marked as selected, if the setting changed.
pub fn setting_button(buttons: &Vec<(Interaction, SetFps)>, setting: &mut SetFps) -> (selected: Option<
    usize,
>)
    ensures
        *final(setting) == setting_after(*old(setting), buttons@),
        selected == selected_after(*old(setting), buttons@),
        selected is None ==> *final(setting) == *old(setting),
{
    let mut selected: Option<usize> = None;
    let mut i: usize = 0;
    while i < buttons.len()
        invariant
            i <= buttons.len(),
            *setting == setting_after(*old(setting), buttons@.take(i as int)),
            selected == selected_after(*old(setting), buttons@.take(i as int)),
            selected is None ==> *setting == *old(setting),
        decreases buttons.len() - i,
    {
        proof {
            assert(buttons@.take(i + 1).drop_last() == buttons@.take(i as int));
        }
        let button: (Interaction, SetFps) = buttons[i];
        if button.0 == Interaction::Pressed && button.1 != *setting {
            *setting = button.1;
            selected = Some(i);
        }
        i = i + 1;
    }
    proof {
        assert(buttons@.take(i as int) == buttons@);
    }
    selected
}

/// What one button does to the outcome so far.
pub open spec fn acted(outcome: MenuOutcome, button: (Interaction, MenuButtonAction)) -> MenuOutcome {
    if button.0 == Interaction::Pressed {
        match button.1 {
            MenuButtonAction::Quit => MenuOutcome { exit: true, ..outcome },
            MenuButtonAction::Play => MenuOutcome {
                game_state: Some(GameState::Game),
                menu_state: Some(MenuState::Disabled),
                ..outcome
            },
            MenuButtonAction::Settings => MenuOutcome {
                menu_state: Some(MenuState::Settings),
                ..outcome
            },
            MenuButtonAction::BackToMainMenu => MenuOutcome {
                menu_state: Some(MenuState::Main),
                ..outcome
            },
        }
    } else {
        outcome
    }
}

/// What the buttons of one frame do, taken in order: a later button
/// overrules an earlier one where both set the same state.
pub open spec fn menu_outcome(buttons: Seq<(Interaction, MenuButtonAction)>) -> MenuOutcome
    decreases buttons.len(),
{
    if buttons.len() == 0 {
        MenuOutcome { exit: false, game_state: None, menu_state: None }
    } else {
        acted(menu_outcome(buttons.drop_last()), buttons.last())
    }
}

/// What the buttons of the main menu do in one frame.
pub fn menu_action(buttons: &Vec<(Interaction, MenuButtonAction)>) -> (outcome: MenuOutcome)
    ensures
        outcome == menu_outcome(buttons@),
{
    let mut outcome = MenuOutcome { exit: false, game_state: None, menu_state: None };
    let mut i: usize = 0;
    while i < buttons.len()
        invariant
            i <= buttons.len(),
            outcome == menu_outcome(buttons@.take(i as int)),
        decreases buttons.len() - i,
    {
        proof {
            assert(buttons@.take(i + 1).drop_last() == buttons@.take(i as int));
        }
        let button: (Interaction, MenuButtonAction) = buttons[i];
        if button.0 == Interaction::Pressed {
            match button.1 {
                MenuButtonAction::Quit => {
                    outcome.exit = true;
                },
                MenuButtonAction::Play => {
                    outcome.game_state = Some(GameState::Game);
                    outcome.menu_state = Some(MenuState::Disabled);
                },
                MenuButtonAction::Settings => {
                    outcome.menu_state = Some(MenuState::Settings);
                },
                MenuButtonAction::BackToMainMenu => {
                    outcome.menu_state = Some(MenuState::Main);
                },
            }
        }
        i = i + 1;
    }
    proof {
        assert(buttons@.take(i as int) == buttons@);
    }
    outcome
}

} // verus!
