//! The levels: which one is on, and the pause key while one runs.

use vstd::prelude::*;
use crate::game::SimulationState;
use crate::menus::pause_menu::InGameMenuState;

verus! {

/// The level that is on.
#[derive(Clone, Copy, Debug, PartialEq, Eq, Structural)]
pub enum LevelState {
    ONE,
    Disabled,
}

/// The states that change when the pause key is pressed in a level; `None`
/// leaves a state as it is.
#[derive(Clone, Copy, Debug, PartialEq, Eq, Structural)]
pub struct LevelTransition {
    pub simulation_state: Option<SimulationState>,
    pub paused_menu_state: Option<InGameMenuState>,
}

impl Default for LevelState {
    fn default() -> (r: LevelState)
        ensures
            r == LevelState::Disabled,
    {
        LevelState::Disabled
    }
}

/// The level that is on when the levels are entered.
pub fn levels_setup() -> (r: LevelState)
    ensures
        r == LevelState::ONE,
{
    LevelState::ONE
}

/// What the pause key does in a level: it pauses a running simulation, and
/// it resumes a paused one and closes the pause menu. Without the key
/// nothing changes.
pub fn level_action(escape_pressed: bool, state: SimulationState) -> (r: LevelTransition)
    ensures
        !escape_pressed ==> r == (LevelTransition {
            simulation_state: None,
            paused_menu_state: None,
        }),
        escape_pressed && state == SimulationState::Running ==> r == (LevelTransition {
            simulation_state: Some(SimulationState::Paused),
            paused_menu_state: None,
        }),
        escape_pressed && state == SimulationState::Paused ==> r == (LevelTransition {
            simulation_state: Some(SimulationState::Running),
            paused_menu_state: Some(InGameMenuState::Disabled),
        }),
{
    if !escape_pressed {
        LevelTransition { simulation_state: None, paused_menu_state: None }
    } else {
        match state {
            SimulationState::Running => LevelTransition {
                simulation_state: Some(SimulationState::Paused),
                paused_menu_state: None,
            },
            SimulationState::Paused => LevelTransition {
                simulation_state: Some(SimulationState::Running),
                paused_menu_state: Some(InGameMenuState::Disabled),
            },
        }
    }
}

} // verus!
