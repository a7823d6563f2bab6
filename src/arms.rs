//! The first-person arms' animation: which clip plays for the tool in hand.
use vstd::prelude::*;
use crate::actions::BuildingActionsState;

verus! {

#[derive(Clone, Copy, Debug, PartialEq, Eq, Structural)]
pub enum AnimationState {
    Init,
    Idle,
    Seated,
    BuildToolOpen,
    BuildToolHold,
    BuildToolActive,
    UnbuildToolOpen,
    UnbuildToolHold,
}

/// The held pose of each tool: building, unbuilding, empty hands.
pub open spec fn tool_state(i: int) -> AnimationState {
    if i == 0 {
        AnimationState::BuildToolHold
    } else if i == 1 {
        AnimationState::UnbuildToolHold
    } else {
        AnimationState::Idle
    }
}

/// The opening pose of each tool.
pub open spec fn tool_open_state(i: int) -> AnimationState {
    if i == 0 {
        AnimationState::BuildToolOpen
    } else if i == 1 {
        AnimationState::UnbuildToolOpen
    } else {
        AnimationState::Idle
    }
}

fn tool_state_of(i: usize) -> (r: AnimationState)
    ensures
        r == tool_state(i as int),
{
    if i == 0 {
        AnimationState::BuildToolHold
    } else if i == 1 {
        AnimationState::UnbuildToolHold
    } else {
        AnimationState::Idle
    }
}

fn tool_open_state_of(i: usize) -> (r: AnimationState)
    ensures
        r == tool_open_state(i as int),
{
    if i == 0 {
        AnimationState::BuildToolOpen
    } else if i == 1 {
        AnimationState::UnbuildToolOpen
    } else {
        AnimationState::Idle
    }
}

/// The arms' animation state and the tool they hold.
#[derive(Clone, Copy, Debug, PartialEq, Eq, Structural)]
pub struct MfpsArmsAnimationsHandler {
    pub animation_state: AnimationState,
    /// The tool in hand, the toolbar selection held to the last tool.
    pub active_index: usize,
}

/// The pose the arms take next: idle while building; otherwise the selected
/// tool's held pose unless the arms already hold or open it, and the building
/// tool's active pose while the mouse button is held.
pub open spec fn next_pose(state: AnimationState, tool: int, building_active: bool, mouse_held: bool) -> AnimationState {
    if building_active {
        AnimationState::Idle
    } else {
        let held = if state != tool_state(tool) && state != tool_open_state(tool) {
            tool_state(tool)
        } else {
            state
        };
        if held == AnimationState::BuildToolHold && mouse_held {
            AnimationState::BuildToolActive
        } else {
            held
        }
    }
}

/// One frame of the arms: the clip to start, when the pose changes.
pub fn animate_mfps_arms(arms: &mut MfpsArmsAnimationsHandler, actions: &BuildingActionsState, mouse_held: bool) -> (r: Option<
    AnimationState,
>)
    ensures
        final(arms).active_index == (if actions.building_active {
            old(arms).active_index
        } else if actions.active_index < 2 {
            actions.active_index
        } else {
            2
        }),
        ({
            let next = next_pose(
                old(arms).animation_state,
                final(arms).active_index as int,
                actions.building_active,
                mouse_held,
            );
            &&& final(arms).animation_state == next
            &&& r == (if next != old(arms).animation_state {
                Some(next)
            } else {
                None
            })
        }),
{
    let mut change = arms.animation_state;
    if actions.building_active {
        change = AnimationState::Idle;
    } else {
        arms.active_index = if actions.active_index < 2 {
            actions.active_index
        } else {
            2
        };
        let hold = tool_state_of(arms.active_index);
        let open = tool_open_state_of(arms.active_index);
        if arms.animation_state != hold && arms.animation_state != open {
            change = hold;
        }
        if change == AnimationState::BuildToolHold && mouse_held {
            change = AnimationState::BuildToolActive;
        }
    }
    if change != arms.animation_state {
        arms.animation_state = change;
        Some(change)
    } else {
        None
    }
}

} // verus!
