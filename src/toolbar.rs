//! What the building toolbar and the thrusters' display follow of the
//! building controls, frame by frame.
use vstd::prelude::*;
use crate::actions::BuildingActionsState;

verus! {

/// Below this power (in thousandths) the thrusters are off.
pub const THRUSTERS_CUTOFF: u64 = 12000;

/// What the toolbar shows.
#[derive(Clone, Copy, Debug, PartialEq, Eq, Structural)]
pub struct BuildingToolbarState {
    /// The block bar is shown rather than the tool bar.
    pub bps_active: bool,
    /// The highlighted item.
    pub active_index: Option<usize>,
}

/// Changes the toolbar is to make this frame.
#[derive(Clone, Copy, Debug, PartialEq, Eq, Structural)]
pub struct ToolbarUpdate {
    /// Switch to the block bar (`true`) or the tool bar (`false`).
    pub switch_to_blocks: Option<bool>,
    /// Highlight this item and dim the others.
    pub highlight: Option<usize>,
}

impl Default for BuildingToolbarState {
    fn default() -> (r: BuildingToolbarState)
        ensures
            r == (BuildingToolbarState { bps_active: false, active_index: None }),
    {
        BuildingToolbarState { bps_active: false, active_index: None }
    }
}

/// Follows the building controls: the bar switches when building is turned on
/// or off, and the highlight moves when the selection changes.
pub fn update_building_toolbar(state: &mut BuildingToolbarState, actions: &BuildingActionsState) -> (r: ToolbarUpdate)
    ensures
        final(state).bps_active == actions.building_active,
        final(state).active_index == Some(actions.active_index),
        r.switch_to_blocks == (if actions.building_active != old(state).bps_active {
            Some(actions.building_active)
        } else {
            None
        }),
        r.highlight == (if old(state).active_index != Some(actions.active_index) {
            Some(actions.active_index)
        } else {
            None
        }),
{
    let mut switch_to_blocks: Option<bool> = None;
    if actions.building_active != state.bps_active {
        state.bps_active = actions.building_active;
        switch_to_blocks = Some(state.bps_active);
    }
    let mut highlight: Option<usize> = None;
    let same = match state.active_index {
        Some(i) => i == actions.active_index,
        None => false,
    };
    if !same {
        state.active_index = Some(actions.active_index);
        highlight = Some(actions.active_index);
    }
    ToolbarUpdate { switch_to_blocks, highlight }
}

/// The thrusters as last applied.
#[derive(Clone, Copy, Debug, PartialEq, Eq, Structural)]
pub struct ThrustersState {
    /// The power last handed to the thrusters, in thousandths.
    pub thrusters_power: u64,
    /// The combustion sprites are up.
    pub thrusters_animating: bool,
}

/// Changes the thrusters are to make this frame.
#[derive(Clone, Copy, Debug, PartialEq, Eq, Structural)]
pub struct ThrustersUpdate {
    /// Take the sprites down, take the force off the grids and blank the status.
    pub shut_down: bool,
    /// Push every thruster's grid along the thruster's up axis with this
    /// power, and show it.
    pub set_power: Option<u64>,
    /// Put the combustion sprites up.
    pub start_animating: bool,
}

/// Follows the thrusters' power: below the cutoff the thrusters shut down
/// (once); otherwise a change of more than a thousandth is applied and the
/// sprites go up if they are not.
pub fn update_thrusters_state(state: &mut ThrustersState, actions: &BuildingActionsState) -> (r: ThrustersUpdate)
    ensures
        actions.thrusters_power < THRUSTERS_CUTOFF ==> {
            &&& r == (ThrustersUpdate {
                shut_down: old(state).thrusters_animating,
                set_power: None,
                start_animating: false,
            })
            &&& final(state).thrusters_animating == false
            &&& final(state).thrusters_power == old(state).thrusters_power
        },
        actions.thrusters_power >= THRUSTERS_CUTOFF ==> {
            let changed = actions.thrusters_power > old(state).thrusters_power + 1
                || old(state).thrusters_power > actions.thrusters_power + 1;
            &&& !r.shut_down
            &&& r.set_power == (if changed {
                Some(actions.thrusters_power)
            } else {
                None
            })
            &&& final(state).thrusters_power == (if changed {
                actions.thrusters_power
            } else {
                old(state).thrusters_power
            })
            &&& r.start_animating == !old(state).thrusters_animating
            &&& final(state).thrusters_animating
        },
{
    if actions.thrusters_power < THRUSTERS_CUTOFF {
        let shut_down = state.thrusters_animating;
        state.thrusters_animating = false;
        return ThrustersUpdate { shut_down, set_power: None, start_animating: false };
    }
    let p = actions.thrusters_power;
    let q = state.thrusters_power;
    let diff: u64 = if p > q {
        p - q
    } else {
        q - p
    };
    let mut set_power: Option<u64> = None;
    if diff > 1 {
        state.thrusters_power = p;
        set_power = Some(p);
    }
    let start_animating = !state.thrusters_animating;
    state.thrusters_animating = true;
    ThrustersUpdate { shut_down: false, set_power, start_animating }
}

} // verus!
