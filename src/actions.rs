//! The building controls: whether building is on, which block type of the
//! toolbar is selected, how the block is turned, and the thrusters' power.
use vstd::prelude::*;
use vstd::arithmetic::div_mod::{lemma_add_mod_noop, lemma_mod_bound, lemma_small_mod};
use crate::rotation::{Rot, compose_spec, quarter_y_spec, quarter_z_spec, identity_spec, lemma_four_quarter_turns};

verus! {

/// Thrusters' power when the game starts, in thousandths.
pub const THRUSTERS_POWER_START: u64 = 11000;

/// Above this power (in thousandths) the power may be lowered.
pub const THRUSTERS_POWER_FLOOR: u64 = 12000;

/// Number of toolbar hotkeys.
pub const HOTKEYS: usize = 5;

#[derive(Clone, Copy, Debug, PartialEq, Eq, Structural)]
pub struct BuildingActionsState {
    pub building_active: bool,
    pub active_index: usize,
    /// The facing the player has given the block, composed of quarter turns.
    pub active_rotation: Rot,
    /// In thousandths.
    pub thrusters_power: u64,
}

impl Default for BuildingActionsState {
    fn default() -> (r: BuildingActionsState)
        ensures
            !r.building_active,
            r.active_index == 0,
            r.active_rotation == identity_spec(),
            r.thrusters_power == THRUSTERS_POWER_START,
    {
        BuildingActionsState {
            building_active: false,
            active_index: 0,
            active_rotation: Rot::identity(),
            thrusters_power: THRUSTERS_POWER_START,
        }
    }
}

/// The inputs of one frame that the building controls read.
#[derive(Clone, Copy, Debug)]
pub struct BuildingInput {
    /// The building toggle was pressed.
    pub toggle_building: bool,
    /// The key that puts building away was pressed.
    pub hide_building: bool,
    /// Number of mouse-wheel events with a non-zero delta.
    pub wheel_events: usize,
    /// Which of the toolbar hotkeys, first to last, were pressed.
    pub hotkeys: [bool; 5],
    pub power_up: bool,
    pub power_down: bool,
    /// Turn the block a quarter about the vertical axis.
    pub rotate_y: bool,
    /// Turn the block a quarter about the `z` axis.
    pub rotate_z: bool,
}

/// One wheel step through a toolbar of `len` items: forward, back to the first
/// after the last.
pub open spec fn wheel_step(i: int, len: int) -> int {
    if i + 1 >= len {
        0
    } else {
        i + 1
    }
}

pub open spec fn wheel_steps(i: int, n: nat, len: int) -> int
    decreases n,
{
    if n == 0 {
        i
    } else {
        wheel_step(wheel_steps(i, (n - 1) as nat, len), len)
    }
}

/// The toolbar position a hotkey selects: its own, held to the last item.
pub open spec fn hotkey_index(k: int, len: int) -> int {
    if k < len {
        k
    } else {
        len - 1
    }
}

/// The selection after the hotkeys `keys[0..n]` were read; the last pressed
/// one wins. A toolbar with no items keeps the selection.
pub open spec fn hotkeys_spec(i: int, keys: Seq<bool>, n: int, len: int) -> int
    decreases n,
{
    if n <= 0 {
        i
    } else if keys[n - 1] && len > 0 {
        hotkey_index(n - 1, len)
    } else {
        hotkeys_spec(i, keys, n - 1, len)
    }
}

pub open spec fn power_up_spec(p: int) -> int {
    if p * 11 / 10 > u64::MAX {
        u64::MAX as int
    } else {
        p * 11 / 10
    }
}

pub open spec fn power_down_spec(p: int) -> int {
    if p > THRUSTERS_POWER_FLOOR {
        p * 909 / 1000
    } else {
        p
    }
}

/// The controls after one frame of input, with a toolbar of `len` items.
pub open spec fn actions_spec(s: BuildingActionsState, input: BuildingInput, len: int) -> BuildingActionsState {
    let toggled = if input.toggle_building {
        !s.building_active
    } else {
        s.building_active
    };
    let active = toggled && !input.hide_building;
    let wheeled = wheel_steps(s.active_index as int, input.wheel_events as nat, len);
    let index = hotkeys_spec(wheeled, input.hotkeys@, HOTKEYS as int, len);
    let up = if input.power_up {
        power_up_spec(s.thrusters_power as int)
    } else {
        s.thrusters_power as int
    };
    let power = if input.power_down {
        power_down_spec(up)
    } else {
        up
    };
    let r1 = if active && input.rotate_y {
        compose_spec(s.active_rotation, quarter_y_spec())
    } else {
        s.active_rotation
    };
    let r2 = if active && input.rotate_z {
        compose_spec(r1, quarter_z_spec())
    } else {
        r1
    };
    BuildingActionsState {
        building_active: active,
        active_index: index as usize,
        active_rotation: r2,
        thrusters_power: power as u64,
    }
}

/// Reads one frame of input: the building toggle and the key that puts building
/// away, the mouse wheel stepping through the toolbar (wrapping to the first
/// item), the hotkeys selecting an item directly, the thrusters' power up by a
/// tenth or (above the floor) down by about a tenth, and, while building, the
/// quarter turns of the block.
pub fn update_building_actions_state(
    state: &mut BuildingActionsState,
    toolbar_len: usize,
    input: &BuildingInput,
)
    requires
        old(state).active_rotation.wf(),
    ensures
        *final(state) == actions_spec(*old(state), *input, toolbar_len as int),
        final(state).active_rotation.wf(),
        old(state).active_index < toolbar_len ==> final(state).active_index < toolbar_len,
{
    if input.toggle_building {
        state.building_active = !state.building_active;
    }
    if input.hide_building {
        state.building_active = false;
    }

    let mut next_index: usize = state.active_index;
    let mut n: usize = 0;
    while n < input.wheel_events
        invariant
            n <= input.wheel_events,
            next_index == wheel_steps(old(state).active_index as int, n as nat, toolbar_len as int),
            n == 0 ==> next_index == old(state).active_index,
            n > 0 ==> next_index < toolbar_len || next_index == 0,
            old(state).active_index < toolbar_len ==> next_index < toolbar_len,
        decreases input.wheel_events - n,
    {
        next_index = if next_index >= toolbar_len || next_index + 1 >= toolbar_len {
            0
        } else {
            next_index + 1
        };
        n = n + 1;
    }

    let mut k: usize = 0;
    while k < HOTKEYS
        invariant
            k <= HOTKEYS,
            input.hotkeys@.len() == HOTKEYS,
            next_index == hotkeys_spec(
                wheel_steps(old(state).active_index as int, input.wheel_events as nat, toolbar_len as int),
                input.hotkeys@,
                k as int,
                toolbar_len as int,
            ),
            old(state).active_index < toolbar_len ==> next_index < toolbar_len,
        decreases HOTKEYS - k,
    {
        if input.hotkeys[k] && toolbar_len > 0 {
            next_index = if k < toolbar_len {
                k
            } else {
                toolbar_len - 1
            };
        }
        k = k + 1;
    }
    state.active_index = next_index;

    if input.power_up {
        let p = state.thrusters_power as u128 * 11 / 10;
        state.thrusters_power = if p > u64::MAX as u128 {
            u64::MAX
        } else {
            p as u64
        };
    }
    if input.power_down {
        if state.thrusters_power > THRUSTERS_POWER_FLOOR {
            state.thrusters_power = (state.thrusters_power as u128 * 909 / 1000) as u64;
        }
    }

    if state.building_active {
        if input.rotate_y {
            state.active_rotation = state.active_rotation.compose(&Rot::quarter_y());
        }
        if input.rotate_z {
            state.active_rotation = state.active_rotation.compose(&Rot::quarter_z());
        }
    }
}

/// Four frames that each turn the block a quarter about the same axis, while
/// building stays on, bring the block's facing back to where it started.
pub proof fn lemma_rotation_cycle(s: BuildingActionsState, input: BuildingInput, len: int)
    requires
        s.building_active,
        !input.toggle_building,
        !input.hide_building,
        input.rotate_y != input.rotate_z,
    ensures
        actions_spec(actions_spec(actions_spec(actions_spec(s, input, len), input, len), input, len), input, len).active_rotation
            == s.active_rotation,
{
    lemma_four_quarter_turns(s.active_rotation);
}

/// Scrolling wraps around the toolbar: from a selection on the toolbar, `n`
/// wheel steps select item `(i + n) mod len`.
pub proof fn lemma_wheel_wraps(i: int, n: nat, len: int)
    requires
        0 <= i < len,
    ensures
        wheel_steps(i, n, len) == (i + n) % len,
    decreases n,
{
    if n == 0 {
        lemma_small_mod(i as nat, len as nat);
    } else {
        lemma_wheel_wraps(i, (n - 1) as nat, len);
        let a = (i + n - 1) % len;
        lemma_mod_bound(i + n - 1, len);
        lemma_add_mod_noop(i + n - 1, 1, len);
        if len == 1 {
            assert((i + n) % len == 0) by (nonlinear_arith)
                requires
                    len == 1,
            ;
        } else {
            lemma_small_mod(1, len as nat);
            if a + 1 < len {
                lemma_small_mod((a + 1) as nat, len as nat);
            } else {
                assert((a + 1) % len == 0) by (nonlinear_arith)
                    requires
                        a + 1 == len,
                        len > 0,
                ;
            }
        }
    }
}

} // verus!
