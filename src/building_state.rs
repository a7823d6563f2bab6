//! The building tool from frame to frame: the preview, its debounced casts and
//! the placing of a block on a click.
use vstd::prelude::*;
use crate::geometry::add3;
use crate::rotation::{Rot, rot_apply, compose_spec};
use crate::grid::Placement;
use crate::blueprint::{BlockShape, BpInfos};
use crate::placement::BpCastResult;
use crate::actions::BuildingActionsState;
use crate::registry::{BpSnapsEvent, Grids, find_or_create_grid, empty_grid_model_in};

verus! {

/// How long the preview rests after it snapped to an anchor, in milliseconds.
pub const SNAP_DELAY_MS: u64 = 300;

/// The building tool's own state.
#[derive(Clone, Copy, Debug, PartialEq, Eq, Structural)]
pub struct BuildingState {
    /// The block type the preview shows.
    pub active_index: usize,
    /// The preview entity while it is shown.
    pub shown_bp_entity: Option<u64>,
    /// The latest resolved placement.
    pub cast_result: BpCastResult,
    /// Time left before the next cast, in milliseconds.
    pub cast_wait_ms: u64,
}

/// A block to place, as decided on a click.
#[derive(Clone, Copy, Debug, PartialEq, Eq, Structural)]
pub struct BlockPlacement {
    pub index: usize,
    /// The grid the block joins; `None` for a new grid.
    pub grid_entity: Option<u64>,
    /// The transform of the new grid, when there is one.
    pub grid_transform: Option<Placement>,
    /// The block's transform in its grid.
    pub local_transform: Placement,
    /// The block is a thruster and gets the thruster's interaction.
    pub thruster: bool,
}

/// What a frame of the building tool asks the engine to do.
#[derive(Clone, Copy, Debug, PartialEq, Eq, Structural)]
pub struct BuildingFrame {
    /// A preview to hide.
    pub hide: Option<u64>,
    /// A preview to make visible.
    pub show: Option<u64>,
    /// The block type whose scene the preview is to take.
    pub swap_scene: Option<usize>,
    pub place: Option<BlockPlacement>,
}

/// A block's part of its grid's collider: a shape where the block stands.
#[derive(Clone, Copy, Debug, PartialEq, Eq, Structural)]
pub struct BlockCollider {
    pub placement: Placement,
    pub shape: BlockShape,
}

/// A placed block's link to its grid, with its part of the grid's collider.
#[derive(Clone, Copy, Debug, PartialEq, Eq, Structural)]
pub struct GridBlock {
    pub entity: u64,
    pub collider: Option<BlockCollider>,
}

/// The transform `b` taken into the frame of `a`: `a * b`.
pub open spec fn placement_mul(a: Placement, b: Placement) -> ((int, int, int), Rot) {
    (add3(a.translation@, rot_apply(a.rotation, b.translation@)), compose_spec(a.rotation, b.rotation))
}

impl Placement {
    /// This transform followed by `other` in its frame.
    pub fn mul(&self, other: &Placement) -> (r: Placement)
        requires
            self.wf(),
            other.wf(),
        ensures
            (r.translation@, r.rotation) == placement_mul(*self, *other),
    {
        let moved = self.rotation.apply(&other.translation);
        Placement {
            translation: self.translation.add(&moved),
            rotation: self.rotation.compose(&other.rotation),
        }
    }
}

impl BuildingState {
    pub fn new(cast_result: BpCastResult) -> (r: BuildingState)
        ensures
            r == (BuildingState { active_index: 0, shown_bp_entity: None, cast_result, cast_wait_ms: 0 }),
    {
        BuildingState { active_index: 0, shown_bp_entity: None, cast_result, cast_wait_ms: 0 }
    }
}

/// One frame of the building tool. With building off, the preview, if shown,
/// is hidden and nothing else happens. With it on, the preview entity `preview`
/// (if the engine has one) is shown, takes the selected block type's scene when
/// the selection changed and the kit's scenes are loaded, and a click with the
/// scenes loaded places the selected block where the latest cast put it.
pub fn update_building_state(
    state: &mut BuildingState,
    actions: &BuildingActionsState,
    infos: &BpInfos,
    preview: Option<u64>,
    clicked: bool,
    kit_loaded: bool,
) -> (r: BuildingFrame)
    requires
        actions.building_active ==> actions.active_index < infos.bps@.len(),
    ensures
        !actions.building_active ==> {
            &&& r == (BuildingFrame { hide: old(state).shown_bp_entity, show: None, swap_scene: None, place: None })
            &&& *final(state) == (BuildingState { shown_bp_entity: None, ..*old(state) })
        },
        actions.building_active ==> {
            &&& r.hide.is_none()
            &&& r.show == preview
            &&& final(state).shown_bp_entity == preview
            &&& final(state).active_index == actions.active_index
            &&& final(state).cast_result == old(state).cast_result
            &&& final(state).cast_wait_ms == old(state).cast_wait_ms
            &&& r.swap_scene == (if actions.active_index != old(state).active_index && kit_loaded {
                Some(actions.active_index)
            } else {
                None
            })
            &&& r.place == (if clicked && kit_loaded {
                Some(
                    BlockPlacement {
                        index: actions.active_index,
                        grid_entity: old(state).cast_result.grid_entity,
                        grid_transform: old(state).cast_result.grid_transform,
                        local_transform: old(state).cast_result.local_transform,
                        thruster: infos.bps@[actions.active_index as int].0@ == "thruster"@,
                    },
                )
            } else {
                None
            })
        },
{
    if !actions.building_active {
        let hide = state.shown_bp_entity;
        state.shown_bp_entity = None;
        return BuildingFrame { hide, show: None, swap_scene: None, place: None };
    }
    state.shown_bp_entity = preview;
    let mut swap_scene: Option<usize> = None;
    if actions.active_index != state.active_index {
        if kit_loaded {
            swap_scene = Some(actions.active_index);
        }
        state.active_index = actions.active_index;
    }
    let mut place: Option<BlockPlacement> = None;
    if clicked && kit_loaded {
        let idx = state.active_index;
        let thruster_name = "thruster".to_owned();
        let thruster = infos.bps[idx].0 == thruster_name;
        place = Some(
            BlockPlacement {
                index: idx,
                grid_entity: state.cast_result.grid_entity,
                grid_transform: state.cast_result.grid_transform,
                local_transform: state.cast_result.local_transform,
                thruster,
            },
        );
    }
    BuildingFrame { hide: None, show: preview, swap_scene, place }
}

/// Places a decided block: finds its grid or makes a new one under `new_grid`,
/// and returns that grid with the snap event that registers the block there.
pub fn place_block(grids: &mut Grids, placement: &BlockPlacement, new_grid: u64) -> (r: (u64, BpSnapsEvent))
    requires
        old(grids).wf(),
    ensures
        final(grids).wf(),
        placement.grid_entity matches Some(g) ==> r.0 == g && final(grids)@ == old(grids)@,
        placement.grid_entity.is_none() ==> r.0 == new_grid && final(grids)@.contains_key(new_grid)
            && final(grids)@ == empty_grid_model_in(old(grids)@, new_grid),
        r.1 == BpSnapsEvent::InsertSnaps(placement.index, r.0, placement.local_transform),
{
    let grid = find_or_create_grid(grids, placement.grid_entity, new_grid);
    (grid, BpSnapsEvent::InsertSnaps(placement.index, grid, placement.local_transform))
}

/// The colliders of the blocks of `grid` that have one, in order.
pub open spec fn colliders_of(blocks: Seq<GridBlock>, grid: u64) -> Seq<BlockCollider>
    decreases blocks.len(),
{
    if blocks.len() == 0 {
        Seq::empty()
    } else {
        let prev = colliders_of(blocks.drop_last(), grid);
        let b = blocks.last();
        match b.collider {
            Some(c) if b.entity == grid => prev.push(c),
            _ => prev,
        }
    }
}

/// The compound collider of a grid after a block is added: the colliders of
/// its blocks, then the new block's.
pub fn compound_colliders(blocks: &Vec<GridBlock>, grid: u64, added: BlockCollider) -> (r: Vec<BlockCollider>)
    ensures
        r@ == colliders_of(blocks@, grid).push(added),
{
    let mut out: Vec<BlockCollider> = Vec::new();
    let mut i: usize = 0;
    while i < blocks.len()
        invariant
            i <= blocks@.len(),
            out@ == colliders_of(blocks@.subrange(0, i as int), grid),
        decreases blocks@.len() - i,
    {
        let b = blocks[i];
        let ghost pre = blocks@.subrange(0, i as int);
        assert(blocks@.subrange(0, i as int + 1).drop_last() =~= pre);
        if b.entity == grid {
            if let Some(c) = b.collider {
                out.push(c);
            }
        }
        i = i + 1;
    }
    assert(blocks@.subrange(0, blocks@.len() as int) =~= blocks@);
    out.push(added);
    out
}

/// Advances the cast debounce by `delta_ms`; whether the preview is to be cast
/// again this frame (the wait is over).
pub fn tick_cast_timer(state: &mut BuildingState, delta_ms: u64) -> (r: bool)
    ensures
        final(state).cast_wait_ms == (if old(state).cast_wait_ms > delta_ms {
            old(state).cast_wait_ms - delta_ms
        } else {
            0
        }),
        r == (final(state).cast_wait_ms == 0),
        final(state).active_index == old(state).active_index,
        final(state).shown_bp_entity == old(state).shown_bp_entity,
        final(state).cast_result == old(state).cast_result,
{
    state.cast_wait_ms = if state.cast_wait_ms > delta_ms {
        state.cast_wait_ms - delta_ms
    } else {
        0
    };
    state.cast_wait_ms == 0
}

/// Keeps a new cast; one that snapped holds the preview still for `SNAP_DELAY_MS`.
pub fn apply_cast(state: &mut BuildingState, cast: BpCastResult)
    ensures
        *final(state) == (BuildingState {
            cast_result: cast,
            cast_wait_ms: if cast.snapped {
                SNAP_DELAY_MS
            } else {
                old(state).cast_wait_ms
            },
            ..*old(state)
        }),
{
    state.cast_result = cast;
    if cast.snapped {
        state.cast_wait_ms = SNAP_DELAY_MS;
    }
}

/// Where the preview stands in the world, when it does not join an existing
/// grid: the new grid's transform followed by the block's.
pub fn preview_transform(cast: &BpCastResult) -> (r: Option<Placement>)
    requires
        cast.grid_transform matches Some(g) ==> g.wf(),
        cast.local_transform.wf(),
    ensures
        cast.grid_transform.is_none() ==> r.is_none(),
        cast.grid_transform matches Some(g) ==> (r matches Some(p) && (p.translation@, p.rotation)
            == placement_mul(g, cast.local_transform)),
{
    match cast.grid_transform {
        Some(g) => Some(g.mul(&cast.local_transform)),
        None => None,
    }
}

} // verus!
