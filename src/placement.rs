//! Turning an aim ray into a placement: onto a snap anchor, onto a surface, or
//! at the end of the building reach.
use vstd::prelude::*;
use crate::geometry::{
    Vec3i, in_bounds, add3, sub3, scale3, dir_scaled, axis_length, axis_length_of,
    nearest_axis, nearest_axis_spec,
};
use crate::rotation::{Rot, rot_apply, compose_spec, arc_from_up, identity_spec};
use crate::blueprint::{BpInfo, BpSnapPoint};
use crate::grid::{Placement, spawns_spec, lemma_spawn_entries};
use crate::cell::{DiscreteVec3, cell_of};
use crate::blueprint::GridSolidity;

verus! {

/// How far the building reach extends along the aim, in world units.
pub const BUILD_DIST: i64 = 3;

/// What the aim ray hit first, as the physics engine reports it.
#[derive(Clone, Copy, Debug, PartialEq, Eq, Structural)]
pub enum RayHit {
    /// The hit volume of a snap anchor: the anchor, its grid, where it stands in
    /// the grid's frame and the snap point it comes from.
    Anchor { anchor: u64, grid: u64, transform: Placement, snap: BpSnapPoint },
    /// The collider of a block of a grid, at a point with a surface normal.
    Block { grid: u64, point: Vec3i, normal: Vec3i },
    /// Other geometry of the world, at a point with a surface normal.
    World { point: Vec3i, normal: Vec3i },
}

impl RayHit {
    pub open spec fn wf(&self) -> bool {
        match *self {
            RayHit::Anchor { transform, snap, .. } => transform.wf() && snap.wf(),
            RayHit::Block { point, normal, .. } => in_bounds(point@) && in_bounds(normal@),
            RayHit::World { point, normal } => in_bounds(point@) && in_bounds(normal@),
        }
    }
}

/// Where a block would go after a ray hit.
#[derive(Clone, Copy, Debug, PartialEq, Eq, Structural)]
pub struct BpSnapResult {
    pub snap_entity: Option<u64>,
    pub grid_entity: Option<u64>,
    pub local_transform: Placement,
}

/// Where a block snapped onto an anchor goes: its base sits on the anchor's
/// surface, so its centre is the bottom's depth out along the anchor's normal.
pub open spec fn snap_translation(
    translation: (int, int, int),
    rotation: Rot,
    snap: BpSnapPoint,
    bp: BpInfo,
) -> (int, int, int) {
    add3(translation, rot_apply(rotation, dir_scaled(snap.normal, axis_length(bp.bottom@))))
}

/// Where a block placed on a surface at `point` with normal `normal` goes: its
/// bottom on the point.
pub open spec fn surface_translation(point: Vec3i, normal: Vec3i, bp: BpInfo) -> (int, int, int) {
    sub3(point@, rot_apply(arc_from_up(nearest_axis_spec(normal@)), bp.bottom@))
}

/// The result of a hit, as `cast_snaps_ray` states it.
pub open spec fn snap_result_spec(hit: RayHit, bp: BpInfo, local_rot: Rot, res: BpSnapResult) -> bool {
    match hit {
        RayHit::Anchor { anchor, grid, transform, snap } => {
            &&& res.snap_entity == Some(anchor)
            &&& res.grid_entity == Some(grid)
            &&& res.local_transform.translation@ == snap_translation(transform.translation@, transform.rotation, snap, bp)
            &&& res.local_transform.rotation == compose_spec(local_rot, arc_from_up(snap.normal))
        },
        RayHit::Block { grid, point, normal } => {
            &&& res.snap_entity.is_none()
            &&& res.grid_entity == Some(grid)
            &&& res.local_transform.translation@ == surface_translation(point, normal, bp)
            &&& res.local_transform.rotation == compose_spec(
                local_rot,
                arc_from_up(nearest_axis_spec(normal@)),
            )
        },
        RayHit::World { point, normal } => {
            &&& res.snap_entity.is_none()
            &&& res.grid_entity.is_none()
            &&& res.local_transform.translation@ == surface_translation(point, normal, bp)
            &&& res.local_transform.rotation == compose_spec(
                local_rot,
                arc_from_up(nearest_axis_spec(normal@)),
            )
        },
    }
}

/// Resolves a hit of the aim ray: onto a snap anchor, the new block stands on
/// the anchor with its up axis along the anchor's normal and joins the anchor's
/// grid; onto a surface, it stands on the hit point with its up axis along the
/// surface normal (taken to the nearest axis) and joins the hit block's grid, if
/// any. The block's own facing `local_rot` is applied after. No hit, no result.
pub fn cast_snaps_ray(hit: Option<RayHit>, bp_info: &BpInfo, local_rot: Rot) -> (r: Option<BpSnapResult>)
    requires
        hit matches Some(h) ==> h.wf(),
        bp_info.wf(),
        local_rot.wf(),
    ensures
        hit.is_none() ==> r.is_none(),
        hit matches Some(h) ==> (r matches Some(res) && snap_result_spec(h, *bp_info, local_rot, res)),
{
    match hit {
        None => None,
        Some(RayHit::Anchor { anchor, grid, transform, snap }) => {
            let rot_quat = Rot::from_arc_up(snap.normal);
            let depth = axis_length_of(&bp_info.bottom);
            let along = snap.normal.scaled(depth);
            let snap_offset = transform.rotation.apply(&along);
            let local_transform = Placement {
                translation: transform.translation.add(&snap_offset),
                rotation: local_rot.compose(&rot_quat),
            };
            Some(BpSnapResult { snap_entity: Some(anchor), grid_entity: Some(grid), local_transform })
        },
        Some(RayHit::Block { grid, point, normal }) => {
            let rot_quat = Rot::from_arc_up(nearest_axis(&normal));
            let local_transform = Placement {
                translation: point.sub(&rot_quat.apply(&bp_info.bottom)),
                rotation: local_rot.compose(&rot_quat),
            };
            Some(BpSnapResult { snap_entity: None, grid_entity: Some(grid), local_transform })
        },
        Some(RayHit::World { point, normal }) => {
            let rot_quat = Rot::from_arc_up(nearest_axis(&normal));
            let local_transform = Placement {
                translation: point.sub(&rot_quat.apply(&bp_info.bottom)),
                rotation: local_rot.compose(&rot_quat),
            };
            Some(BpSnapResult { snap_entity: None, grid_entity: None, local_transform })
        },
    }
}

/// Where the building preview stands and which grid a placement would join.
#[derive(Clone, Copy, Debug, PartialEq, Eq, Structural)]
pub struct BpCastResult {
    /// The block snapped into an existing grid.
    pub snapped: bool,
    /// The transform a new grid would get; `None` when the block joins the
    /// existing grid `grid_entity`, whose transform the engine holds.
    pub grid_transform: Option<Placement>,
    /// The block's transform in the grid's frame.
    pub local_transform: Placement,
    pub grid_entity: Option<u64>,
}

impl BpCastResult {
    pub fn new(
        snapped: bool,
        grid_transform: Option<Placement>,
        local_transform: Placement,
        grid_entity: Option<u64>,
    ) -> (r: Self)
        ensures
            r == (BpCastResult { snapped, grid_transform, local_transform, grid_entity }),
    {
        BpCastResult { snapped, grid_transform, local_transform, grid_entity }
    }
}

/// The end of the building reach: `origin + forward * BUILD_DIST - bottom`.
pub open spec fn reach_end(origin: Vec3i, forward: Vec3i, bp: BpInfo) -> (int, int, int) {
    sub3(add3(origin@, scale3(BUILD_DIST as int, forward@)), bp.bottom@)
}

/// Resolves the preview from what the aim ray hit, trying in order: a snap
/// anchor or a block of a grid (`grid_found` says whether the engine still
/// holds that grid), then any other surface, then the end of the reach, where
/// a new grid would stand. `origin` is the ray's origin and `forward` its
/// direction, a fixed-point unit vector.
pub fn cast_build_shape(
    hit: Option<RayHit>,
    grid_found: bool,
    origin: Vec3i,
    forward: Vec3i,
    bp_info: &BpInfo,
    local_rot: Rot,
) -> (r: BpCastResult)
    requires
        hit matches Some(h) ==> h.wf(),
        in_bounds(origin@),
        in_bounds(forward@),
        bp_info.wf(),
        local_rot.wf(),
    ensures
        hit.is_none() ==> {
            &&& !r.snapped
            &&& r.grid_entity.is_none()
            &&& r.grid_transform matches Some(g) && g.translation@ == reach_end(origin, forward, *bp_info)
                && g.rotation == identity_spec()
            &&& r.local_transform.translation@ == (0int, 0int, 0int)
            &&& r.local_transform.rotation == local_rot
        },
        hit matches Some(h) ==> exists|res: BpSnapResult|
            snap_result_spec(h, *bp_info, local_rot, res) && if res.grid_entity.is_some() && grid_found {
                &&& r.snapped
                &&& r.grid_transform.is_none()
                &&& r.local_transform == res.local_transform
                &&& r.grid_entity == res.grid_entity
            } else {
                &&& !r.snapped
                &&& r.grid_transform == Some(res.local_transform)
                &&& r.local_transform.translation@ == (0int, 0int, 0int)
                &&& r.local_transform.rotation == local_rot
                &&& r.grid_entity.is_none()
            },
{
    let rot_in_place = Placement { translation: Vec3i::zero(), rotation: local_rot };
    if let Some(snap_result) = cast_snaps_ray(hit, bp_info, local_rot) {
        if snap_result.grid_entity.is_some() && grid_found {
            return BpCastResult::new(true, None, snap_result.local_transform, snap_result.grid_entity);
        }
        return BpCastResult::new(false, Some(snap_result.local_transform), rot_in_place, None);
    }
    let reach = forward.scale(BUILD_DIST);
    let cast_end = Vec3i {
        x: origin.x + reach.x - bp_info.bottom.x,
        y: origin.y + reach.y - bp_info.bottom.y,
        z: origin.z + reach.z - bp_info.bottom.z,
    };
    BpCastResult::new(false, Some(Placement { translation: cast_end, rotation: Rot::identity() }), rot_in_place, None)
}

/// Anchor generation is symmetric: a block snapped onto an anchor that a block
/// placed at `t` spawned lands in the very cell that anchor points into,
/// provided the snap point sits as far out along its normal as the new block's
/// bottom lies below its centre (as on every block of the kit).
pub proof fn lemma_anchor_symmetry(
    solid: Map<DiscreteVec3, GridSolidity>,
    next: int,
    t: Placement,
    snaps: Seq<BpSnapPoint>,
    k: int,
    bp: BpInfo,
)
    requires
        0 <= k < spawns_spec(solid, next, t, snaps).len(),
        spawns_spec(solid, next, t, snaps)[k].1.point@ == dir_scaled(
            spawns_spec(solid, next, t, snaps)[k].1.normal,
            axis_length(bp.bottom@),
        ),
    ensures
        ({
            let s = spawns_spec(solid, next, t, snaps)[k];
            cell_of(snap_translation(s.2, s.3, s.1, bp))
                == s.4
        }),
{
    lemma_spawn_entries(solid, next, t, snaps);
    let s = spawns_spec(solid, next, t, snaps)[k];
    let p = rot_apply(t.rotation, s.1.point@);
    assert(add3(s.2, p) == add3(t.translation@, scale3(2, p)));
}

} // verus!
