use grid_builder::actions::BuildingActionsState;
use grid_builder::arms::{animate_mfps_arms, AnimationState, MfpsArmsAnimationsHandler};
use grid_builder::blueprint::{BlockShape, BpInfos};
use grid_builder::building_state::{
    apply_cast, compound_colliders, place_block, preview_transform, tick_cast_timer, update_building_state,
    BlockCollider, BlockPlacement, BuildingState, GridBlock, SNAP_DELAY_MS,
};
use grid_builder::geometry::Vec3i;
use grid_builder::grid::Placement;
use grid_builder::placement::BpCastResult;
use grid_builder::registry::{BpSnapsEvent, Grids};
use grid_builder::rotation::Rot;
use grid_builder::terrain::{chunks_for, update_active_terrain, MeshCacheKey, WorldTerrainState};
use grid_builder::toolbar::{
    update_building_toolbar, update_thrusters_state, BuildingToolbarState, ThrustersState,
};

fn at(x: i64, y: i64, z: i64) -> Placement {
    Placement::new(Vec3i::new(x, y, z), Rot::identity())
}

fn new_grid_cast() -> BpCastResult {
    BpCastResult::new(false, Some(at(0, 2000, -3000)), at(0, 0, 0), None)
}

fn building(index: usize) -> BuildingActionsState {
    let mut a = BuildingActionsState::default();
    a.building_active = true;
    a.active_index = index;
    a
}

#[test]
fn building_off_hides_the_preview() {
    let kit = BpInfos::default();
    let mut state = BuildingState::new(new_grid_cast());
    state.shown_bp_entity = Some(77);
    let frame = update_building_state(&mut state, &BuildingActionsState::default(), &kit, Some(77), true, true);
    assert_eq!(frame.hide, Some(77));
    assert_eq!(frame.show, None);
    assert_eq!(frame.place, None);
    assert_eq!(state.shown_bp_entity, None);
}

#[test]
fn click_places_the_selected_block() {
    let kit = BpInfos::default();
    let mut state = BuildingState::new(new_grid_cast());
    let frame = update_building_state(&mut state, &building(2), &kit, Some(77), true, true);
    assert_eq!(frame.hide, None);
    assert_eq!(frame.show, Some(77));
    assert_eq!(frame.swap_scene, Some(2));
    let place = frame.place.unwrap();
    assert_eq!(place.index, 2);
    assert!(place.thruster);
    assert_eq!(place.grid_entity, None);
    assert_eq!(place.grid_transform, Some(at(0, 2000, -3000)));
    assert_eq!(state.active_index, 2);

    let again = update_building_state(&mut state, &building(2), &kit, Some(77), false, true);
    assert_eq!(again.swap_scene, None);
    assert_eq!(again.place, None);

    let frame = update_building_state(&mut state, &building(0), &kit, Some(77), true, false);
    assert_eq!(frame.swap_scene, None);
    assert_eq!(frame.place, None);
    assert_eq!(state.active_index, 0);
}

#[test]
fn frame_placement_is_not_a_thruster_for_frames() {
    let kit = BpInfos::default();
    let mut state = BuildingState::new(new_grid_cast());
    let frame = update_building_state(&mut state, &building(0), &kit, None, true, true);
    assert!(!frame.place.unwrap().thruster);
    assert_eq!(frame.show, None);
}

#[test]
fn placing_makes_a_grid_and_a_snap_event() {
    let mut grids = Grids::new();
    let placement = BlockPlacement {
        index: 0,
        grid_entity: None,
        grid_transform: Some(at(0, 0, 0)),
        local_transform: at(0, 0, 0),
        thruster: false,
    };
    let (grid, event) = place_block(&mut grids, &placement, 12);
    assert_eq!(grid, 12);
    assert!(grids.contains(12));
    assert_eq!(event, BpSnapsEvent::InsertSnaps(0, 12, at(0, 0, 0)));
    let joining = BlockPlacement { grid_entity: Some(12), local_transform: at(0, 1000, 0), ..placement };
    let (grid, event) = place_block(&mut grids, &joining, 13);
    assert_eq!(grid, 12);
    assert!(!grids.contains(13));
    assert_eq!(event, BpSnapsEvent::InsertSnaps(0, 12, at(0, 1000, 0)));
}

#[test]
fn compound_collider_gathers_the_grid_blocks() {
    let cube = BlockShape::Cuboid { half_x: 500, half_y: 500, half_z: 500 };
    let a = BlockCollider { placement: at(0, 0, 0), shape: cube };
    let b = BlockCollider { placement: at(1000, 0, 0), shape: cube };
    let c = BlockCollider { placement: at(0, 1000, 0), shape: cube };
    let blocks = vec![
        GridBlock { entity: 1, collider: Some(a) },
        GridBlock { entity: 2, collider: Some(b) },
        GridBlock { entity: 1, collider: None },
    ];
    assert_eq!(compound_colliders(&blocks, 1, c), vec![a, c]);
    assert_eq!(compound_colliders(&blocks, 3, c), vec![c]);
}

#[test]
fn snapped_casts_rest_the_preview() {
    let mut state = BuildingState::new(new_grid_cast());
    assert!(tick_cast_timer(&mut state, 16));
    let snapped = BpCastResult::new(true, None, at(0, 1000, 0), Some(4));
    apply_cast(&mut state, snapped);
    assert_eq!(state.cast_wait_ms, SNAP_DELAY_MS);
    assert_eq!(state.cast_result, snapped);
    assert!(!tick_cast_timer(&mut state, 200));
    assert_eq!(state.cast_wait_ms, 100);
    assert!(tick_cast_timer(&mut state, 200));
    apply_cast(&mut state, new_grid_cast());
    assert_eq!(state.cast_wait_ms, 0);
}

#[test]
fn preview_stands_in_the_new_grid_frame() {
    let cast = BpCastResult::new(
        false,
        Some(Placement::new(Vec3i::new(100, 200, 300), Rot::quarter_y())),
        Placement::new(Vec3i::new(1000, 0, 0), Rot::quarter_z()),
        None,
    );
    let p = preview_transform(&cast).unwrap();
    assert_eq!(p.translation, Vec3i::new(100, 200, -700));
    assert_eq!(p.rotation, Rot::quarter_y().compose(&Rot::quarter_z()));
    let joined = BpCastResult::new(true, None, at(0, 0, 0), Some(1));
    assert_eq!(preview_transform(&joined), None);
}

#[test]
fn toolbar_follows_the_controls() {
    let mut bar = BuildingToolbarState::default();
    let u = update_building_toolbar(&mut bar, &building(1));
    assert_eq!(u.switch_to_blocks, Some(true));
    assert_eq!(u.highlight, Some(1));
    let u = update_building_toolbar(&mut bar, &building(1));
    assert_eq!(u.switch_to_blocks, None);
    assert_eq!(u.highlight, None);
    let u = update_building_toolbar(&mut bar, &BuildingActionsState::default());
    assert_eq!(u.switch_to_blocks, Some(false));
    assert_eq!(u.highlight, Some(0));
}

#[test]
fn thrusters_follow_the_power() {
    let mut t = ThrustersState { thrusters_power: 0, thrusters_animating: false };
    let mut a = BuildingActionsState::default();
    let u = update_thrusters_state(&mut t, &a);
    assert!(!u.shut_down && u.set_power.is_none() && !u.start_animating);
    a.thrusters_power = 12100;
    let u = update_thrusters_state(&mut t, &a);
    assert_eq!(u.set_power, Some(12100));
    assert!(u.start_animating);
    assert!(t.thrusters_animating);
    a.thrusters_power = 12101;
    let u = update_thrusters_state(&mut t, &a);
    assert_eq!(u.set_power, None);
    assert!(!u.start_animating);
    a.thrusters_power = 11000;
    let u = update_thrusters_state(&mut t, &a);
    assert!(u.shut_down);
    assert!(!t.thrusters_animating);
}

#[test]
fn terrain_lays_out_sixteen_chunks() {
    let keys = chunks_for((5, -2));
    assert_eq!(keys.len(), 16);
    assert_eq!(keys[0], MeshCacheKey { x: 4, z: -3, lod: true });
    assert_eq!(keys[5], MeshCacheKey { x: 5, z: -2, lod: false });
    assert_eq!(keys[10], MeshCacheKey { x: 6, z: -1, lod: false });
    assert_eq!(keys[15], MeshCacheKey { x: 7, z: 0, lod: true });
    assert_eq!(keys.iter().filter(|k| !k.lod).count(), 4);
    let mut layout = WorldTerrainState::default();
    assert_eq!(update_active_terrain(&mut layout, (5, -2)), Some(keys));
    assert_eq!(update_active_terrain(&mut layout, (5, -2)), None);
    assert!(update_active_terrain(&mut layout, (6, -2)).is_some());
}

#[test]
fn arms_follow_the_tool() {
    let mut arms = MfpsArmsAnimationsHandler { animation_state: AnimationState::Init, active_index: 0 };
    let mut a = BuildingActionsState::default();
    assert_eq!(animate_mfps_arms(&mut arms, &a, false), Some(AnimationState::BuildToolHold));
    assert_eq!(animate_mfps_arms(&mut arms, &a, false), None);
    assert_eq!(animate_mfps_arms(&mut arms, &a, true), Some(AnimationState::BuildToolActive));
    a.active_index = 3;
    assert_eq!(animate_mfps_arms(&mut arms, &a, false), Some(AnimationState::Idle));
    assert_eq!(arms.active_index, 2);
    a.active_index = 1;
    assert_eq!(animate_mfps_arms(&mut arms, &a, false), Some(AnimationState::UnbuildToolHold));
    a.building_active = true;
    assert_eq!(animate_mfps_arms(&mut arms, &a, false), Some(AnimationState::Idle));
    assert_eq!(arms.active_index, 1);
}
