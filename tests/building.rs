use grid_builder::actions::{update_building_actions_state, BuildingActionsState, BuildingInput};
use grid_builder::blueprint::{BlockShape, BpInfo, BpInfos, GridSolidity};
use grid_builder::cell::{discretize, DiscreteVec3};
use grid_builder::geometry::{nearest_axis, Dir, Vec3i};
use grid_builder::grid::{Grid, Placement};
use grid_builder::placement::{cast_build_shape, cast_snaps_ray, RayHit};
use grid_builder::registry::{
    find_or_create_grid, update_building_bp_snaps, update_building_bp_snaps_repeats, BpSnapsEvent, Grids,
};
use grid_builder::rotation::Rot;

fn at(x: i64, y: i64, z: i64) -> Placement {
    Placement::new(Vec3i::new(x, y, z), Rot::identity())
}

fn kit_entry(kit: &BpInfos, name: &str) -> BpInfo {
    kit.get(&name.to_string()).expect("block type in the kit").clone()
}

fn no_input() -> BuildingInput {
    BuildingInput {
        toggle_building: false,
        hide_building: false,
        wheel_events: 0,
        hotkeys: [false; 5],
        power_up: false,
        power_down: false,
        rotate_y: false,
        rotate_z: false,
    }
}

#[test]
fn discretize_rounds_half_away_from_zero() {
    assert_eq!(discretize(0), 0);
    assert_eq!(discretize(499), 0);
    assert_eq!(discretize(500), 1);
    assert_eq!(discretize(1499), 1);
    assert_eq!(discretize(-499), 0);
    assert_eq!(discretize(-500), -1);
    assert_eq!(discretize(-1500), -2);
    assert_eq!(discretize(i64::MAX), i32::MAX);
    assert_eq!(discretize(i64::MIN), i32::MIN);
}

#[test]
fn positions_rounding_alike_share_a_cell() {
    let a = DiscreteVec3::from_pos(&Vec3i::new(1200, -300, 2600));
    let b = DiscreteVec3::from_pos(&Vec3i::new(800, 400, 3400));
    assert_eq!(a, b);
    assert_eq!(a, DiscreteVec3::new(1, 0, 3));
}

#[test]
fn first_cube_at_origin_registers_all_anchors() {
    let kit = BpInfos::default();
    let cube = kit_entry(&kit, "metal_frame");
    let mut grids = Grids::new();
    let id = find_or_create_grid(&mut grids, None, 42);
    assert_eq!(id, 42);
    assert!(grids.contains(42));
    let out = grids.register(42, &cube, &at(0, 0, 0)).expect("grid is known");
    assert!(out.retracted.is_empty());
    assert_eq!(out.spawned.len(), cube.snap.len());
    assert_eq!(out.spawned.len(), 6);
    let grid = grids.get(42).unwrap();
    assert_eq!(grid.solidity_at(&DiscreteVec3::new(0, 0, 0)), Some(GridSolidity::Leaky));
    let ids: Vec<u64> = out.spawned.iter().map(|a| a.id).collect();
    assert_eq!(ids, vec![0, 1, 2, 3, 4, 5]);
    assert_eq!(out.spawned[0].cell, DiscreteVec3::new(0, 1, 0));
    assert_eq!(out.spawned[1].cell, DiscreteVec3::new(0, -1, 0));
    assert_eq!(out.spawned[2].cell, DiscreteVec3::new(1, 0, 0));
    assert_eq!(out.spawned[5].cell, DiscreteVec3::new(0, 0, -1));
    assert_eq!(out.spawned[0].transform.translation, Vec3i::new(0, 500, 0));
    assert_eq!(grid.snaps_in(&DiscreteVec3::new(0, 1, 0)), vec![0]);
}

#[test]
fn second_cube_on_top_anchor() {
    let kit = BpInfos::default();
    let cube = kit_entry(&kit, "metal_frame");
    let mut grid = Grid::new();
    let first = grid.insert_bp_snaps(&cube, &at(0, 0, 0));
    let top = first.spawned[0];
    assert_eq!(top.snap.normal, Dir::PosY);
    let hit = RayHit::Anchor { anchor: top.id, grid: 9, transform: top.transform, snap: top.snap };
    let res = cast_snaps_ray(Some(hit), &cube, Rot::identity()).unwrap();
    assert_eq!(res.snap_entity, Some(top.id));
    assert_eq!(res.grid_entity, Some(9));
    assert_eq!(res.local_transform.translation, Vec3i::new(0, 1000, 0));
    assert_eq!(res.local_transform.rotation, Rot::identity());
    let second = grid.insert_bp_snaps(&cube, &res.local_transform);
    assert_eq!(DiscreteVec3::from_pos(&res.local_transform.translation), DiscreteVec3::new(0, 1, 0));
    assert_eq!(second.retracted, vec![top.id]);
    assert_eq!(second.spawned.len(), 5);
    assert!(second.spawned.iter().all(|a| a.snap.normal != Dir::NegY));
    assert!(second.spawned.iter().all(|a| a.cell != DiscreteVec3::new(0, 0, 0)));
    assert_eq!(second.spawned[0].cell, DiscreteVec3::new(0, 2, 0));
    assert_eq!(second.spawned[0].id, 6);
    assert!(grid.snaps_in(&DiscreteVec3::new(0, 1, 0)).is_empty());
    assert_eq!(grid.solidity_at(&DiscreteVec3::new(0, 1, 0)), Some(GridSolidity::Leaky));
}

#[test]
fn no_hit_falls_back_to_reach_end() {
    let kit = BpInfos::default();
    let cube = kit_entry(&kit, "metal_frame");
    let origin = Vec3i::new(1000, 2000, 3000);
    let forward = Vec3i::new(0, 0, -1000);
    let r = cast_build_shape(None, false, origin, forward, &cube, Rot::quarter_y());
    assert!(!r.snapped);
    assert_eq!(r.grid_entity, None);
    let g = r.grid_transform.unwrap();
    assert_eq!(g.translation, Vec3i::new(1000, 2500, 0));
    assert_eq!(g.rotation, Rot::identity());
    assert_eq!(r.local_transform.translation, Vec3i::zero());
    assert_eq!(r.local_transform.rotation, Rot::quarter_y());
}

#[test]
fn world_hit_starts_a_new_grid_on_the_surface() {
    let kit = BpInfos::default();
    let cube = kit_entry(&kit, "metal_frame");
    let hit = RayHit::World { point: Vec3i::new(2000, 0, 0), normal: Vec3i::new(10, 990, -20) };
    let r = cast_build_shape(Some(hit), true, Vec3i::zero(), Vec3i::new(1000, 0, 0), &cube, Rot::identity());
    assert!(!r.snapped);
    assert_eq!(r.grid_entity, None);
    assert_eq!(r.grid_transform, Some(at(2000, 500, 0)));
    assert_eq!(r.local_transform, at(0, 0, 0));
}

#[test]
fn block_hit_joins_the_grid_when_found() {
    let kit = BpInfos::default();
    let cube = kit_entry(&kit, "metal_frame");
    let hit = RayHit::Block { grid: 3, point: Vec3i::new(500, 0, 0), normal: Vec3i::new(1000, 0, 0) };
    let r = cast_build_shape(Some(hit), true, Vec3i::zero(), Vec3i::new(1000, 0, 0), &cube, Rot::identity());
    assert!(r.snapped);
    assert_eq!(r.grid_entity, Some(3));
    assert_eq!(r.grid_transform, None);
    assert_eq!(r.local_transform.translation, Vec3i::new(1000, 0, 0));
    assert_eq!(r.local_transform.rotation, Rot::from_arc_up(Dir::PosX));
    let lost = cast_build_shape(Some(hit), false, Vec3i::zero(), Vec3i::new(1000, 0, 0), &cube, Rot::identity());
    assert!(!lost.snapped);
    assert_eq!(lost.grid_entity, None);
}

#[test]
fn anchors_are_symmetric_for_a_turned_block() {
    let kit = BpInfos::default();
    let cube = kit_entry(&kit, "metal_frame");
    let mut grid = Grid::new();
    let a = Placement::new(Vec3i::new(3000, -1000, 2000), Rot::quarter_z().compose(&Rot::quarter_y()));
    let out = grid.insert_bp_snaps(&cube, &a);
    assert_eq!(out.spawned.len(), 6);
    for anchor in out.spawned.iter() {
        let hit = RayHit::Anchor { anchor: anchor.id, grid: 1, transform: anchor.transform, snap: anchor.snap };
        let res = cast_snaps_ray(Some(hit), &cube, Rot::identity()).unwrap();
        assert_eq!(DiscreteVec3::from_pos(&res.local_transform.translation), anchor.cell);
    }
}

#[test]
fn replacing_a_block_replaces_its_solidity() {
    let kit = BpInfos::default();
    let leaky = kit_entry(&kit, "fuel_tank");
    let mut solid = leaky.clone();
    solid.solidity = GridSolidity::Solid;
    let mut grid = Grid::new();
    grid.insert_bp_snaps(&leaky, &at(0, 0, 0));
    assert_eq!(grid.solidity_at(&DiscreteVec3::new(0, 0, 0)), Some(GridSolidity::Leaky));
    grid.insert_bp_snaps(&solid, &at(200, -300, 100));
    assert_eq!(grid.solidity_at(&DiscreteVec3::new(0, 0, 0)), Some(GridSolidity::Solid));
    assert_eq!(grid.solidity_at(&DiscreteVec3::new(0, 1, 0)), None);
}

#[test]
fn nose_cone_spawns_no_anchors() {
    let kit = BpInfos::default();
    let cone = kit_entry(&kit, "nose_cone");
    assert_eq!(cone.collider, BlockShape::Cone { half_height: 500, radius: 500 });
    let mut grid = Grid::new();
    let out = grid.insert_bp_snaps(&cone, &at(0, 0, 0));
    assert!(out.spawned.is_empty());
    assert!(out.retracted.is_empty());
}

#[test]
fn kit_is_in_toolbar_order() {
    let kit = BpInfos::default();
    let names: Vec<&str> = kit.bps.iter().map(|e| e.0.as_str()).collect();
    assert_eq!(names, vec!["metal_frame", "fuel_tank", "thruster", "nose_cone"]);
    assert_eq!(kit.at(1).unwrap().snap.len(), 2);
    assert_eq!(kit.at(2).unwrap().snap.len(), 1);
    assert!(kit.at(4).is_none());
    assert!(kit.get(&"rocket".to_string()).is_none());
    assert_eq!(kit.index_of(&"thruster".to_string()), Some(2));
}

#[test]
fn four_quarter_turns_come_back() {
    let mut s = BuildingActionsState::default();
    s.building_active = true;
    let start = Rot::quarter_z();
    s.active_rotation = start;
    let mut input = no_input();
    input.rotate_y = true;
    for turn in 0..4 {
        update_building_actions_state(&mut s, 4, &input);
        if turn < 3 {
            assert_ne!(s.active_rotation, start);
        }
    }
    assert_eq!(s.active_rotation, start);
    let mut input = no_input();
    input.rotate_z = true;
    for _ in 0..4 {
        update_building_actions_state(&mut s, 4, &input);
    }
    assert_eq!(s.active_rotation, start);
}

#[test]
fn rotation_keys_need_building_on() {
    let mut s = BuildingActionsState::default();
    let mut input = no_input();
    input.rotate_y = true;
    update_building_actions_state(&mut s, 4, &input);
    assert_eq!(s.active_rotation, Rot::identity());
    input.toggle_building = true;
    update_building_actions_state(&mut s, 4, &input);
    assert!(s.building_active);
    assert_eq!(s.active_rotation, Rot::quarter_y());
}

#[test]
fn toggle_and_hide() {
    let mut s = BuildingActionsState::default();
    let mut input = no_input();
    input.toggle_building = true;
    update_building_actions_state(&mut s, 4, &input);
    assert!(s.building_active);
    update_building_actions_state(&mut s, 4, &input);
    assert!(!s.building_active);
    input.hide_building = true;
    update_building_actions_state(&mut s, 4, &input);
    assert!(!s.building_active);
}

#[test]
fn wheel_wraps_and_hotkeys_clamp() {
    let mut s = BuildingActionsState::default();
    let mut input = no_input();
    input.wheel_events = 3;
    update_building_actions_state(&mut s, 4, &input);
    assert_eq!(s.active_index, 3);
    input.wheel_events = 1;
    update_building_actions_state(&mut s, 4, &input);
    assert_eq!(s.active_index, 0);
    input.wheel_events = 6;
    update_building_actions_state(&mut s, 4, &input);
    assert_eq!(s.active_index, 2);
    let mut keys = no_input();
    keys.hotkeys = [false, true, false, false, false];
    update_building_actions_state(&mut s, 4, &keys);
    assert_eq!(s.active_index, 1);
    keys.hotkeys = [false, false, false, false, true];
    update_building_actions_state(&mut s, 4, &keys);
    assert_eq!(s.active_index, 3);
    keys.hotkeys = [true, false, true, false, false];
    update_building_actions_state(&mut s, 4, &keys);
    assert_eq!(s.active_index, 2);
}

#[test]
fn thrusters_power_steps() {
    let mut s = BuildingActionsState::default();
    assert_eq!(s.thrusters_power, 11000);
    let mut down = no_input();
    down.power_down = true;
    update_building_actions_state(&mut s, 4, &down);
    assert_eq!(s.thrusters_power, 11000);
    let mut up = no_input();
    up.power_up = true;
    update_building_actions_state(&mut s, 4, &up);
    assert_eq!(s.thrusters_power, 12100);
    update_building_actions_state(&mut s, 4, &down);
    assert_eq!(s.thrusters_power, 10998);
    s.thrusters_power = u64::MAX - 1;
    update_building_actions_state(&mut s, 4, &up);
    assert_eq!(s.thrusters_power, u64::MAX);
}

#[test]
fn snap_events_wait_for_their_grid() {
    let kit = BpInfos::default();
    let mut grids = Grids::new();
    let events = vec![BpSnapsEvent::InsertSnaps(0, 5, at(0, 0, 0))];
    let (outcomes, repeats) = update_building_bp_snaps(&mut grids, &kit, &events);
    assert!(outcomes.is_empty());
    assert_eq!(repeats.len(), 1);
    assert_eq!(repeats[0].0, events[0]);
    grids.add_grid(5);
    let again = update_building_bp_snaps_repeats(&repeats);
    assert_eq!(again, events);
    let (outcomes, repeats) = update_building_bp_snaps(&mut grids, &kit, &again);
    assert!(repeats.is_empty());
    assert_eq!(outcomes.len(), 1);
    assert_eq!(outcomes[0].0, 5);
    assert_eq!(outcomes[0].1.spawned.len(), 6);
    assert_eq!(
        grids.get(5).unwrap().solidity_at(&DiscreteVec3::new(0, 0, 0)),
        Some(GridSolidity::Leaky)
    );
}

#[test]
fn existing_grid_is_kept() {
    let mut grids = Grids::new();
    grids.add_grid(2);
    assert_eq!(find_or_create_grid(&mut grids, Some(2), 8), 2);
    assert!(!grids.contains(8));
}

#[test]
fn surface_normals_snap_to_axes() {
    assert_eq!(nearest_axis(&Vec3i::new(10, 990, -20)), Dir::PosY);
    assert_eq!(nearest_axis(&Vec3i::new(-700, 100, 690)), Dir::NegX);
    assert_eq!(nearest_axis(&Vec3i::new(0, 0, -5)), Dir::NegZ);
    assert_eq!(nearest_axis(&Vec3i::zero()), Dir::PosY);
}

#[test]
fn arcs_from_up_and_rotation_of_vectors() {
    for d in [Dir::PosX, Dir::NegX, Dir::PosY, Dir::NegY, Dir::PosZ, Dir::NegZ] {
        assert_eq!(Rot::from_arc_up(d).apply_dir(Dir::PosY), d);
    }
    assert_eq!(Rot::from_arc_up(Dir::NegY).apply(&Vec3i::new(1, 2, 3)), Vec3i::new(-1, -2, 3));
    assert_eq!(Rot::quarter_y().apply(&Vec3i::new(1000, 0, 0)), Vec3i::new(0, 0, -1000));
    assert_eq!(Rot::quarter_z().apply(&Vec3i::new(1000, 0, 0)), Vec3i::new(0, 1000, 0));
}
