//! Snap-to-grid block building: fixed-point geometry, axis rotations, the cell
//! lattice of a grid, snap anchors, placement resolution and the building
//! controls, with the frame-by-frame decisions of the tools around them.
pub mod geometry;
pub mod cell;
pub mod rotation;
pub mod blueprint;
pub mod cell_map;
pub mod grid;
pub mod placement;
pub mod actions;
pub mod registry;
pub mod building_state;
pub mod toolbar;
pub mod terrain;
pub mod arms;
