//! A tabletop card prototype's interactive core, in fixed-point world coordinates:
//! ray casting against horizontal planes, hover lift, camera facing, dragging and
//! the spawn layout of the two hands and the board.
pub mod geometry;
pub mod layout;
pub mod resources;
pub mod systems;
