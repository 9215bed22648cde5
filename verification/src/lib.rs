//! Decision logic of a kinematic third-person character controller:
//! the movement state machine, the crouch collider bookkeeping, the
//! animation selection, the camera mode and cursor rules, and the
//! layout of the modular buildings placed in the world.
//!
//! Everything here works on plain values; the engine side (reading input,
//! shape casts, transforms in floating point) hands those values in and
//! carries out the returned decisions.

pub mod player;
pub mod animation;
pub mod camera;
pub mod world;
