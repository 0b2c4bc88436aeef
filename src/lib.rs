//! Decision core of a first-person character controller and of the
//! footstep audio trigger that accompanies it.
//!
//! The host engine owns every continuous quantity (velocities, angles,
//! the head-bob phase) and the scene graph. This library decides, once per
//! physics tick, which update rules apply to those quantities, and, on each
//! footstep notification, which audio cue is played and whether it is
//! attached to the scene.

pub mod movement;
pub mod footstep;
