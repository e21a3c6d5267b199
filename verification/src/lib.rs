//! Simulation core of a 2D side-scrolling platformer prototype.
//!
//! The crate converts raw input and elapsed time into a player's physical
//! state (position, velocity, animation phase) and resolves that state
//! against a level's static terrain blocks.  Window creation, texture
//! loading and rendering are left to the surrounding program.
//!
//! All physical quantities are fixed-point integers, chosen so that every
//! update is exact integer arithmetic:
//!
//! - time is counted in ticks of 1/100 second (`TIME_SCALE` ticks per
//!   second) — the walk and jump animation timers wrap on whole tick
//!   counts, so no finer grain is ever needed;
//! - velocity is counted in steps of 1/100 world unit per second
//!   (`VEL_SCALE` steps per world unit per second);
//! - position is counted in steps of 1/10000 world unit (`POS_SCALE`
//!   steps per world unit, the product of the two scales above).
//!
//! With these scales, integrating a velocity over a time delta —
//! `position += velocity * dt` — is exact: a velocity of `v` steps held
//! for `dt` ticks moves the position by `v * dt` position steps, with no
//! rounding anywhere.

use vstd::prelude::*;

pub mod anim;
pub mod block;
pub mod collision;
pub mod game;
pub mod input;
pub mod level;
pub mod player;

verus! {

/// Timer ticks per second: one tick is 1/100 second.
pub const TIME_SCALE: i64 = 100;

/// Velocity steps per world unit per second: one step is 1/100 unit/s.
pub const VEL_SCALE: i64 = 100;

/// Position steps per world unit, `VEL_SCALE * TIME_SCALE`: one velocity
/// step held for one tick moves the position by exactly one position step.
pub const POS_SCALE: i64 = 10000;

/// Downward acceleration, in world units per second squared.  Because the
/// velocity and time scales are both 100, a falling velocity also gains
/// exactly `GRAVITY * dt` velocity steps over `dt` ticks.
pub const GRAVITY: i64 = 80;

/// The side a character faces or moves toward.
#[derive(Copy, Clone, Debug, PartialEq, Eq, Structural)]
pub enum Direction {
    Left,
    Right,
}

} // verus!
