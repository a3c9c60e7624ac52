//! Core simulation logic for an interactive scene: sprite-frame animation,
//! a per-actor behavior state machine, proximity detection between an
//! interactor and interactable furnishings, and interaction dispatch.
//!
//! Times are fixed-point microseconds (`u64`); positions are fixed-point
//! micro-units (`i64`), so one scene unit is 1_000_000 micro-units. All
//! arithmetic on them is exact.

use vstd::prelude::*;

pub mod animation;
pub mod furnishing;
pub mod interaction;
pub mod player;
pub mod rng;
pub mod scene;
pub mod timer;

verus! {

/// One scene unit, in micro-units; also one second, in microseconds.
pub const MICROS_PER_SECOND: u64 = 1_000_000;

} // verus!
