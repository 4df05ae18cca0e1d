//! Deceleration-control core of an aircraft wheel-braking subsystem.
//!
//! The library decides, tick by tick, whether automatic braking is armed,
//! which braking mode is active, and what instantaneous deceleration the
//! hydraulic brake actuation should track. All physical quantities are
//! carried as fixed-point integers: distances in millimetres, speeds in
//! millimetres per second, accelerations in millimetres per second squared
//! (negative values decelerate), durations in milliseconds, and ratios in
//! per-mille of full scale. The host simulation converts to and from its
//! floating-point signal bus at the boundary.

use vstd::prelude::*;

pub mod autobrake;
pub mod btv;
pub mod gates;
pub mod governor;
pub mod interp;
pub mod num;
pub mod panel;

verus! {

/// Neutral "release the brakes" acceleration handed out whenever no
/// braking is demanded, in mm/s^2.
pub const NO_BRAKING_MM_S2: i64 = 5000;

} // verus!
