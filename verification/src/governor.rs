//! The deceleration governor: the feedback stage that turns a target
//! deceleration into a brake actuation command ratio. The controller engages
//! it, feeds it a target and the measured longitudinal acceleration each
//! tick, and queries it for threshold conditions. The command ratio follows
//! a proportional law with saturation; the threshold queries compare the
//! measured acceleration against the target.

use vstd::prelude::*;

verus! {

/// Accelerations handed to the governor are clamped into
/// `[-ACCEL_LIMIT_MM_S2, ACCEL_LIMIT_MM_S2]` (one hundred m/s^2, far beyond
/// anything a wheel brake produces), which keeps every product that the
/// threshold queries form inside `i64`.
pub const ACCEL_LIMIT_MM_S2: i64 = 100_000;

/// Acceleration error, in mm/s^2, at or above which the proportional
/// command ratio saturates at full scale.
pub const FULL_OUTPUT_ERROR_MM_S2: i64 = 5000;

/// Feedback stage between a deceleration target and the brake actuation.
#[derive(Clone, Copy, PartialEq, Eq, Structural, Debug)]
pub struct AutobrakeDecelerationGovernor {
    pub engaged: bool,
    pub time_engaged_ms: u64,
    pub target_mm_s2: i64,
    pub current_accel_mm_s2: i64,
}

impl AutobrakeDecelerationGovernor {
    pub open spec fn wf(self) -> bool {
        &&& -ACCEL_LIMIT_MM_S2 <= self.target_mm_s2 <= ACCEL_LIMIT_MM_S2
        &&& -ACCEL_LIMIT_MM_S2 <= self.current_accel_mm_s2 <= ACCEL_LIMIT_MM_S2
    }

    /// The command ratio, in per-mille: proportional to how far the
    /// measured acceleration still is above the target, zero when
    /// disengaged or already at or below the target.
    pub open spec fn output_spec(self) -> int {
        if !self.engaged {
            0
        } else {
            let error = self.current_accel_mm_s2 - self.target_mm_s2;
            if error <= 0 {
                0
            } else if error >= FULL_OUTPUT_ERROR_MM_S2 {
                1000
            } else {
                error / 5
            }
        }
    }

    /// Whether the measured deceleration has reached `margin_permille` of
    /// the target deceleration (both negative, compared scaled).
    pub open spec fn is_on_target_spec(self, margin_permille: i64) -> bool {
        self.engaged && 1000 * self.current_accel_mm_s2 < self.target_mm_s2 * margin_permille
    }

    pub open spec fn decelerating_at_or_above_rate_spec(self, rate_mm_s2: i64) -> bool {
        self.current_accel_mm_s2 < rate_mm_s2
    }

    /// The governor one tick later: time engaged accumulates while engaged
    /// and resets when not; target and measurement are stored clamped.
    pub open spec fn next_spec(self, delta_ms: u64, target_mm_s2: i64, accel_mm_s2: i64) -> Self {
        AutobrakeDecelerationGovernor {
            engaged: self.engaged,
            time_engaged_ms: if !self.engaged {
                0
            } else if self.time_engaged_ms + delta_ms > u64::MAX {
                u64::MAX
            } else {
                (self.time_engaged_ms + delta_ms) as u64
            },
            target_mm_s2: crate::num::clamp_spec(
                target_mm_s2 as int,
                -ACCEL_LIMIT_MM_S2 as int,
                ACCEL_LIMIT_MM_S2 as int,
            ) as i64,
            current_accel_mm_s2: crate::num::clamp_spec(
                accel_mm_s2 as int,
                -ACCEL_LIMIT_MM_S2 as int,
                ACCEL_LIMIT_MM_S2 as int,
            ) as i64,
        }
    }

    pub fn new() -> (r: AutobrakeDecelerationGovernor)
        ensures
            r == (AutobrakeDecelerationGovernor {
                engaged: false,
                time_engaged_ms: 0u64,
                target_mm_s2: 0i64,
                current_accel_mm_s2: 0i64,
            }),
            r.wf(),
    {
        AutobrakeDecelerationGovernor {
            engaged: false,
            time_engaged_ms: 0,
            target_mm_s2: 0,
            current_accel_mm_s2: 0,
        }
    }

    pub fn engage_when(&mut self, engage: bool)
        ensures
            *final(self) == (AutobrakeDecelerationGovernor { engaged: engage, ..*old(self) }),
    {
        self.engaged = engage;
    }

    pub fn is_engaged(&self) -> (r: bool)
        ensures
            r == self.engaged,
    {
        self.engaged
    }

    pub fn time_engaged_ms(&self) -> (r: u64)
        ensures
            r == self.time_engaged_ms,
    {
        self.time_engaged_ms
    }

    pub fn update(&mut self, delta_ms: u64, target_mm_s2: i64, accel_mm_s2: i64)
        ensures
            *final(self) == old(self).next_spec(delta_ms, target_mm_s2, accel_mm_s2),
            final(self).wf(),
    {
        if !self.engaged {
            self.time_engaged_ms = 0;
        } else if delta_ms > u64::MAX - self.time_engaged_ms {
            self.time_engaged_ms = u64::MAX;
        } else {
            self.time_engaged_ms = self.time_engaged_ms + delta_ms;
        }
        self.target_mm_s2 = crate::num::clamp_i64(
            target_mm_s2,
            -ACCEL_LIMIT_MM_S2,
            ACCEL_LIMIT_MM_S2,
        );
        self.current_accel_mm_s2 = crate::num::clamp_i64(
            accel_mm_s2,
            -ACCEL_LIMIT_MM_S2,
            ACCEL_LIMIT_MM_S2,
        );
    }

    /// The brake actuation command ratio, in per-mille of full braking.
    pub fn output(&self) -> (r: i64)
        requires
            self.wf(),
        ensures
            r == self.output_spec(),
            0 <= r <= 1000,
    {
        if !self.engaged {
            0
        } else {
            let error = self.current_accel_mm_s2 - self.target_mm_s2;
            if error <= 0 {
                0
            } else if error >= FULL_OUTPUT_ERROR_MM_S2 {
                1000
            } else {
                error / 5
            }
        }
    }

    pub fn is_on_target(&self, margin_permille: i64) -> (r: bool)
        requires
            self.wf(),
            0 <= margin_permille <= 1000,
        ensures
            r == self.is_on_target_spec(margin_permille),
    {
        assert(-100_000_000 <= self.target_mm_s2 * margin_permille <= 100_000_000)
            by (nonlinear_arith)
            requires
                -ACCEL_LIMIT_MM_S2 <= self.target_mm_s2 <= ACCEL_LIMIT_MM_S2,
                0 <= margin_permille <= 1000,
        ;
        self.engaged && 1000 * self.current_accel_mm_s2 < self.target_mm_s2 * margin_permille
    }

    pub fn decelerating_at_or_above_rate(&self, rate_mm_s2: i64) -> (r: bool)
        ensures
            r == self.decelerating_at_or_above_rate_spec(rate_mm_s2),
    {
        self.current_accel_mm_s2 < rate_mm_s2
    }
}

} // verus!
