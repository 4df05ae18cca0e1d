//! The brake-to-vacate (BTV) scheduler: a predictive sub-controller that
//! turns a remaining-distance budget and the current ground speed into a
//! deceleration target, under an adaptive safety margin, through its own
//! six-state machine.
//!
//! Distances are millimetres, speeds millimetres per second, accelerations
//! millimetres per second squared (negative decelerates), margins per-mille.

use crate::num::{clamp_i64, clamp_spec, isqrt_spec, isqrt_u64};
use vstd::arithmetic::div_mod::{lemma_div_nonincreasing, lemma_div_pos_is_pos};
use vstd::arithmetic::mul::{lemma_mul_nonnegative, lemma_mul_upper_bound};
use vstd::prelude::*;

verus! {

/// The strongest deceleration requested on a dry runway, in mm/s^2.
pub const MAX_DECEL_DRY_MM_S2: i64 = -3000;

/// Arming is authorized only on runways at least this long.
pub const MIN_RUNWAY_LENGTH_MM: i64 = 1_500_000;

/// Fixed distance before the exit at which braking is released.
pub const DISTANCE_OFFSET_TO_RELEASE_BTV_MM: i64 = 50_000;

/// Ground speed at or under which brake-to-vacate releases.
pub const TARGET_SPEED_TO_RELEASE_BTV_MM_S: i64 = 5150;

/// The speed component the kinematic relation aims to shed: ninety percent
/// of the release speed, the rest kept as margin.
pub const RELEASE_SPEED_COMPONENT_MM_S: i64 = 4635;

/// Deceleration request at or under which full braking starts: sixty
/// percent of the dry-runway maximum.
pub const ACCEL_TO_REACH_TO_DECELERATE_MM_S2: i64 = -1800;

/// Gentle deceleration reported during rotation optimization: ten percent
/// of the dry-runway maximum.
pub const ACCEL_DURING_ROT_OPTI_MM_S2: i64 = -300;

/// The adaptive safety margin runs between these two factors, in per-mille.
pub const SAFETY_MARGIN_MIN_PERMILLE: i64 = 1150;

pub const SAFETY_MARGIN_MAX_PERMILLE: i64 = 1400;

/// Remaining distance under which the scheduler moves to end-of-braking.
pub const END_OF_BRAKING_DISTANCE_MM: i64 = 50_000;

/// Distances handed to the scheduler are clamped to this magnitude
/// (a thousand kilometres), which keeps the kinematics inside `i64`.
pub const MAX_DISTANCE_MM: i64 = 1_000_000_000;

/// Ground speeds are clamped to this bound (a thousand metres per second).
pub const MAX_SPEED_MM_S: i64 = 1_000_000;

/// A single tick integrates at most this much time (a hundred seconds).
pub const MAX_TICK_MS: u64 = 100_000;

/// The scheduler's state machine.
#[derive(Clone, Copy, PartialEq, Eq, Structural, Debug)]
pub enum BTVState {
    Disabled,
    Armed,
    RotOptimization,
    Decel,
    EndOfBraking,
    OutOfDecelRange,
}

/// The brake-to-vacate scheduler's state: its distance budget inputs, the
/// distance rolled since spoiler deployment, and the frozen values that the
/// end-of-braking plateau and the adaptive margin rest on.
#[derive(Clone, Copy, PartialEq, Eq, Structural, Debug)]
pub struct BtvDecelScheduler {
    pub runway_length_mm: i64,
    pub rolling_distance_mm: i64,
    pub fallback_distance_to_exit_from_touchdown_mm: i64,
    pub oans_distance_to_exit_mm: i64,
    pub spoilers_active: bool,
    pub ground_speed_mm_s: i64,
    pub state: BTVState,
    pub deceleration_request_mm_s2: i64,
    pub end_of_decel_acceleration_mm_s2: i64,
    pub final_distance_remaining_mm: i64,
    pub distance_remaining_at_decel_activation_mm: i64,
}

/// The deceleration that exactly sheds the speed above the release
/// component over `dist_mm`, widened by `margin_permille` and clamped to
/// the dry-runway maximum. A spent distance budget demands the maximum.
pub open spec fn decel_target_spec(speed_mm_s: int, dist_mm: int, margin_permille: int) -> int {
    if dist_mm <= 0 {
        MAX_DECEL_DRY_MM_S2 as int
    } else {
        let delta = speed_mm_s - RELEASE_SPEED_COMPONENT_MM_S;
        let mag = delta * delta / (2 * dist_mm);
        let magc = mag * margin_permille / 1000;
        if magc > -(MAX_DECEL_DRY_MM_S2 as int) {
            MAX_DECEL_DRY_MM_S2 as int
        } else {
            -magc
        }
    }
}

impl BtvDecelScheduler {
    pub open spec fn wf(self) -> bool {
        &&& 0 <= self.runway_length_mm <= MAX_DISTANCE_MM
        &&& 0 <= self.rolling_distance_mm <= MAX_DISTANCE_MM
        &&& -MAX_DISTANCE_MM <= self.fallback_distance_to_exit_from_touchdown_mm
            <= MAX_DISTANCE_MM
        &&& -MAX_DISTANCE_MM <= self.oans_distance_to_exit_mm <= MAX_DISTANCE_MM
        &&& 0 <= self.ground_speed_mm_s <= MAX_SPEED_MM_S
        &&& MAX_DECEL_DRY_MM_S2 <= self.deceleration_request_mm_s2 <= crate::NO_BRAKING_MM_S2
        &&& MAX_DECEL_DRY_MM_S2 <= self.end_of_decel_acceleration_mm_s2
            <= crate::NO_BRAKING_MM_S2
        &&& 0 <= self.final_distance_remaining_mm <= MAX_DISTANCE_MM
        &&& 0 <= self.distance_remaining_at_decel_activation_mm <= MAX_DISTANCE_MM
    }

    /// A negative primary exit-distance signal is invalid and selects the
    /// touchdown-relative fallback source.
    pub open spec fn is_oans_fallback_mode_spec(self) -> bool {
        self.oans_distance_to_exit_mm < 0
    }

    /// Distance still available for braking: the chosen exit-distance
    /// source, less the release offset, floored at zero.
    pub open spec fn braking_distance_remaining_spec(self) -> int {
        let raw = if self.is_oans_fallback_mode_spec() {
            self.fallback_distance_to_exit_from_touchdown_mm - self.rolling_distance_mm
        } else {
            self.oans_distance_to_exit_mm as int
        };
        let d = raw - DISTANCE_OFFSET_TO_RELEASE_BTV_MM;
        if d < 0 {
            0
        } else {
            d
        }
    }

    /// Arming is authorized when the runway is long enough and at least
    /// one exit-distance source is valid (non-negative).
    pub open spec fn arming_authorized_spec(self) -> bool {
        &&& self.runway_length_mm >= MIN_RUNWAY_LENGTH_MM
        &&& (self.oans_distance_to_exit_mm >= 0
            || self.fallback_distance_to_exit_from_touchdown_mm >= 0)
    }

    pub open spec fn is_armed_spec(self) -> bool {
        self.state != BTVState::Disabled
    }

    /// The adaptive safety margin, in per-mille: a conservative constant
    /// before full braking, then shrinking from the maximum toward the
    /// minimum as the distance budget is consumed.
    pub open spec fn safety_margin_spec(self) -> int {
        match self.state {
            BTVState::Decel | BTVState::EndOfBraking | BTVState::OutOfDecelRange => {
                let dist = self.braking_distance_remaining_spec();
                let act = self.distance_remaining_at_decel_activation_mm;
                if act <= 0 {
                    if dist <= 0 {
                        SAFETY_MARGIN_MIN_PERMILLE as int
                    } else {
                        SAFETY_MARGIN_MAX_PERMILLE as int
                    }
                } else {
                    let s = isqrt_spec((dist * 1_000_000 / (act as int)) as nat);
                    clamp_spec(
                        1000 + 400 * (s as int) / 1000,
                        SAFETY_MARGIN_MIN_PERMILLE as int,
                        SAFETY_MARGIN_MAX_PERMILLE as int,
                    )
                }
            },
            _ => SAFETY_MARGIN_MAX_PERMILLE as int,
        }
    }

    /// The deceleration the scheduler asks of the governor in each state.
    pub open spec fn decel_spec(self) -> int {
        match self.state {
            BTVState::Decel | BTVState::OutOfDecelRange => self.deceleration_request_mm_s2 as int,
            BTVState::EndOfBraking => self.end_of_decel_acceleration_mm_s2 as int,
            BTVState::RotOptimization => ACCEL_DURING_ROT_OPTI_MM_S2 as int,
            _ => crate::NO_BRAKING_MM_S2 as int,
        }
    }

    pub open spec fn enable_spec(self) -> Self {
        if self.state == BTVState::Disabled && self.arming_authorized_spec() {
            BtvDecelScheduler { state: BTVState::Armed, ..self }
        } else {
            self
        }
    }

    /// Disarming leaves the distance inputs and the rolling distance in
    /// place (the next disabled tick zeroes the latter) and neutralizes
    /// every braking value.
    pub open spec fn disarm_spec(self) -> Self {
        BtvDecelScheduler {
            state: BTVState::Disabled,
            deceleration_request_mm_s2: crate::NO_BRAKING_MM_S2,
            end_of_decel_acceleration_mm_s2: crate::NO_BRAKING_MM_S2,
            final_distance_remaining_mm: 0,
            distance_remaining_at_decel_activation_mm: 0,
            ..self
        }
    }

    /// Rolling distance one tick later: integrated while the braking
    /// states are active, zeroed while disabled or merely armed.
    pub open spec fn integrate_distance_spec(self, delta_ms: u64) -> Self {
        match self.state {
            BTVState::RotOptimization
            | BTVState::Decel
            | BTVState::EndOfBraking
            | BTVState::OutOfDecelRange => {
                let dt = if delta_ms > MAX_TICK_MS {
                    MAX_TICK_MS as int
                } else {
                    delta_ms as int
                };
                let sum = self.rolling_distance_mm + self.ground_speed_mm_s * dt / 1000;
                BtvDecelScheduler {
                    rolling_distance_mm: if sum > MAX_DISTANCE_MM {
                        MAX_DISTANCE_MM
                    } else {
                        sum as i64
                    },
                    ..self
                }
            },
            BTVState::Disabled | BTVState::Armed => BtvDecelScheduler {
                rolling_distance_mm: 0,
                ..self
            },
        }
    }

    /// Refreshes the remaining distance and the deceleration request in
    /// the active states; outside them the request is neutral.
    pub open spec fn compute_decel_spec(self) -> Self {
        match self.state {
            BTVState::RotOptimization
            | BTVState::Decel
            | BTVState::EndOfBraking
            | BTVState::OutOfDecelRange => {
                let fdr = self.braking_distance_remaining_spec();
                let margin = self.safety_margin_spec();
                BtvDecelScheduler {
                    final_distance_remaining_mm: fdr as i64,
                    deceleration_request_mm_s2: decel_target_spec(
                        self.ground_speed_mm_s as int,
                        fdr,
                        margin,
                    ) as i64,
                    ..self
                }
            },
            BTVState::Disabled | BTVState::Armed => BtvDecelScheduler {
                deceleration_request_mm_s2: crate::NO_BRAKING_MM_S2,
                ..self
            },
        }
    }

    /// The state transition evaluated at the end of a tick, after the
    /// request was refreshed. Full braking freezes the reference distance
    /// and the plateau; end-of-braking tracks the plateau as the running
    /// maximum braking intensity and releases at the release speed.
    pub open spec fn update_state_spec(self) -> Self {
        match self.state {
            BTVState::Armed => {
                if self.spoilers_active {
                    BtvDecelScheduler { state: BTVState::RotOptimization, ..self }
                } else if !self.arming_authorized_spec() {
                    BtvDecelScheduler { state: BTVState::Disabled, ..self }
                } else {
                    self
                }
            },
            BTVState::RotOptimization => {
                if self.deceleration_request_mm_s2 < ACCEL_TO_REACH_TO_DECELERATE_MM_S2 {
                    BtvDecelScheduler {
                        state: BTVState::Decel,
                        distance_remaining_at_decel_activation_mm: self.final_distance_remaining_mm,
                        end_of_decel_acceleration_mm_s2: self.deceleration_request_mm_s2,
                        ..self
                    }
                } else {
                    self
                }
            },
            BTVState::Decel => {
                if self.final_distance_remaining_mm < END_OF_BRAKING_DISTANCE_MM
                    || self.ground_speed_mm_s <= TARGET_SPEED_TO_RELEASE_BTV_MM_S {
                    BtvDecelScheduler { state: BTVState::EndOfBraking, ..self }
                } else {
                    self
                }
            },
            BTVState::EndOfBraking => {
                if self.ground_speed_mm_s <= TARGET_SPEED_TO_RELEASE_BTV_MM_S {
                    self.disarm_spec()
                } else {
                    BtvDecelScheduler {
                        end_of_decel_acceleration_mm_s2: if self.deceleration_request_mm_s2
                            < self.end_of_decel_acceleration_mm_s2 {
                            self.deceleration_request_mm_s2
                        } else {
                            self.end_of_decel_acceleration_mm_s2
                        },
                        ..self
                    }
                }
            },
            BTVState::Disabled | BTVState::OutOfDecelRange => self,
        }
    }

    /// One whole tick: absorb the spoiler flag, integrate the rolling
    /// distance, refresh the request, then take the state transition.
    pub open spec fn next_spec(self, delta_ms: u64, spoilers_active: bool) -> Self {
        (BtvDecelScheduler { spoilers_active, ..self }).integrate_distance_spec(
            delta_ms,
        ).compute_decel_spec().update_state_spec()
    }

    pub fn new() -> (r: BtvDecelScheduler)
        ensures
            r == (BtvDecelScheduler {
                runway_length_mm: 0i64,
                rolling_distance_mm: 0i64,
                fallback_distance_to_exit_from_touchdown_mm: 0i64,
                oans_distance_to_exit_mm: 0i64,
                spoilers_active: false,
                ground_speed_mm_s: 0i64,
                state: BTVState::Disabled,
                deceleration_request_mm_s2: 0i64,
                end_of_decel_acceleration_mm_s2: 0i64,
                final_distance_remaining_mm: 0i64,
                distance_remaining_at_decel_activation_mm: 0i64,
            }),
            r.wf(),
    {
        BtvDecelScheduler {
            runway_length_mm: 0,
            rolling_distance_mm: 0,
            fallback_distance_to_exit_from_touchdown_mm: 0,
            oans_distance_to_exit_mm: 0,
            spoilers_active: false,
            ground_speed_mm_s: 0,
            state: BTVState::Disabled,
            deceleration_request_mm_s2: 0,
            end_of_decel_acceleration_mm_s2: 0,
            final_distance_remaining_mm: 0,
            distance_remaining_at_decel_activation_mm: 0,
        }
    }

    /// Absorbs one bus read of the distance and speed signals, clamped
    /// into the ranges the kinematics are proved within. Negative distance
    /// signals are kept (they mean "invalid source"); negative runway
    /// lengths and ground speeds read as zero.
    pub fn set_signals(
        &mut self,
        runway_length_mm: i64,
        fallback_distance_mm: i64,
        oans_distance_mm: i64,
        ground_speed_mm_s: i64,
    )
        ensures
            *final(self) == (BtvDecelScheduler {
                runway_length_mm: clamp_spec(runway_length_mm as int, 0, MAX_DISTANCE_MM as int)
                    as i64,
                fallback_distance_to_exit_from_touchdown_mm: clamp_spec(
                    fallback_distance_mm as int,
                    -MAX_DISTANCE_MM as int,
                    MAX_DISTANCE_MM as int,
                ) as i64,
                oans_distance_to_exit_mm: clamp_spec(
                    oans_distance_mm as int,
                    -MAX_DISTANCE_MM as int,
                    MAX_DISTANCE_MM as int,
                ) as i64,
                ground_speed_mm_s: clamp_spec(ground_speed_mm_s as int, 0, MAX_SPEED_MM_S as int)
                    as i64,
                ..*old(self)
            }),
            old(self).wf() ==> final(self).wf(),
    {
        self.runway_length_mm = clamp_i64(runway_length_mm, 0, MAX_DISTANCE_MM);
        self.fallback_distance_to_exit_from_touchdown_mm = clamp_i64(
            fallback_distance_mm,
            -MAX_DISTANCE_MM,
            MAX_DISTANCE_MM,
        );
        self.oans_distance_to_exit_mm = clamp_i64(oans_distance_mm, -MAX_DISTANCE_MM, MAX_DISTANCE_MM);
        self.ground_speed_mm_s = clamp_i64(ground_speed_mm_s, 0, MAX_SPEED_MM_S);
    }

    /// Arms the scheduler, but only from the disabled state and only while
    /// arming is authorized; on any other input the state is unchanged.
    pub fn enable(&mut self)
        ensures
            *final(self) == old(self).enable_spec(),
            final(self).state == BTVState::Armed <==> (old(self).state == BTVState::Armed || (
            old(self).state == BTVState::Disabled && old(self).arming_authorized_spec())),
    {
        if matches!(self.state, BTVState::Disabled) && self.arming_authorized() {
            self.state = BTVState::Armed;
        }
    }

    pub fn disarm(&mut self)
        ensures
            *final(self) == old(self).disarm_spec(),
    {
        self.state = BTVState::Disabled;
        self.deceleration_request_mm_s2 = crate::NO_BRAKING_MM_S2;
        self.end_of_decel_acceleration_mm_s2 = crate::NO_BRAKING_MM_S2;
        self.final_distance_remaining_mm = 0;
        self.distance_remaining_at_decel_activation_mm = 0;
    }

    pub fn decel(&self) -> (r: i64)
        ensures
            r == self.decel_spec(),
    {
        match self.state {
            BTVState::Decel | BTVState::OutOfDecelRange => self.deceleration_request_mm_s2,
            BTVState::EndOfBraking => self.end_of_decel_acceleration_mm_s2,
            BTVState::RotOptimization => ACCEL_DURING_ROT_OPTI_MM_S2,
            _ => crate::NO_BRAKING_MM_S2,
        }
    }

    pub fn arming_authorized(&self) -> (r: bool)
        ensures
            r == self.arming_authorized_spec(),
    {
        self.runway_length_mm >= MIN_RUNWAY_LENGTH_MM && (self.oans_distance_to_exit_mm >= 0
            || self.fallback_distance_to_exit_from_touchdown_mm >= 0)
    }

    pub fn is_armed(&self) -> (r: bool)
        ensures
            r == self.is_armed_spec(),
    {
        !matches!(self.state, BTVState::Disabled)
    }

    pub fn is_oans_fallback_mode(&self) -> (r: bool)
        ensures
            r == self.is_oans_fallback_mode_spec(),
    {
        self.oans_distance_to_exit_mm < 0
    }

    pub fn braking_distance_remaining(&self) -> (r: i64)
        requires
            self.wf(),
        ensures
            r == self.braking_distance_remaining_spec(),
            0 <= r <= MAX_DISTANCE_MM,
    {
        let raw: i64 = if self.oans_distance_to_exit_mm < 0 {
            self.fallback_distance_to_exit_from_touchdown_mm - self.rolling_distance_mm
        } else {
            self.oans_distance_to_exit_mm
        };
        let d = raw - DISTANCE_OFFSET_TO_RELEASE_BTV_MM;
        if d < 0 {
            0
        } else {
            d
        }
    }

    fn safety_margin(&self) -> (r: i64)
        requires
            self.wf(),
        ensures
            r == self.safety_margin_spec(),
            SAFETY_MARGIN_MIN_PERMILLE <= r <= SAFETY_MARGIN_MAX_PERMILLE,
    {
        match self.state {
            BTVState::Decel | BTVState::EndOfBraking | BTVState::OutOfDecelRange => {
                let dist = self.braking_distance_remaining();
                let act = self.distance_remaining_at_decel_activation_mm;
                if act <= 0 {
                    if dist <= 0 {
                        SAFETY_MARGIN_MIN_PERMILLE
                    } else {
                        SAFETY_MARGIN_MAX_PERMILLE
                    }
                } else {
                    proof {
                        lemma_mul_upper_bound(dist as int, MAX_DISTANCE_MM as int, 1_000_000, 1_000_000);
                        lemma_mul_nonnegative(dist as int, 1_000_000);
                        lemma_div_nonincreasing(dist as int * 1_000_000, act as int);
                        lemma_div_pos_is_pos(dist as int * 1_000_000, act as int);
                    }
                    let ratio: u64 = (dist as u64) * 1_000_000 / (act as u64);
                    let s: u64 = isqrt_u64(ratio);
                    proof {
                        assert(s <= 100_000_000) by (nonlinear_arith)
                            requires
                                s * s <= ratio,
                                ratio <= 1_000_000_000_000_000u64,
                        ;
                    }
                    let m: i64 = 1000 + (400 * s / 1000) as i64;
                    clamp_i64(m, SAFETY_MARGIN_MIN_PERMILLE, SAFETY_MARGIN_MAX_PERMILLE)
                }
            },
            _ => SAFETY_MARGIN_MAX_PERMILLE,
        }
    }

    fn integrate_distance(&mut self, delta_ms: u64)
        requires
            old(self).wf(),
        ensures
            *final(self) == old(self).integrate_distance_spec(delta_ms),
            final(self).wf(),
    {
        match self.state {
            BTVState::RotOptimization
            | BTVState::Decel
            | BTVState::EndOfBraking
            | BTVState::OutOfDecelRange => {
                let dt: u64 = if delta_ms > MAX_TICK_MS {
                    MAX_TICK_MS
                } else {
                    delta_ms
                };
                proof {
                    lemma_mul_upper_bound(
                        self.ground_speed_mm_s as int,
                        MAX_SPEED_MM_S as int,
                        dt as int,
                        MAX_TICK_MS as int,
                    );
                    lemma_mul_nonnegative(self.ground_speed_mm_s as int, dt as int);
                    lemma_div_pos_is_pos(self.ground_speed_mm_s as int * dt as int, 1000);
                    lemma_div_nonincreasing(self.ground_speed_mm_s as int * dt as int, 1000);
                }
                let add: i64 = ((self.ground_speed_mm_s as u64) * dt / 1000) as i64;
                let sum: i64 = self.rolling_distance_mm + add;
                self.rolling_distance_mm = if sum > MAX_DISTANCE_MM {
                    MAX_DISTANCE_MM
                } else {
                    sum
                };
            },
            BTVState::Disabled | BTVState::Armed => {
                self.rolling_distance_mm = 0;
            },
        }
    }

    fn compute_decel(&mut self)
        requires
            old(self).wf(),
        ensures
            *final(self) == old(self).compute_decel_spec(),
            final(self).wf(),
    {
        match self.state {
            BTVState::RotOptimization
            | BTVState::Decel
            | BTVState::EndOfBraking
            | BTVState::OutOfDecelRange => {
                let fdr = self.braking_distance_remaining();
                let margin = self.safety_margin();
                self.final_distance_remaining_mm = fdr;
                self.deceleration_request_mm_s2 = decel_target(
                    self.ground_speed_mm_s,
                    fdr,
                    margin,
                );
            },
            BTVState::Disabled | BTVState::Armed => {
                self.deceleration_request_mm_s2 = crate::NO_BRAKING_MM_S2;
            },
        }
    }

    fn update_state(&mut self)
        requires
            old(self).wf(),
        ensures
            *final(self) == old(self).update_state_spec(),
            final(self).wf(),
    {
        match self.state {
            BTVState::Armed => {
                if self.spoilers_active {
                    self.state = BTVState::RotOptimization;
                } else if !self.arming_authorized() {
                    self.state = BTVState::Disabled;
                }
            },
            BTVState::RotOptimization => {
                if self.deceleration_request_mm_s2 < ACCEL_TO_REACH_TO_DECELERATE_MM_S2 {
                    self.distance_remaining_at_decel_activation_mm =
                        self.final_distance_remaining_mm;
                    self.end_of_decel_acceleration_mm_s2 = self.deceleration_request_mm_s2;
                    self.state = BTVState::Decel;
                }
            },
            BTVState::Decel => {
                if self.final_distance_remaining_mm < END_OF_BRAKING_DISTANCE_MM
                    || self.ground_speed_mm_s <= TARGET_SPEED_TO_RELEASE_BTV_MM_S {
                    self.state = BTVState::EndOfBraking;
                }
            },
            BTVState::EndOfBraking => {
                if self.ground_speed_mm_s <= TARGET_SPEED_TO_RELEASE_BTV_MM_S {
                    self.disarm();
                } else if self.deceleration_request_mm_s2 < self.end_of_decel_acceleration_mm_s2 {
                    self.end_of_decel_acceleration_mm_s2 = self.deceleration_request_mm_s2;
                }
            },
            BTVState::Disabled | BTVState::OutOfDecelRange => {},
        }
    }

    /// One tick of the scheduler, in the fixed order: absorb the spoiler
    /// flag, integrate distance, refresh the request, transition.
    pub fn update(&mut self, delta_ms: u64, spoilers_active: bool)
        requires
            old(self).wf(),
        ensures
            *final(self) == old(self).next_spec(delta_ms, spoilers_active),
            final(self).wf(),
    {
        self.spoilers_active = spoilers_active;
        self.integrate_distance(delta_ms);
        self.compute_decel();
        self.update_state();
    }
}

/// Arming succeeds exactly when the scheduler is disabled, the runway is at
/// least the minimum length, and at least one exit-distance source is
/// non-negative; an unauthorized enable leaves the scheduler untouched.
pub proof fn lemma_arming_needs_authorization(s: BtvDecelScheduler)
    ensures
        s.enable_spec().state == BTVState::Armed <==> (s.state == BTVState::Armed || (s.state
            == BTVState::Disabled && s.runway_length_mm >= MIN_RUNWAY_LENGTH_MM && (
        s.oans_distance_to_exit_mm >= 0 || s.fallback_distance_to_exit_from_touchdown_mm >= 0))),
        s.state == BTVState::Disabled && !s.arming_authorized_spec() ==> s.enable_spec() == s,
{
}

/// The end-of-braking plateau never relaxes: across any tick that stays in
/// end-of-braking, the reported plateau only moves toward stronger
/// deceleration (it is non-increasing as a signed value; by
/// `lemma_plateau_is_braking_invariant` it is negative in this state, so
/// its magnitude as a deceleration is non-decreasing).
pub proof fn lemma_plateau_never_relaxes(s: BtvDecelScheduler, delta_ms: u64, spoilers: bool)
    requires
        s.state == BTVState::EndOfBraking,
        s.next_spec(delta_ms, spoilers).state == BTVState::EndOfBraking,
    ensures
        s.next_spec(delta_ms, spoilers).end_of_decel_acceleration_mm_s2
            <= s.end_of_decel_acceleration_mm_s2,
{
}

impl BtvDecelScheduler {
    /// In the states whose target rests on the frozen plateau, the plateau
    /// is a genuine deceleration, at or past the time-to-brake threshold
    /// it was frozen at.
    pub open spec fn plateau_is_braking(self) -> bool {
        match self.state {
            BTVState::Decel | BTVState::EndOfBraking | BTVState::OutOfDecelRange => {
                self.end_of_decel_acceleration_mm_s2 <= ACCEL_TO_REACH_TO_DECELERATE_MM_S2
            },
            _ => true,
        }
    }
}

/// `plateau_is_braking` holds of a fresh scheduler and is preserved by
/// every step: full braking freezes the plateau below the time-to-brake
/// threshold, and end-of-braking only ever strengthens it.
pub proof fn lemma_plateau_is_braking_invariant(s: BtvDecelScheduler, delta_ms: u64, spoilers: bool)
    requires
        s.plateau_is_braking(),
    ensures
        s.next_spec(delta_ms, spoilers).plateau_is_braking(),
        s.enable_spec().plateau_is_braking(),
        s.disarm_spec().plateau_is_braking(),
{
}

/// Disarming and re-arming is an idempotent reset: after a disarm, one
/// disabled tick and a renewed enable, the rolling distance, the plateau,
/// the request and both frozen distances are back at their neutral values,
/// whatever the scheduler had accumulated.
pub proof fn lemma_disarm_rearm_resets(s: BtvDecelScheduler, delta_ms: u64, spoilers: bool)
    ensures
        ({
            let rearmed = s.disarm_spec().next_spec(delta_ms, spoilers).enable_spec();
            &&& rearmed.rolling_distance_mm == 0
            &&& rearmed.deceleration_request_mm_s2 == crate::NO_BRAKING_MM_S2
            &&& rearmed.end_of_decel_acceleration_mm_s2 == crate::NO_BRAKING_MM_S2
            &&& rearmed.final_distance_remaining_mm == 0
            &&& rearmed.distance_remaining_at_decel_activation_mm == 0
            &&& rearmed.state == BTVState::Armed <==> s.arming_authorized_spec()
        }),
{
}

/// The out-of-deceleration-range state is reserved: it keeps the request
/// computation of full braking, but no transition from any other state
/// produces it.
pub proof fn lemma_out_of_decel_range_is_never_entered(
    s: BtvDecelScheduler,
    delta_ms: u64,
    spoilers: bool,
)
    requires
        s.state != BTVState::OutOfDecelRange,
    ensures
        s.next_spec(delta_ms, spoilers).state != BTVState::OutOfDecelRange,
        s.enable_spec().state != BTVState::OutOfDecelRange,
        s.disarm_spec().state != BTVState::OutOfDecelRange,
{
}

/// Computes `decel_target_spec` on machine integers.
pub fn decel_target(speed_mm_s: i64, dist_mm: i64, margin_permille: i64) -> (r: i64)
    requires
        0 <= speed_mm_s <= MAX_SPEED_MM_S,
        dist_mm <= MAX_DISTANCE_MM,
        0 <= margin_permille <= 2000,
    ensures
        r == decel_target_spec(speed_mm_s as int, dist_mm as int, margin_permille as int),
        MAX_DECEL_DRY_MM_S2 <= r <= 0,
{
    if dist_mm <= 0 {
        MAX_DECEL_DRY_MM_S2
    } else {
        let delta: i64 = speed_mm_s - RELEASE_SPEED_COMPONENT_MM_S;
        proof {
            assert(0 <= delta * delta <= 1_000_000_000_000i64) by (nonlinear_arith)
                requires
                    -RELEASE_SPEED_COMPONENT_MM_S <= delta <= MAX_SPEED_MM_S,
            ;
            lemma_div_pos_is_pos(delta as int * delta as int, 2 * dist_mm as int);
            lemma_div_nonincreasing(delta as int * delta as int, 2 * dist_mm as int);
        }
        let dd: u64 = (delta * delta) as u64;
        let mag: u64 = dd / (2 * (dist_mm as u64));
        proof {
            lemma_mul_upper_bound(mag as int, 1_000_000_000_000, margin_permille as int, 2000);
            lemma_mul_nonnegative(mag as int, margin_permille as int);
            lemma_div_pos_is_pos(mag as int * margin_permille as int, 1000);
            lemma_div_nonincreasing(mag as int * margin_permille as int, 1000);
        }
        let magc: u64 = mag * (margin_permille as u64) / 1000;
        if magc > 3000 {
            MAX_DECEL_DRY_MM_S2
        } else {
            -(magc as i64)
        }
    }
}

} // verus!
