//! The autobrake controller: mode arbitration, arming and disarming policy,
//! per-mode target-deceleration dispatch, decel-indicator hysteresis, and
//! the knob-disarm solenoid request. One `update` per simulation tick reads
//! the latest signals, takes every decision for the tick, drives the
//! deceleration governor, and ticks the brake-to-vacate scheduler.

use crate::btv::BtvDecelScheduler;
use crate::gates::{DelayedPulseTrueLogicGate, DelayedTrueLogicGate};
use crate::governor::AutobrakeDecelerationGovernor;
use crate::interp;
use crate::num::{clamp_i64, clamp_spec};
use crate::panel::{
    A380AutobrakeKnobPosition,
    A380AutobrakeKnobSelectorSolenoid,
    A380AutobrakeMode,
    A380AutobrakePanel,
};
use vstd::prelude::*;

verus! {

/// After this long with all main gear in flight, the autobrake disarms
/// (one pulse) and a stale rejected-takeoff arming is refused (level).
pub const DURATION_OF_FLIGHT_TO_DISARM_AUTOBRAKE_MS: u64 = 10_000;

/// Ground spoilers must have been deployed this long before the governor
/// engages, unless the nose gear has touched down once.
pub const DURATION_OF_GROUND_SPOILERS_BEFORE_ARMING_MS: u64 = 5_000;

/// Settle delay before the solenoid pulls the knob back to disarm, giving
/// the pilot time to turn the knob past the brake-to-vacate position.
pub const KNOB_DISARM_DELAY_MS: u64 = 500;

/// Fixed target while disarmed: a positive, brake-releasing acceleration.
pub const OFF_MODE_DECEL_TARGET_MM_S2: i64 = 5000;

/// Fixed strong target in the rejected-takeoff mode.
pub const RTO_MODE_DECEL_TARGET_MM_S2: i64 = -6000;

/// Decel-indicator hysteresis band for the landing modes, in per-mille of
/// the target: on at or above the first, off below the second.
pub const MARGIN_TO_SHOW_DECEL_IN_LANDING_MODE_PERMILLE: i64 = 800;

pub const MARGIN_TO_REMOVE_DECEL_IN_LANDING_MODE_PERMILLE: i64 = 700;

/// Decel-indicator hysteresis band for the rejected-takeoff mode, as
/// absolute rates: on when decelerating harder than the first, off when
/// softer than the second.
pub const TARGET_TO_SHOW_DECEL_IN_RTO_MM_S2: i64 = -2700;

pub const TARGET_TO_REMOVE_DECEL_IN_RTO_MM_S2: i64 = -2000;

/// Pedal thresholds that override the autobrake, in per-mille of pedal
/// travel: one pedal past the single threshold, or both past the co-press
/// threshold, disarms. Rejected takeoff uses the higher pair.
pub const PEDAL_DISARM_SINGLE_LANDING_PERMILLE: i64 = 530;

pub const PEDAL_DISARM_BOTH_LANDING_PERMILLE: i64 = 110;

pub const PEDAL_DISARM_SINGLE_RTO_PERMILLE: i64 = 770;

pub const PEDAL_DISARM_BOTH_RTO_PERMILLE: i64 = 530;

/// What the controller reads from the simulation context each tick.
#[derive(Clone, Copy, PartialEq, Eq, Structural, Debug)]
pub struct UpdateContext {
    pub delta_ms: u64,
    pub is_sim_ready: bool,
    pub long_accel_mm_s2: i64,
}

/// Gear-compression signals from one landing-gear sensing channel.
#[derive(Clone, Copy, PartialEq, Eq, Structural, Debug)]
pub struct LgciuSignals {
    pub left_gear_compressed: bool,
    pub right_gear_compressed: bool,
    pub nose_gear_compressed: bool,
}

/// The autobrake controller's state: the authoritative mode, the governor
/// it drives, the scheduler it delegates brake-to-vacate targets to, and
/// the time gates behind its disarm policy.
#[derive(Clone, Copy, PartialEq, Eq, Structural, Debug)]
pub struct A380AutobrakeController {
    pub deceleration_governor: AutobrakeDecelerationGovernor,
    pub decelerating_light: bool,
    pub target_mm_s2: i64,
    pub mode: A380AutobrakeMode,
    pub arming_is_allowed_by_bcu: bool,
    pub left_brake_pedal_input_permille: i64,
    pub right_brake_pedal_input_permille: i64,
    pub ground_spoilers_are_deployed: bool,
    pub last_ground_spoilers_are_deployed: bool,
    pub ground_spoilers_are_deployed_since_5s: DelayedTrueLogicGate,
    pub nose_gear_was_compressed_once: bool,
    pub should_disarm_after_time_in_flight: DelayedPulseTrueLogicGate,
    pub should_reject_rto_mode_after_time_in_flight: DelayedTrueLogicGate,
    pub autobrake_knob: A380AutobrakeKnobSelectorSolenoid,
    pub external_disarm_event: bool,
    pub placeholder_ground_spoilers_out: bool,
    pub btv_scheduler: BtvDecelScheduler,
    pub should_disarm_selection_knob_delayed: DelayedTrueLogicGate,
}

/// The shared time axis of the landing-mode deceleration profiles, in ms.
pub open spec fn profile_times_spec() -> Seq<u64> {
    seq![0u64, 100u64, 2500u64]
}

/// The per-mode acceleration breakpoints, in mm/s^2: a brake-releasing
/// start ramping to a mode-specific plateau.
pub open spec fn profile_accel_spec(mode: A380AutobrakeMode) -> Seq<i64> {
    match mode {
        A380AutobrakeMode::L2 => seq![4000i64, 0i64, -2500i64],
        A380AutobrakeMode::L3 => seq![4000i64, 0i64, -3000i64],
        A380AutobrakeMode::HIGH => seq![4000i64, -2000i64, -3500i64],
        _ => seq![4000i64, 0i64, -2000i64],
    }
}

impl A380AutobrakeController {
    pub open spec fn wf(self) -> bool {
        &&& self.deceleration_governor.wf()
        &&& self.ground_spoilers_are_deployed_since_5s.wf()
        &&& self.should_disarm_after_time_in_flight.wf()
        &&& self.should_reject_rto_mode_after_time_in_flight.wf()
        &&& self.should_disarm_selection_knob_delayed.wf()
        &&& self.btv_scheduler.wf()
        &&& 0 <= self.left_brake_pedal_input_permille <= 1000
        &&& 0 <= self.right_brake_pedal_input_permille <= 1000
        &&& -1_000_000 <= self.target_mm_s2 <= 1_000_000
    }

    pub open spec fn is_armed_spec(self) -> bool {
        self.mode != A380AutobrakeMode::DISARM
    }

    pub open spec fn spoilers_retracted_during_this_update_spec(self) -> bool {
        !self.ground_spoilers_are_deployed && self.last_ground_spoilers_are_deployed
    }

    pub open spec fn rto_mode_deselected_this_update_spec(self, panel: A380AutobrakePanel) -> bool {
        self.mode == A380AutobrakeMode::RTO && panel.rto_button_pressed
    }

    /// Pedal override: mode-dependent thresholds, lower in the landing
    /// family than in rejected takeoff.
    pub open spec fn should_disarm_due_to_pedal_input_spec(self) -> bool {
        match self.mode {
            A380AutobrakeMode::DISARM => false,
            A380AutobrakeMode::LOW
            | A380AutobrakeMode::L2
            | A380AutobrakeMode::L3
            | A380AutobrakeMode::HIGH
            | A380AutobrakeMode::BTV => {
                ||| self.left_brake_pedal_input_permille > PEDAL_DISARM_SINGLE_LANDING_PERMILLE
                ||| self.right_brake_pedal_input_permille > PEDAL_DISARM_SINGLE_LANDING_PERMILLE
                ||| (self.left_brake_pedal_input_permille > PEDAL_DISARM_BOTH_LANDING_PERMILLE
                    && self.right_brake_pedal_input_permille
                    > PEDAL_DISARM_BOTH_LANDING_PERMILLE)
            },
            A380AutobrakeMode::RTO => {
                ||| self.left_brake_pedal_input_permille > PEDAL_DISARM_SINGLE_RTO_PERMILLE
                ||| self.right_brake_pedal_input_permille > PEDAL_DISARM_SINGLE_RTO_PERMILLE
                ||| (self.left_brake_pedal_input_permille > PEDAL_DISARM_BOTH_RTO_PERMILLE
                    && self.right_brake_pedal_input_permille > PEDAL_DISARM_BOTH_RTO_PERMILLE)
            },
        }
    }

    /// The disarm policy: any one of these forces the mode to disarm in
    /// the same tick it becomes true.
    pub open spec fn should_disarm_spec(self, is_sim_ready: bool, panel: A380AutobrakePanel) -> bool {
        ||| (self.deceleration_governor.engaged && self.should_disarm_due_to_pedal_input_spec())
        ||| (is_sim_ready && !self.arming_is_allowed_by_bcu)
        ||| self.spoilers_retracted_during_this_update_spec()
        ||| self.should_disarm_after_time_in_flight.output_spec()
        ||| (self.external_disarm_event && self.mode != A380AutobrakeMode::RTO)
        ||| (self.mode == A380AutobrakeMode::RTO
            && self.should_reject_rto_mode_after_time_in_flight.output_spec())
        ||| (self.mode == A380AutobrakeMode::DISARM && panel.selected_mode
            != A380AutobrakeKnobPosition::DISARM)
        ||| (self.mode == A380AutobrakeMode::BTV && !self.btv_scheduler.is_armed_spec())
    }

    /// Mode arbitration: a fresh rejected-takeoff press wins unless
    /// time-rejected; otherwise a flagged knob change is adopted;
    /// otherwise the mode is retained.
    pub open spec fn determine_mode_spec(self, panel: A380AutobrakePanel) -> A380AutobrakeMode {
        if self.mode != A380AutobrakeMode::RTO && panel.rto_button_pressed
            && !self.should_reject_rto_mode_after_time_in_flight.output_spec() {
            A380AutobrakeMode::RTO
        } else if panel.mode_has_changed {
            match panel.selected_mode {
                A380AutobrakeKnobPosition::DISARM => A380AutobrakeMode::DISARM,
                A380AutobrakeKnobPosition::BTV => A380AutobrakeMode::BTV,
                A380AutobrakeKnobPosition::LOW => A380AutobrakeMode::LOW,
                A380AutobrakeKnobPosition::L2 => A380AutobrakeMode::L2,
                A380AutobrakeKnobPosition::L3 => A380AutobrakeMode::L3,
                A380AutobrakeKnobPosition::HIGH => A380AutobrakeMode::HIGH,
            }
        } else {
            self.mode
        }
    }

    /// Selecting brake-to-vacate at the knob also asks the scheduler to
    /// arm, in the same tick the selection is adopted.
    pub open spec fn btv_enable_requested_spec(self, panel: A380AutobrakePanel) -> bool {
        &&& !(self.mode != A380AutobrakeMode::RTO && panel.rto_button_pressed
            && !self.should_reject_rto_mode_after_time_in_flight.output_spec())
        &&& panel.mode_has_changed
        &&& panel.selected_mode == A380AutobrakeKnobPosition::BTV
    }

    /// The governor engages only when armed, with spoilers deployed, once
    /// the spoiler delay has elapsed or the nose gear has touched down,
    /// and with no disarm pending.
    pub open spec fn should_engage_deceleration_governor_spec(
        self,
        is_sim_ready: bool,
        panel: A380AutobrakePanel,
    ) -> bool {
        &&& self.is_armed_spec()
        &&& self.ground_spoilers_are_deployed
        &&& (self.ground_spoilers_are_deployed_since_5s.output_spec()
            || self.nose_gear_was_compressed_once)
        &&& !self.should_disarm_spec(is_sim_ready, panel)
    }

    /// The target handed to the governor: fixed while disarmed or in
    /// rejected takeoff, interpolated over the per-mode profile in the
    /// landing modes, delegated to the scheduler in brake-to-vacate.
    pub open spec fn calculate_target_spec(self) -> int {
        match self.mode {
            A380AutobrakeMode::DISARM => OFF_MODE_DECEL_TARGET_MM_S2 as int,
            A380AutobrakeMode::RTO => RTO_MODE_DECEL_TARGET_MM_S2 as int,
            A380AutobrakeMode::BTV => self.btv_scheduler.decel_spec(),
            _ => interp::interpolate_spec(
                profile_times_spec(),
                profile_accel_spec(self.mode),
                self.deceleration_governor.time_engaged_ms,
            ),
        }
    }

    pub open spec fn deceleration_demanded_spec(self) -> bool {
        self.deceleration_governor.engaged && self.target_mm_s2 < 0
    }

    /// Decel-indicator hysteresis: percentage-of-target thresholds in the
    /// landing family, absolute rate thresholds in rejected takeoff, off
    /// whenever no deceleration is demanded.
    pub open spec fn decelerating_light_next_spec(self) -> bool {
        if !self.deceleration_demanded_spec() {
            false
        } else {
            match self.mode {
                A380AutobrakeMode::DISARM => false,
                A380AutobrakeMode::LOW
                | A380AutobrakeMode::L2
                | A380AutobrakeMode::L3
                | A380AutobrakeMode::HIGH
                | A380AutobrakeMode::BTV => {
                    if self.deceleration_governor.is_on_target_spec(
                        MARGIN_TO_SHOW_DECEL_IN_LANDING_MODE_PERMILLE,
                    ) {
                        true
                    } else if !self.deceleration_governor.is_on_target_spec(
                        MARGIN_TO_REMOVE_DECEL_IN_LANDING_MODE_PERMILLE,
                    ) {
                        false
                    } else {
                        self.decelerating_light
                    }
                },
                A380AutobrakeMode::RTO => {
                    if self.deceleration_governor.decelerating_at_or_above_rate_spec(
                        TARGET_TO_SHOW_DECEL_IN_RTO_MM_S2,
                    ) {
                        true
                    } else if !self.deceleration_governor.decelerating_at_or_above_rate_spec(
                        TARGET_TO_REMOVE_DECEL_IN_RTO_MM_S2,
                    ) {
                        false
                    } else {
                        self.decelerating_light
                    }
                },
            }
        }
    }

    /// The input-conditions step: latch the nose gear, tick the three
    /// flight-time and spoiler gates, store arming permission and pedals.
    pub open spec fn update_input_conditions_spec(
        self,
        ctx: UpdateContext,
        allow_arming: bool,
        pedal_input_left_permille: i64,
        pedal_input_right_permille: i64,
        lgciu1: LgciuSignals,
        lgciu2: LgciuSignals,
    ) -> Self {
        let in_flight_lgciu1 = !lgciu1.right_gear_compressed && !lgciu1.left_gear_compressed;
        let in_flight_lgciu2 = !lgciu2.right_gear_compressed && !lgciu2.left_gear_compressed;
        let in_flight = in_flight_lgciu1 && in_flight_lgciu2;
        A380AutobrakeController {
            nose_gear_was_compressed_once: self.nose_gear_was_compressed_once
                || lgciu1.nose_gear_compressed || lgciu2.nose_gear_compressed,
            ground_spoilers_are_deployed_since_5s: self.ground_spoilers_are_deployed_since_5s
                .next_spec(ctx.delta_ms, self.ground_spoilers_are_deployed),
            should_disarm_after_time_in_flight: self.should_disarm_after_time_in_flight.next_spec(
                ctx.delta_ms,
                in_flight,
            ),
            should_reject_rto_mode_after_time_in_flight: self
                .should_reject_rto_mode_after_time_in_flight
                .next_spec(ctx.delta_ms, in_flight),
            arming_is_allowed_by_bcu: allow_arming,
            left_brake_pedal_input_permille: clamp_spec(
                pedal_input_left_permille as int,
                0,
                1000,
            ) as i64,
            right_brake_pedal_input_permille: clamp_spec(
                pedal_input_right_permille as int,
                0,
                1000,
            ) as i64,
            ..self
        }
    }

    /// Disarm actions: the scheduler is forced to disabled, the nose-gear
    /// latch clears, the mode falls to disarm.
    pub open spec fn disarm_actions_spec(self) -> Self {
        A380AutobrakeController {
            btv_scheduler: self.btv_scheduler.disarm_spec(),
            nose_gear_was_compressed_once: false,
            mode: A380AutobrakeMode::DISARM,
            ..self
        }
    }

    /// The tick's first half: absorb the input conditions, then adopt the
    /// tick's mode (arming the scheduler when brake-to-vacate was freshly
    /// selected). The disarm policy is evaluated on this state.
    pub open spec fn arbitrated_spec(
        self,
        ctx: UpdateContext,
        panel: A380AutobrakePanel,
        allow_arming: bool,
        pedal_input_left_permille: i64,
        pedal_input_right_permille: i64,
        lgciu1: LgciuSignals,
        lgciu2: LgciuSignals,
    ) -> Self {
        let s1 = self.update_input_conditions_spec(
            ctx,
            allow_arming,
            pedal_input_left_permille,
            pedal_input_right_permille,
            lgciu1,
            lgciu2,
        );
        A380AutobrakeController {
            mode: s1.determine_mode_spec(panel),
            btv_scheduler: if s1.btv_enable_requested_spec(panel) {
                s1.btv_scheduler.enable_spec()
            } else {
                s1.btv_scheduler
            },
            ..s1
        }
    }

    /// One whole controller tick, in the fixed program order.
    pub open spec fn next_spec(
        self,
        ctx: UpdateContext,
        panel: A380AutobrakePanel,
        allow_arming: bool,
        pedal_input_left_permille: i64,
        pedal_input_right_permille: i64,
        lgciu1: LgciuSignals,
        lgciu2: LgciuSignals,
        placeholder_ground_spoilers_out: bool,
    ) -> Self {
        let rto_disable = self.mode == A380AutobrakeMode::RTO && panel.rto_button_pressed;
        let s2 = self.arbitrated_spec(
            ctx,
            panel,
            allow_arming,
            pedal_input_left_permille,
            pedal_input_right_permille,
            lgciu1,
            lgciu2,
        );
        let s3 = if rto_disable || s2.should_disarm_spec(ctx.is_sim_ready, panel) {
            s2.disarm_actions_spec()
        } else {
            s2
        };
        let s4 = A380AutobrakeController {
            should_disarm_selection_knob_delayed: s3.should_disarm_selection_knob_delayed
                .next_spec(
                ctx.delta_ms,
                s3.mode == A380AutobrakeMode::DISARM || s3.mode == A380AutobrakeMode::RTO,
            ),
            ..s3
        };
        let s5 = A380AutobrakeController {
            autobrake_knob: A380AutobrakeKnobSelectorSolenoid {
                is_powered: s4.autobrake_knob.is_powered,
                disarm_request: s4.autobrake_knob.is_powered
                    && s4.should_disarm_selection_knob_delayed.output_spec(),
            },
            ..s4
        };
        let s6 = A380AutobrakeController {
            deceleration_governor: AutobrakeDecelerationGovernor {
                engaged: s5.should_engage_deceleration_governor_spec(ctx.is_sim_ready, panel),
                ..s5.deceleration_governor
            },
            ..s5
        };
        let target = s6.calculate_target_spec();
        let s7 = A380AutobrakeController {
            target_mm_s2: target as i64,
            deceleration_governor: s6.deceleration_governor.next_spec(
                ctx.delta_ms,
                target as i64,
                ctx.long_accel_mm_s2,
            ),
            ..s6
        };
        let s8 = A380AutobrakeController {
            decelerating_light: s7.decelerating_light_next_spec(),
            placeholder_ground_spoilers_out,
            ..s7
        };
        A380AutobrakeController {
            btv_scheduler: s8.btv_scheduler.next_spec(
                ctx.delta_ms,
                s8.ground_spoilers_are_deployed,
            ),
            ..s8
        }
    }

    /// A controller fresh at simulation start: disarmed, gates cold unless
    /// the simulation begins in flight, scheduler disabled.
    pub fn new(started_in_flight: bool) -> (r: A380AutobrakeController)
        ensures
            r.mode == A380AutobrakeMode::DISARM,
            !r.decelerating_light,
            r.target_mm_s2 == 0i64,
            r.arming_is_allowed_by_bcu == started_in_flight,
            r.left_brake_pedal_input_permille == 0i64,
            r.right_brake_pedal_input_permille == 0i64,
            !r.ground_spoilers_are_deployed,
            !r.last_ground_spoilers_are_deployed,
            !r.nose_gear_was_compressed_once,
            !r.external_disarm_event,
            !r.placeholder_ground_spoilers_out,
            r.deceleration_governor == (AutobrakeDecelerationGovernor {
                engaged: false,
                time_engaged_ms: 0u64,
                target_mm_s2: 0i64,
                current_accel_mm_s2: 0i64,
            }),
            r.btv_scheduler.state == crate::btv::BTVState::Disabled,
            r.btv_scheduler.rolling_distance_mm == 0i64,
            r.btv_scheduler.deceleration_request_mm_s2 == 0i64,
            r.btv_scheduler.end_of_decel_acceleration_mm_s2 == 0i64,
            r.btv_scheduler.final_distance_remaining_mm == 0i64,
            r.btv_scheduler.distance_remaining_at_decel_activation_mm == 0i64,
            r.btv_scheduler.runway_length_mm == 0i64,
            r.btv_scheduler.fallback_distance_to_exit_from_touchdown_mm == 0i64,
            r.btv_scheduler.oans_distance_to_exit_mm == 0i64,
            r.btv_scheduler.ground_speed_mm_s == 0i64,
            !r.btv_scheduler.spoilers_active,
            r.ground_spoilers_are_deployed_since_5s == (DelayedTrueLogicGate {
                delay_ms: DURATION_OF_GROUND_SPOILERS_BEFORE_ARMING_MS,
                input: false,
                time_true_ms: 0u64,
            }),
            !r.should_disarm_after_time_in_flight.pulse,
            r.should_disarm_after_time_in_flight.last_gate_output == started_in_flight,
            r.should_disarm_after_time_in_flight.gate.output_spec() == started_in_flight,
            r.should_disarm_after_time_in_flight.gate.delay_ms
                == DURATION_OF_FLIGHT_TO_DISARM_AUTOBRAKE_MS,
            r.should_reject_rto_mode_after_time_in_flight.output_spec() == started_in_flight,
            r.should_reject_rto_mode_after_time_in_flight.delay_ms
                == DURATION_OF_FLIGHT_TO_DISARM_AUTOBRAKE_MS,
            r.autobrake_knob.is_powered,
            !r.autobrake_knob.disarm_request,
            r.should_disarm_selection_knob_delayed == (DelayedTrueLogicGate {
                delay_ms: KNOB_DISARM_DELAY_MS,
                input: false,
                time_true_ms: 0u64,
            }),
            r.wf(),
    {
        A380AutobrakeController {
            deceleration_governor: AutobrakeDecelerationGovernor::new(),
            decelerating_light: false,
            target_mm_s2: 0,
            mode: A380AutobrakeMode::DISARM,
            arming_is_allowed_by_bcu: started_in_flight,
            left_brake_pedal_input_permille: 0,
            right_brake_pedal_input_permille: 0,
            ground_spoilers_are_deployed: false,
            last_ground_spoilers_are_deployed: false,
            ground_spoilers_are_deployed_since_5s: DelayedTrueLogicGate::new(
                DURATION_OF_GROUND_SPOILERS_BEFORE_ARMING_MS,
            ),
            nose_gear_was_compressed_once: false,
            should_disarm_after_time_in_flight: DelayedPulseTrueLogicGate::new(
                DURATION_OF_FLIGHT_TO_DISARM_AUTOBRAKE_MS,
            ).starting_as(started_in_flight, false),
            should_reject_rto_mode_after_time_in_flight: DelayedTrueLogicGate::new(
                DURATION_OF_FLIGHT_TO_DISARM_AUTOBRAKE_MS,
            ).starting_as(started_in_flight),
            autobrake_knob: A380AutobrakeKnobSelectorSolenoid::new(),
            external_disarm_event: false,
            placeholder_ground_spoilers_out: false,
            btv_scheduler: BtvDecelScheduler::new(),
            should_disarm_selection_knob_delayed: DelayedTrueLogicGate::new(KNOB_DISARM_DELAY_MS),
        }
    }

    pub fn spoilers_retracted_during_this_update(&self) -> (r: bool)
        ensures
            r == self.spoilers_retracted_during_this_update_spec(),
    {
        !self.ground_spoilers_are_deployed && self.last_ground_spoilers_are_deployed
    }

    pub fn rto_mode_deselected_this_update(&self, autobrake_panel: &A380AutobrakePanel) -> (r:
        bool)
        ensures
            r == self.rto_mode_deselected_this_update_spec(*autobrake_panel),
    {
        matches!(self.mode, A380AutobrakeMode::RTO) && autobrake_panel.rto_pressed()
    }

    /// The module's final product: the governor's brake command ratio, in
    /// per-mille of full braking.
    pub fn brake_output(&self) -> (r: i64)
        requires
            self.wf(),
        ensures
            r == self.deceleration_governor.output_spec(),
            0 <= r <= 1000,
    {
        self.deceleration_governor.output()
    }

    pub fn is_armed(&self) -> (r: bool)
        ensures
            r == self.is_armed_spec(),
    {
        !matches!(self.mode, A380AutobrakeMode::DISARM)
    }

    pub fn is_decelerating(&self) -> (r: bool)
        ensures
            r == self.decelerating_light,
    {
        self.decelerating_light
    }

    pub fn deceleration_demanded(&self) -> (r: bool)
        ensures
            r == self.deceleration_demanded_spec(),
    {
        self.deceleration_governor.is_engaged() && self.target_mm_s2 < 0
    }

    fn should_disarm_due_to_pedal_input(&self) -> (r: bool)
        ensures
            r == self.should_disarm_due_to_pedal_input_spec(),
    {
        match self.mode {
            A380AutobrakeMode::DISARM => false,
            A380AutobrakeMode::LOW
            | A380AutobrakeMode::L2
            | A380AutobrakeMode::L3
            | A380AutobrakeMode::HIGH
            | A380AutobrakeMode::BTV => {
                self.left_brake_pedal_input_permille > PEDAL_DISARM_SINGLE_LANDING_PERMILLE
                    || self.right_brake_pedal_input_permille
                    > PEDAL_DISARM_SINGLE_LANDING_PERMILLE || (
                self.left_brake_pedal_input_permille > PEDAL_DISARM_BOTH_LANDING_PERMILLE
                    && self.right_brake_pedal_input_permille
                    > PEDAL_DISARM_BOTH_LANDING_PERMILLE)
            },
            A380AutobrakeMode::RTO => {
                self.left_brake_pedal_input_permille > PEDAL_DISARM_SINGLE_RTO_PERMILLE
                    || self.right_brake_pedal_input_permille > PEDAL_DISARM_SINGLE_RTO_PERMILLE
                    || (self.left_brake_pedal_input_permille > PEDAL_DISARM_BOTH_RTO_PERMILLE
                    && self.right_brake_pedal_input_permille > PEDAL_DISARM_BOTH_RTO_PERMILLE)
            },
        }
    }

    fn should_disarm(&self, is_sim_ready: bool, autobrake_panel: &A380AutobrakePanel) -> (r: bool)
        ensures
            r == self.should_disarm_spec(is_sim_ready, *autobrake_panel),
    {
        (self.deceleration_governor.is_engaged() && self.should_disarm_due_to_pedal_input()) || (
        is_sim_ready && !self.arming_is_allowed_by_bcu)
            || self.spoilers_retracted_during_this_update()
            || self.should_disarm_after_time_in_flight.output() || (self.external_disarm_event
            && !matches!(self.mode, A380AutobrakeMode::RTO)) || (matches!(
            self.mode,
            A380AutobrakeMode::RTO,
        ) && self.should_reject_rto_mode_after_time_in_flight.output()) || (matches!(
            self.mode,
            A380AutobrakeMode::DISARM,
        ) && !matches!(autobrake_panel.selected_mode(), A380AutobrakeKnobPosition::DISARM)) || (
        matches!(self.mode, A380AutobrakeMode::BTV) && !self.btv_scheduler.is_armed())
    }

    fn should_engage_deceleration_governor(
        &self,
        is_sim_ready: bool,
        autobrake_panel: &A380AutobrakePanel,
    ) -> (r: bool)
        ensures
            r == self.should_engage_deceleration_governor_spec(is_sim_ready, *autobrake_panel),
    {
        self.is_armed() && self.ground_spoilers_are_deployed && (
        self.ground_spoilers_are_deployed_since_5s.output() || self.nose_gear_was_compressed_once)
            && !self.should_disarm(is_sim_ready, autobrake_panel)
    }

    /// Adopts the tick's mode and, when brake-to-vacate was freshly
    /// selected, asks the scheduler to arm.
    fn determine_mode(&mut self, autobrake_panel: &A380AutobrakePanel) -> (r: A380AutobrakeMode)
        ensures
            r == old(self).determine_mode_spec(*autobrake_panel),
            *final(self) == (A380AutobrakeController {
                btv_scheduler: if old(self).btv_enable_requested_spec(*autobrake_panel) {
                    old(self).btv_scheduler.enable_spec()
                } else {
                    old(self).btv_scheduler
                },
                ..*old(self)
            }),
    {
        if !matches!(self.mode, A380AutobrakeMode::RTO) && autobrake_panel.rto_pressed()
            && !self.should_reject_rto_mode_after_time_in_flight.output() {
            A380AutobrakeMode::RTO
        } else if autobrake_panel.selected_mode_has_changed() {
            match autobrake_panel.selected_mode() {
                A380AutobrakeKnobPosition::DISARM => A380AutobrakeMode::DISARM,
                A380AutobrakeKnobPosition::LOW => A380AutobrakeMode::LOW,
                A380AutobrakeKnobPosition::L2 => A380AutobrakeMode::L2,
                A380AutobrakeKnobPosition::L3 => A380AutobrakeMode::L3,
                A380AutobrakeKnobPosition::HIGH => A380AutobrakeMode::HIGH,
                A380AutobrakeKnobPosition::BTV => {
                    self.btv_scheduler.enable();
                    A380AutobrakeMode::BTV
                },
            }
        } else {
            self.mode
        }
    }

    fn disarm_actions(&mut self)
        ensures
            *final(self) == old(self).disarm_actions_spec(),
    {
        self.btv_scheduler.disarm();
        self.nose_gear_was_compressed_once = false;
        self.mode = A380AutobrakeMode::DISARM;
    }

    fn calculate_target(&self) -> (r: i64)
        requires
            self.wf(),
        ensures
            r == self.calculate_target_spec(),
            -1_000_000 <= r <= 1_000_000,
    {
        match self.mode {
            A380AutobrakeMode::DISARM => OFF_MODE_DECEL_TARGET_MM_S2,
            A380AutobrakeMode::RTO => RTO_MODE_DECEL_TARGET_MM_S2,
            A380AutobrakeMode::BTV => self.btv_scheduler.decel(),
            _ => {
                let times: [u64; 3] = [0, 100, 2500];
                let accel: [i64; 3] = match self.mode {
                    A380AutobrakeMode::L2 => [4000, 0, -2500],
                    A380AutobrakeMode::L3 => [4000, 0, -3000],
                    A380AutobrakeMode::HIGH => [4000, -2000, -3500],
                    _ => [4000, 0, -2000],
                };
                proof {
                    assert(times@ =~= profile_times_spec());
                    assert(accel@ =~= profile_accel_spec(self.mode));
                }
                interp::interpolate(
                    times.as_slice(),
                    accel.as_slice(),
                    self.deceleration_governor.time_engaged_ms(),
                )
            },
        }
    }

    fn update_decelerating_light_info(&mut self)
        requires
            old(self).wf(),
        ensures
            *final(self) == (A380AutobrakeController {
                decelerating_light: old(self).decelerating_light_next_spec(),
                ..*old(self)
            }),
    {
        if !self.deceleration_demanded() {
            self.decelerating_light = false;
            return ;
        }
        match self.mode {
            A380AutobrakeMode::DISARM => {
                self.decelerating_light = false;
            },
            A380AutobrakeMode::LOW
            | A380AutobrakeMode::L2
            | A380AutobrakeMode::L3
            | A380AutobrakeMode::HIGH
            | A380AutobrakeMode::BTV => {
                if self.deceleration_governor.is_on_target(
                    MARGIN_TO_SHOW_DECEL_IN_LANDING_MODE_PERMILLE,
                ) {
                    self.decelerating_light = true;
                } else if !self.deceleration_governor.is_on_target(
                    MARGIN_TO_REMOVE_DECEL_IN_LANDING_MODE_PERMILLE,
                ) {
                    self.decelerating_light = false;
                }
            },
            A380AutobrakeMode::RTO => {
                if self.deceleration_governor.decelerating_at_or_above_rate(
                    TARGET_TO_SHOW_DECEL_IN_RTO_MM_S2,
                ) {
                    self.decelerating_light = true;
                } else if !self.deceleration_governor.decelerating_at_or_above_rate(
                    TARGET_TO_REMOVE_DECEL_IN_RTO_MM_S2,
                ) {
                    self.decelerating_light = false;
                }
            },
        }
    }

    fn update_input_conditions(
        &mut self,
        ctx: &UpdateContext,
        allow_arming: bool,
        pedal_input_left_permille: i64,
        pedal_input_right_permille: i64,
        lgciu1: &LgciuSignals,
        lgciu2: &LgciuSignals,
    )
        requires
            old(self).wf(),
        ensures
            *final(self) == old(self).update_input_conditions_spec(
                *ctx,
                allow_arming,
                pedal_input_left_permille,
                pedal_input_right_permille,
                *lgciu1,
                *lgciu2,
            ),
            final(self).wf(),
    {
        let in_flight_lgciu1 = !lgciu1.right_gear_compressed && !lgciu1.left_gear_compressed;
        let in_flight_lgciu2 = !lgciu2.right_gear_compressed && !lgciu2.left_gear_compressed;
        self.nose_gear_was_compressed_once = self.nose_gear_was_compressed_once
            || lgciu1.nose_gear_compressed || lgciu2.nose_gear_compressed;
        self.ground_spoilers_are_deployed_since_5s.update(
            ctx.delta_ms,
            self.ground_spoilers_are_deployed,
        );
        self.should_disarm_after_time_in_flight.update(
            ctx.delta_ms,
            in_flight_lgciu1 && in_flight_lgciu2,
        );
        self.should_reject_rto_mode_after_time_in_flight.update(
            ctx.delta_ms,
            in_flight_lgciu1 && in_flight_lgciu2,
        );
        self.arming_is_allowed_by_bcu = allow_arming;
        self.left_brake_pedal_input_permille = clamp_i64(pedal_input_left_permille, 0, 1000);
        self.right_brake_pedal_input_permille = clamp_i64(pedal_input_right_permille, 0, 1000);
    }

    /// One controller tick: read-then-compute in fixed order, every
    /// decision taken from the freshly read signals.
    #[verifier::rlimit(100)]
    pub fn update(
        &mut self,
        ctx: &UpdateContext,
        autobrake_panel: &A380AutobrakePanel,
        allow_arming: bool,
        pedal_input_left_permille: i64,
        pedal_input_right_permille: i64,
        lgciu1: &LgciuSignals,
        lgciu2: &LgciuSignals,
        placeholder_ground_spoilers_out: bool,
    )
        requires
            old(self).wf(),
        ensures
            *final(self) == old(self).next_spec(
                *ctx,
                *autobrake_panel,
                allow_arming,
                pedal_input_left_permille,
                pedal_input_right_permille,
                *lgciu1,
                *lgciu2,
                placeholder_ground_spoilers_out,
            ),
            final(self).wf(),
    {
        self.update_input_conditions(
            ctx,
            allow_arming,
            pedal_input_left_permille,
            pedal_input_right_permille,
            lgciu1,
            lgciu2,
        );
        let rto_disable = self.rto_mode_deselected_this_update(autobrake_panel);
        self.mode = self.determine_mode(autobrake_panel);
        proof {
            assert(*self == old(self).arbitrated_spec(
                *ctx,
                *autobrake_panel,
                allow_arming,
                pedal_input_left_permille,
                pedal_input_right_permille,
                *lgciu1,
                *lgciu2,
            ));
        }
        if rto_disable || self.should_disarm(ctx.is_sim_ready, autobrake_panel) {
            self.disarm_actions();
        }
        self.should_disarm_selection_knob_delayed.update(
            ctx.delta_ms,
            matches!(self.mode, A380AutobrakeMode::DISARM) || matches!(
                self.mode,
                A380AutobrakeMode::RTO,
            ),
        );
        let knob_disarm = self.should_disarm_selection_knob_delayed.output();
        self.autobrake_knob.disarm(knob_disarm);
        let engage = self.should_engage_deceleration_governor(ctx.is_sim_ready, autobrake_panel);
        self.deceleration_governor.engage_when(engage);
        self.target_mm_s2 = self.calculate_target();
        self.deceleration_governor.update(ctx.delta_ms, self.target_mm_s2, ctx.long_accel_mm_s2);
        self.update_decelerating_light_info();
        self.placeholder_ground_spoilers_out = placeholder_ground_spoilers_out;
        self.btv_scheduler.update(ctx.delta_ms, self.ground_spoilers_are_deployed);
    }

    /// Absorbs one bus read: the spoiler snapshot shifts by a tick, the
    /// external disarm event is stored, and a non-negative armed-mode code
    /// (the controller's own echoed output, which the simulation may
    /// overwrite at session load) re-seeds the mode.
    pub fn read_signals(&mut self, external_disarm: bool, armed_mode_code: i64)
        ensures
            *final(self) == (A380AutobrakeController {
                last_ground_spoilers_are_deployed: old(self).ground_spoilers_are_deployed,
                ground_spoilers_are_deployed: old(self).placeholder_ground_spoilers_out,
                external_disarm_event: external_disarm,
                mode: if armed_mode_code >= 0 {
                    A380AutobrakeMode::from_code_spec(
                        if armed_mode_code > 255 {
                            255u8
                        } else {
                            armed_mode_code as u8
                        },
                    )
                } else {
                    old(self).mode
                },
                ..*old(self)
            }),
    {
        self.last_ground_spoilers_are_deployed = self.ground_spoilers_are_deployed;
        self.ground_spoilers_are_deployed = self.placeholder_ground_spoilers_out;
        self.external_disarm_event = external_disarm;
        if armed_mode_code >= 0 {
            let code: u8 = if armed_mode_code > 255 {
                255
            } else {
                armed_mode_code as u8
            };
            self.mode = A380AutobrakeMode::from_code(code);
        }
    }

    /// Hands the scheduler one bus read of its distance and speed signals.
    pub fn set_btv_signals(
        &mut self,
        runway_length_mm: i64,
        fallback_distance_mm: i64,
        oans_distance_mm: i64,
        ground_speed_mm_s: i64,
    )
        requires
            old(self).wf(),
        ensures
            final(self).btv_scheduler == (BtvDecelScheduler {
                runway_length_mm: clamp_spec(
                    runway_length_mm as int,
                    0,
                    crate::btv::MAX_DISTANCE_MM as int,
                ) as i64,
                fallback_distance_to_exit_from_touchdown_mm: clamp_spec(
                    fallback_distance_mm as int,
                    -crate::btv::MAX_DISTANCE_MM as int,
                    crate::btv::MAX_DISTANCE_MM as int,
                ) as i64,
                oans_distance_to_exit_mm: clamp_spec(
                    oans_distance_mm as int,
                    -crate::btv::MAX_DISTANCE_MM as int,
                    crate::btv::MAX_DISTANCE_MM as int,
                ) as i64,
                ground_speed_mm_s: clamp_spec(
                    ground_speed_mm_s as int,
                    0,
                    crate::btv::MAX_SPEED_MM_S as int,
                ) as i64,
                ..old(self).btv_scheduler
            }),
            *final(self) == (A380AutobrakeController {
                btv_scheduler: final(self).btv_scheduler,
                ..*old(self)
            }),
            final(self).wf(),
    {
        self.btv_scheduler.set_signals(
            runway_length_mm,
            fallback_distance_mm,
            oans_distance_mm,
            ground_speed_mm_s,
        );
    }

    /// Powers or unpowers the knob solenoid's electrical bus.
    pub fn receive_power(&mut self, knob_solenoid_powered: bool)
        ensures
            *final(self) == (A380AutobrakeController {
                autobrake_knob: A380AutobrakeKnobSelectorSolenoid {
                    is_powered: knob_solenoid_powered,
                    disarm_request: old(self).autobrake_knob.disarm_request,
                },
                ..*old(self)
            }),
    {
        self.autobrake_knob.receive_power(knob_solenoid_powered);
    }

    pub fn knob_disarm_request(&self) -> (r: bool)
        ensures
            r == self.autobrake_knob.disarm_request,
    {
        self.autobrake_knob.disarm_request
    }

    pub fn armed_mode_code(&self) -> (r: u8)
        ensures
            r == self.mode.code_spec(),
    {
        self.mode.code()
    }

    pub fn rto_mode_armed(&self) -> (r: bool)
        ensures
            r == (self.mode == A380AutobrakeMode::RTO),
    {
        matches!(self.mode, A380AutobrakeMode::RTO)
    }
}

/// Whenever any condition of the disarm policy holds of the tick's
/// arbitrated state — or the pilot deselects rejected takeoff by a second
/// button press — the very same tick ends disarmed, with the mode-owned
/// nose-gear latch cleared and the brake-to-vacate scheduler disabled:
/// there is no one-tick lag.
pub proof fn lemma_disarm_is_forced_within_the_tick(
    s: A380AutobrakeController,
    ctx: UpdateContext,
    panel: A380AutobrakePanel,
    allow_arming: bool,
    pedal_input_left_permille: i64,
    pedal_input_right_permille: i64,
    lgciu1: LgciuSignals,
    lgciu2: LgciuSignals,
    placeholder_ground_spoilers_out: bool,
)
    requires
        ({
            let s2 = s.arbitrated_spec(
                ctx,
                panel,
                allow_arming,
                pedal_input_left_permille,
                pedal_input_right_permille,
                lgciu1,
                lgciu2,
            );
            s2.should_disarm_spec(ctx.is_sim_ready, panel)
        }) || (s.mode == A380AutobrakeMode::RTO && panel.rto_button_pressed),
    ensures
        ({
            let next = s.next_spec(
                ctx,
                panel,
                allow_arming,
                pedal_input_left_permille,
                pedal_input_right_permille,
                lgciu1,
                lgciu2,
                placeholder_ground_spoilers_out,
            );
            &&& next.mode == A380AutobrakeMode::DISARM
            &&& !next.nose_gear_was_compressed_once
            &&& next.btv_scheduler.state == crate::btv::BTVState::Disabled
            &&& next.btv_scheduler.rolling_distance_mm == 0
        }),
{
}

/// Knob positions only take effect on the tick whose panel read flags a
/// change: with the flag down and the rejected-takeoff button untouched,
/// mode arbitration retains the current mode and never asks the
/// brake-to-vacate scheduler to arm, so repeated ticks with an unchanged
/// knob re-trigger nothing. The tick as a whole can still only keep the
/// mode or fall to disarm.
pub proof fn lemma_unchanged_knob_retriggers_nothing(
    s: A380AutobrakeController,
    ctx: UpdateContext,
    panel: A380AutobrakePanel,
    allow_arming: bool,
    pedal_input_left_permille: i64,
    pedal_input_right_permille: i64,
    lgciu1: LgciuSignals,
    lgciu2: LgciuSignals,
    placeholder_ground_spoilers_out: bool,
)
    requires
        !panel.mode_has_changed,
        !panel.rto_button_pressed,
    ensures
        ({
            let s2 = s.arbitrated_spec(
                ctx,
                panel,
                allow_arming,
                pedal_input_left_permille,
                pedal_input_right_permille,
                lgciu1,
                lgciu2,
            );
            &&& s2.mode == s.mode
            &&& s2.btv_scheduler.state == s.btv_scheduler.state
        }),
        ({
            let next = s.next_spec(
                ctx,
                panel,
                allow_arming,
                pedal_input_left_permille,
                pedal_input_right_permille,
                lgciu1,
                lgciu2,
                placeholder_ground_spoilers_out,
            );
            next.mode == s.mode || next.mode == A380AutobrakeMode::DISARM
        }),
{
}

/// Decel-indicator hysteresis, on the rising side: once the light is on in
/// a landing-family mode, it stays on through the light update as long as
/// deceleration is demanded and the governor still reports the measured
/// deceleration within the lower (seventy percent) margin of the target —
/// in particular everywhere between the seventy and eighty percent
/// thresholds.
pub proof fn lemma_decel_light_holds_between_thresholds(s: A380AutobrakeController)
    requires
        s.decelerating_light,
        s.deceleration_demanded_spec(),
        s.mode.is_landing_family(),
        s.deceleration_governor.is_on_target_spec(MARGIN_TO_REMOVE_DECEL_IN_LANDING_MODE_PERMILLE),
    ensures
        s.decelerating_light_next_spec(),
{
}

/// Decel-indicator hysteresis, on the falling side: in a landing-family
/// mode with deceleration demanded, the light update can turn a lit light
/// off only when the governor reports the measured deceleration below the
/// lower (seventy percent) margin of the target.
pub proof fn lemma_decel_light_turns_off_only_below_lower_margin(s: A380AutobrakeController)
    requires
        s.decelerating_light,
        s.deceleration_demanded_spec(),
        s.mode.is_landing_family(),
        !s.decelerating_light_next_spec(),
    ensures
        !s.deceleration_governor.is_on_target_spec(
            MARGIN_TO_REMOVE_DECEL_IN_LANDING_MODE_PERMILLE,
        ),
{
}

} // verus!
