//! End-to-end tests of the autobrake controller: mode arbitration, the
//! disarm policy, engagement, per-mode targets, and the decel indicator.

use autobrakes::autobrake::{
    A380AutobrakeController, LgciuSignals, UpdateContext, OFF_MODE_DECEL_TARGET_MM_S2,
    RTO_MODE_DECEL_TARGET_MM_S2,
};
use autobrakes::btv::BTVState;
use autobrakes::panel::{A380AutobrakeKnobPosition, A380AutobrakeMode, A380AutobrakePanel};

fn ctx_100ms() -> UpdateContext {
    UpdateContext { delta_ms: 100, is_sim_ready: true, long_accel_mm_s2: 0 }
}

fn gear_on_ground() -> LgciuSignals {
    LgciuSignals {
        left_gear_compressed: true,
        right_gear_compressed: true,
        nose_gear_compressed: true,
    }
}

fn gear_in_flight() -> LgciuSignals {
    LgciuSignals {
        left_gear_compressed: false,
        right_gear_compressed: false,
        nose_gear_compressed: false,
    }
}

/// One host tick: bus read, then compute, with pedals and spoilers given.
fn tick(
    ctrl: &mut A380AutobrakeController,
    panel: &A380AutobrakePanel,
    ctx: &UpdateContext,
    pedal_left: i64,
    pedal_right: i64,
    gear: LgciuSignals,
    spoilers_out: bool,
    external_disarm: bool,
) {
    ctrl.read_signals(external_disarm, -1);
    ctrl.update(
        ctx,
        panel,
        true,
        pedal_left,
        pedal_right,
        &gear,
        &gear,
        spoilers_out,
    );
}

#[test]
fn starts_disarmed_with_cold_gates() {
    let ctrl = A380AutobrakeController::new(false);
    assert_eq!(ctrl.mode, A380AutobrakeMode::DISARM);
    assert!(!ctrl.is_decelerating());
    assert!(!ctrl.knob_disarm_request());
    assert_eq!(ctrl.armed_mode_code(), 0);
    assert!(!ctrl.rto_mode_armed());
}

#[test]
fn low_mode_reaches_profile_plateau_after_two_and_a_half_seconds() {
    let mut ctrl = A380AutobrakeController::new(false);
    let mut panel = A380AutobrakePanel::new();
    let ctx = ctx_100ms();

    // Select LOW at the knob; the panel flags the change for one tick.
    panel.read_signals(A380AutobrakeKnobPosition::LOW, false);
    tick(&mut ctrl, &panel, &ctx, 0, 0, gear_on_ground(), true, false);
    assert_eq!(ctrl.mode, A380AutobrakeMode::LOW);

    // Spoilers deploy; the nose gear has been compressed, so the governor
    // engages without waiting out the five-second spoiler gate.
    panel.read_signals(A380AutobrakeKnobPosition::LOW, false);
    assert!(!panel.selected_mode_has_changed());
    for _ in 0..30 {
        tick(&mut ctrl, &panel, &ctx, 0, 0, gear_on_ground(), true, false);
    }
    assert_eq!(ctrl.mode, A380AutobrakeMode::LOW);
    assert!(ctrl.deceleration_governor.engaged);
    // 2.5 s into engagement the LOW profile sits at its plateau.
    assert_eq!(ctrl.target_mm_s2, -2000);

    // A pedal past 53% disarms on the very next tick.
    tick(&mut ctrl, &panel, &ctx, 540, 0, gear_on_ground(), true, false);
    assert_eq!(ctrl.mode, A380AutobrakeMode::DISARM);
    assert!(!ctrl.is_armed());
    assert_eq!(ctrl.target_mm_s2, OFF_MODE_DECEL_TARGET_MM_S2);
}

#[test]
fn both_pedals_above_co_press_threshold_disarm_landing_mode() {
    let mut ctrl = A380AutobrakeController::new(false);
    let mut panel = A380AutobrakePanel::new();
    let ctx = ctx_100ms();

    panel.read_signals(A380AutobrakeKnobPosition::L2, false);
    tick(&mut ctrl, &panel, &ctx, 0, 0, gear_on_ground(), true, false);
    panel.read_signals(A380AutobrakeKnobPosition::L2, false);
    tick(&mut ctrl, &panel, &ctx, 0, 0, gear_on_ground(), true, false);
    assert!(ctrl.deceleration_governor.engaged);

    // One pedal at 12% does not disarm; both above 11% do.
    tick(&mut ctrl, &panel, &ctx, 120, 0, gear_on_ground(), true, false);
    assert_eq!(ctrl.mode, A380AutobrakeMode::L2);
    tick(&mut ctrl, &panel, &ctx, 120, 120, gear_on_ground(), true, false);
    assert_eq!(ctrl.mode, A380AutobrakeMode::DISARM);
}

#[test]
fn spoiler_retraction_edge_disarms_same_tick() {
    let mut ctrl = A380AutobrakeController::new(false);
    let mut panel = A380AutobrakePanel::new();
    let ctx = ctx_100ms();

    panel.read_signals(A380AutobrakeKnobPosition::L3, false);
    tick(&mut ctrl, &panel, &ctx, 0, 0, gear_on_ground(), true, false);
    panel.read_signals(A380AutobrakeKnobPosition::L3, false);
    tick(&mut ctrl, &panel, &ctx, 0, 0, gear_on_ground(), true, false);
    assert_eq!(ctrl.mode, A380AutobrakeMode::L3);

    // Spoilers retract: deployed on the previous tick, not on this one.
    tick(&mut ctrl, &panel, &ctx, 0, 0, gear_on_ground(), false, false);
    tick(&mut ctrl, &panel, &ctx, 0, 0, gear_on_ground(), false, false);
    assert_eq!(ctrl.mode, A380AutobrakeMode::DISARM);
}

#[test]
fn external_disarm_event_disarms_landing_but_not_rto() {
    let mut ctrl = A380AutobrakeController::new(false);
    let mut panel = A380AutobrakePanel::new();
    let ctx = ctx_100ms();

    panel.read_signals(A380AutobrakeKnobPosition::HIGH, false);
    tick(&mut ctrl, &panel, &ctx, 0, 0, gear_on_ground(), false, false);
    assert_eq!(ctrl.mode, A380AutobrakeMode::HIGH);
    panel.read_signals(A380AutobrakeKnobPosition::HIGH, false);
    tick(&mut ctrl, &panel, &ctx, 0, 0, gear_on_ground(), false, true);
    assert_eq!(ctrl.mode, A380AutobrakeMode::DISARM);

    // In RTO the external event is ignored.
    let mut rto_panel = A380AutobrakePanel::new();
    rto_panel.read_signals(A380AutobrakeKnobPosition::DISARM, true);
    let mut rto_ctrl = A380AutobrakeController::new(false);
    tick(&mut rto_ctrl, &rto_panel, &ctx, 0, 0, gear_on_ground(), false, false);
    assert_eq!(rto_ctrl.mode, A380AutobrakeMode::RTO);
    rto_panel.read_signals(A380AutobrakeKnobPosition::DISARM, false);
    tick(&mut rto_ctrl, &rto_panel, &ctx, 0, 0, gear_on_ground(), false, true);
    assert_eq!(rto_ctrl.mode, A380AutobrakeMode::RTO);
    assert!(rto_ctrl.rto_mode_armed());
    assert_eq!(rto_ctrl.armed_mode_code(), 6);
}

#[test]
fn second_rto_press_deselects_and_disarms() {
    let mut ctrl = A380AutobrakeController::new(false);
    let mut panel = A380AutobrakePanel::new();
    let ctx = ctx_100ms();

    panel.read_signals(A380AutobrakeKnobPosition::DISARM, true);
    tick(&mut ctrl, &panel, &ctx, 0, 0, gear_on_ground(), false, false);
    assert_eq!(ctrl.mode, A380AutobrakeMode::RTO);

    panel.read_signals(A380AutobrakeKnobPosition::DISARM, true);
    tick(&mut ctrl, &panel, &ctx, 0, 0, gear_on_ground(), false, false);
    assert_eq!(ctrl.mode, A380AutobrakeMode::DISARM);
}

#[test]
fn rto_arming_is_rejected_after_ten_seconds_in_flight() {
    let mut ctrl = A380AutobrakeController::new(false);
    let mut panel = A380AutobrakePanel::new();
    let ctx = ctx_100ms();

    // 10.1 s airborne: the rejection gate goes level-true.
    panel.read_signals(A380AutobrakeKnobPosition::DISARM, false);
    for _ in 0..101 {
        tick(&mut ctrl, &panel, &ctx, 0, 0, gear_in_flight(), false, false);
    }
    panel.read_signals(A380AutobrakeKnobPosition::DISARM, true);
    tick(&mut ctrl, &panel, &ctx, 0, 0, gear_in_flight(), false, false);
    assert_eq!(ctrl.mode, A380AutobrakeMode::DISARM);
}

#[test]
fn time_in_flight_pulse_disarms_armed_mode_once() {
    let mut ctrl = A380AutobrakeController::new(false);
    let mut panel = A380AutobrakePanel::new();
    let ctx = ctx_100ms();

    // Arm LOW on the ground, without spoilers, pedals at rest.
    panel.read_signals(A380AutobrakeKnobPosition::LOW, false);
    tick(&mut ctrl, &panel, &ctx, 0, 0, gear_on_ground(), false, false);
    assert_eq!(ctrl.mode, A380AutobrakeMode::LOW);

    // Lift off: after ten continuous seconds in flight the one-shot pulse
    // disarms the autobrake.
    panel.read_signals(A380AutobrakeKnobPosition::LOW, false);
    for _ in 0..99 {
        tick(&mut ctrl, &panel, &ctx, 0, 0, gear_in_flight(), false, false);
        assert_eq!(ctrl.mode, A380AutobrakeMode::LOW);
    }
    tick(&mut ctrl, &panel, &ctx, 0, 0, gear_in_flight(), false, false);
    assert_eq!(ctrl.mode, A380AutobrakeMode::DISARM);
}

#[test]
fn unchanged_knob_never_rearms_after_disarm() {
    let mut ctrl = A380AutobrakeController::new(false);
    let mut panel = A380AutobrakePanel::new();
    let ctx = ctx_100ms();

    panel.read_signals(A380AutobrakeKnobPosition::LOW, false);
    tick(&mut ctrl, &panel, &ctx, 0, 0, gear_on_ground(), false, false);
    assert_eq!(ctrl.mode, A380AutobrakeMode::LOW);

    // Disarm by external event; the knob still sits at LOW, unchanged.
    panel.read_signals(A380AutobrakeKnobPosition::LOW, false);
    tick(&mut ctrl, &panel, &ctx, 0, 0, gear_on_ground(), false, true);
    assert_eq!(ctrl.mode, A380AutobrakeMode::DISARM);

    // Repeated ticks with the unchanged knob never re-adopt LOW.
    for _ in 0..5 {
        tick(&mut ctrl, &panel, &ctx, 0, 0, gear_on_ground(), false, false);
        assert_eq!(ctrl.mode, A380AutobrakeMode::DISARM);
    }

    // A fresh panel read that flags the change re-adopts it.
    panel.read_signals(A380AutobrakeKnobPosition::DISARM, false);
    tick(&mut ctrl, &panel, &ctx, 0, 0, gear_on_ground(), false, false);
    panel.read_signals(A380AutobrakeKnobPosition::LOW, false);
    assert!(panel.selected_mode_has_changed());
    tick(&mut ctrl, &panel, &ctx, 0, 0, gear_on_ground(), false, false);
    assert_eq!(ctrl.mode, A380AutobrakeMode::LOW);
}

#[test]
fn rto_target_is_fixed_strong_deceleration() {
    let mut ctrl = A380AutobrakeController::new(false);
    let mut panel = A380AutobrakePanel::new();
    let ctx = ctx_100ms();

    panel.read_signals(A380AutobrakeKnobPosition::DISARM, true);
    tick(&mut ctrl, &panel, &ctx, 0, 0, gear_on_ground(), true, false);
    panel.read_signals(A380AutobrakeKnobPosition::DISARM, false);
    tick(&mut ctrl, &panel, &ctx, 0, 0, gear_on_ground(), true, false);
    assert_eq!(ctrl.mode, A380AutobrakeMode::RTO);
    assert_eq!(ctrl.target_mm_s2, RTO_MODE_DECEL_TARGET_MM_S2);
}

#[test]
fn decel_light_hysteresis_in_landing_mode() {
    let mut ctrl = A380AutobrakeController::new(false);
    let mut panel = A380AutobrakePanel::new();

    // Reach the LOW plateau (target -2000 mm/s^2) with no deceleration yet.
    panel.read_signals(A380AutobrakeKnobPosition::LOW, false);
    tick(&mut ctrl, &panel, &ctx_100ms(), 0, 0, gear_on_ground(), true, false);
    panel.read_signals(A380AutobrakeKnobPosition::LOW, false);
    for _ in 0..30 {
        tick(&mut ctrl, &panel, &ctx_100ms(), 0, 0, gear_on_ground(), true, false);
    }
    assert_eq!(ctrl.target_mm_s2, -2000);
    assert!(!ctrl.is_decelerating());

    // Measured deceleration within 80% of target: the light turns on.
    let strong = UpdateContext { delta_ms: 100, is_sim_ready: true, long_accel_mm_s2: -1700 };
    tick(&mut ctrl, &panel, &strong, 0, 0, gear_on_ground(), true, false);
    assert!(ctrl.is_decelerating());

    // Between 70% and 80% of target: the light holds.
    let between = UpdateContext { delta_ms: 100, is_sim_ready: true, long_accel_mm_s2: -1500 };
    tick(&mut ctrl, &panel, &between, 0, 0, gear_on_ground(), true, false);
    assert!(ctrl.is_decelerating());

    // Below 70% of target: the light drops.
    let weak = UpdateContext { delta_ms: 100, is_sim_ready: true, long_accel_mm_s2: -1300 };
    tick(&mut ctrl, &panel, &weak, 0, 0, gear_on_ground(), true, false);
    assert!(!ctrl.is_decelerating());
}

#[test]
fn knob_solenoid_requests_disarm_after_settle_delay() {
    let mut ctrl = A380AutobrakeController::new(false);
    let mut panel = A380AutobrakePanel::new();
    let ctx = ctx_100ms();

    // Disarmed mode with the knob at disarm: after 500 ms the solenoid
    // request comes up.
    panel.read_signals(A380AutobrakeKnobPosition::DISARM, false);
    for _ in 0..4 {
        tick(&mut ctrl, &panel, &ctx, 0, 0, gear_on_ground(), false, false);
        assert!(!ctrl.knob_disarm_request());
    }
    tick(&mut ctrl, &panel, &ctx, 0, 0, gear_on_ground(), false, false);
    assert!(ctrl.knob_disarm_request());

    // Unpowered, the solenoid honours no request.
    ctrl.receive_power(false);
    tick(&mut ctrl, &panel, &ctx, 0, 0, gear_on_ground(), false, false);
    assert!(!ctrl.knob_disarm_request());

    // An armed landing mode drops the request once the delay gate falls.
    ctrl.receive_power(true);
    panel.read_signals(A380AutobrakeKnobPosition::LOW, false);
    tick(&mut ctrl, &panel, &ctx, 0, 0, gear_on_ground(), false, false);
    assert_eq!(ctrl.mode, A380AutobrakeMode::LOW);
    assert!(!ctrl.knob_disarm_request());
}

#[test]
fn read_signals_reseeds_mode_from_non_negative_code() {
    let mut ctrl = A380AutobrakeController::new(false);
    ctrl.read_signals(false, 6);
    assert_eq!(ctrl.mode, A380AutobrakeMode::RTO);
    ctrl.read_signals(false, 3);
    assert_eq!(ctrl.mode, A380AutobrakeMode::L2);
    // A negative code leaves the mode in place.
    ctrl.read_signals(false, -1);
    assert_eq!(ctrl.mode, A380AutobrakeMode::L2);
    // An unknown code falls back to disarm.
    ctrl.read_signals(false, 99);
    assert_eq!(ctrl.mode, A380AutobrakeMode::DISARM);
}

#[test]
fn brake_output_rises_while_short_of_target() {
    let mut ctrl = A380AutobrakeController::new(false);
    let mut panel = A380AutobrakePanel::new();

    panel.read_signals(A380AutobrakeKnobPosition::HIGH, false);
    tick(&mut ctrl, &panel, &ctx_100ms(), 0, 0, gear_on_ground(), true, false);
    panel.read_signals(A380AutobrakeKnobPosition::HIGH, false);
    for _ in 0..30 {
        tick(&mut ctrl, &panel, &ctx_100ms(), 0, 0, gear_on_ground(), true, false);
    }
    // HIGH plateau target -3500 mm/s^2; aircraft not decelerating at all:
    // error 3500 mm/s^2 gives a 700 per-mille command.
    assert_eq!(ctrl.target_mm_s2, -3500);
    assert_eq!(ctrl.brake_output(), 700);

    // Disengaged (disarmed), the output is zero.
    tick(&mut ctrl, &panel, &ctx_100ms(), 800, 800, gear_on_ground(), true, false);
    assert_eq!(ctrl.brake_output(), 0);
}

#[test]
fn pedals_do_not_disarm_while_governor_is_disengaged() {
    let mut ctrl = A380AutobrakeController::new(false);
    let mut panel = A380AutobrakePanel::new();
    let ctx = ctx_100ms();

    // Armed LOW without spoilers: the governor stays disengaged, so even a
    // full pedal press does not disarm.
    panel.read_signals(A380AutobrakeKnobPosition::LOW, false);
    tick(&mut ctrl, &panel, &ctx, 0, 0, gear_on_ground(), false, false);
    panel.read_signals(A380AutobrakeKnobPosition::LOW, false);
    tick(&mut ctrl, &panel, &ctx, 1000, 1000, gear_on_ground(), false, false);
    assert_eq!(ctrl.mode, A380AutobrakeMode::LOW);
    assert!(!ctrl.deceleration_governor.engaged);
}

#[test]
fn session_started_in_flight_neither_pulses_disarm_nor_arms_rto() {
    let mut ctrl = A380AutobrakeController::new(true);
    let mut panel = A380AutobrakePanel::new();
    let ctx = ctx_100ms();

    // The in-flight gates start warm: the disarm pulse was swallowed and
    // the rejected-takeoff rejection gate is already level-true.
    panel.read_signals(A380AutobrakeKnobPosition::DISARM, true);
    tick(&mut ctrl, &panel, &ctx, 0, 0, gear_in_flight(), false, false);
    assert_eq!(ctrl.mode, A380AutobrakeMode::DISARM);

    panel.read_signals(A380AutobrakeKnobPosition::LOW, false);
    tick(&mut ctrl, &panel, &ctx, 0, 0, gear_in_flight(), false, false);
    assert_eq!(ctrl.mode, A380AutobrakeMode::LOW);
}

#[test]
fn btv_mode_disarms_when_the_scheduler_drops_out() {
    let mut ctrl = A380AutobrakeController::new(false);
    let mut panel = A380AutobrakePanel::new();
    let ctx = ctx_100ms();

    ctrl.set_btv_signals(3_000_000, -1000, 1_200_000, 70_000);
    panel.read_signals(A380AutobrakeKnobPosition::BTV, false);
    tick(&mut ctrl, &panel, &ctx, 0, 0, gear_on_ground(), false, false);
    assert_eq!(ctrl.mode, A380AutobrakeMode::BTV);
    assert_eq!(ctrl.btv_scheduler.state, BTVState::Armed);

    // Arming authorization is lost before the spoilers deploy: the
    // scheduler drops to disabled at the end of this tick, and the mode
    // follows on the next one.
    panel.read_signals(A380AutobrakeKnobPosition::BTV, false);
    ctrl.set_btv_signals(0, -1000, -1000, 70_000);
    tick(&mut ctrl, &panel, &ctx, 0, 0, gear_on_ground(), false, false);
    assert_eq!(ctrl.btv_scheduler.state, BTVState::Disabled);
    tick(&mut ctrl, &panel, &ctx, 0, 0, gear_on_ground(), false, false);
    assert_eq!(ctrl.mode, A380AutobrakeMode::DISARM);
}

#[test]
fn btv_selection_without_authorization_disarms_immediately() {
    let mut ctrl = A380AutobrakeController::new(false);
    let mut panel = A380AutobrakePanel::new();
    let ctx = ctx_100ms();

    // No runway data: selecting BTV cannot arm the scheduler, and the
    // mode falls back to disarm in the same tick.
    panel.read_signals(A380AutobrakeKnobPosition::BTV, false);
    tick(&mut ctrl, &panel, &ctx, 0, 0, gear_on_ground(), false, false);
    assert_eq!(ctrl.mode, A380AutobrakeMode::DISARM);
    assert_eq!(ctrl.btv_scheduler.state, BTVState::Disabled);

    // With a long runway and a valid exit distance the selection holds.
    let mut ctrl2 = A380AutobrakeController::new(false);
    let mut panel2 = A380AutobrakePanel::new();
    ctrl2.set_btv_signals(3_000_000, -1000, 1_200_000, 70_000);
    panel2.read_signals(A380AutobrakeKnobPosition::BTV, false);
    tick(&mut ctrl2, &panel2, &ctx, 0, 0, gear_on_ground(), false, false);
    assert_eq!(ctrl2.mode, A380AutobrakeMode::BTV);
    assert_eq!(ctrl2.btv_scheduler.state, BTVState::Armed);
}
