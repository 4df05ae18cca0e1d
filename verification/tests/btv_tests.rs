//! Tests of the brake-to-vacate scheduler: arming authorization, the state
//! machine through a full braking episode, the kinematic target and its
//! clamp, the end-of-braking plateau, and the reset round trip.

use autobrakes::btv::{
    decel_target, BTVState, BtvDecelScheduler, ACCEL_DURING_ROT_OPTI_MM_S2,
    MAX_DECEL_DRY_MM_S2,
};
use autobrakes::NO_BRAKING_MM_S2;

#[test]
fn arming_needs_long_runway_and_one_valid_source() {
    let mut btv = BtvDecelScheduler::new();

    // Runway short of 1500 m: refused.
    btv.set_signals(1_499_999, 500_000, -1000, 0);
    btv.enable();
    assert_eq!(btv.state, BTVState::Disabled);

    // Long enough, but both exit-distance sources negative: refused.
    btv.set_signals(1_500_000, -1000, -1000, 0);
    btv.enable();
    assert_eq!(btv.state, BTVState::Disabled);

    // The fallback source alone suffices.
    btv.set_signals(1_500_000, 500_000, -1000, 0);
    btv.enable();
    assert_eq!(btv.state, BTVState::Armed);

    // Arming authorization lost while armed, spoilers not yet out:
    // the scheduler drops back to disabled on the next tick.
    btv.set_signals(1_000_000, -1000, -1000, 0);
    btv.update(100, false);
    assert_eq!(btv.state, BTVState::Disabled);
}

#[test]
fn kinematic_target_clamps_at_dry_maximum() {
    // Ground speed 60 m/s, remaining distance 500 m: the raw requirement
    // (about -3.07 m/s^2) already sits past the dry maximum, so the target
    // clamps there for any margin.
    assert_eq!(decel_target(60_000, 500_000, 1000), MAX_DECEL_DRY_MM_S2);
    assert_eq!(decel_target(60_000, 500_000, 1400), MAX_DECEL_DRY_MM_S2);

    // With a longer budget the margin scales the raw value.
    assert_eq!(decel_target(60_000, 1_200_000, 1000), -1277);
    assert_eq!(decel_target(60_000, 1_200_000, 1400), -1787);

    // A spent budget demands the maximum outright.
    assert_eq!(decel_target(60_000, 0, 1400), MAX_DECEL_DRY_MM_S2);

    // Standing at the release speed component, nothing is demanded.
    assert_eq!(decel_target(4635, 800_000, 1400), 0);
}

#[test]
fn braking_episode_walks_the_state_machine() {
    let mut btv = BtvDecelScheduler::new();

    // A 3000 m runway, exit 2000 m ahead, touchdown at 75 m/s.
    btv.set_signals(3_000_000, -1000, 2_000_000, 75_000);
    btv.enable();
    assert_eq!(btv.state, BTVState::Armed);

    // Spoilers deploy: rotation optimization, with its gentle target.
    btv.update(100, true);
    assert_eq!(btv.state, BTVState::RotOptimization);
    assert_eq!(btv.decel(), ACCEL_DURING_ROT_OPTI_MM_S2);

    // Exit far away: the computed request stays lazier than the
    // time-to-brake threshold, so the scheduler keeps optimizing.
    btv.update(100, true);
    assert_eq!(btv.state, BTVState::RotOptimization);

    // The exit closes in: the request crosses the threshold and full
    // braking starts, freezing the reference distance and the plateau.
    btv.set_signals(3_000_000, -1000, 500_000, 75_000);
    btv.update(100, true);
    assert_eq!(btv.state, BTVState::Decel);
    assert_eq!(btv.distance_remaining_at_decel_activation_mm, 450_000);
    assert_eq!(btv.end_of_decel_acceleration_mm_s2, MAX_DECEL_DRY_MM_S2);
    assert_eq!(btv.decel(), MAX_DECEL_DRY_MM_S2);

    // Inside the near-exit threshold: end of braking.
    btv.set_signals(3_000_000, -1000, 99_000, 20_000);
    btv.update(100, true);
    assert_eq!(btv.state, BTVState::EndOfBraking);

    // At the release speed the scheduler disables and neutralizes itself.
    btv.set_signals(3_000_000, -1000, 60_000, 5_000);
    btv.update(100, true);
    assert_eq!(btv.state, BTVState::Disabled);
    assert_eq!(btv.deceleration_request_mm_s2, NO_BRAKING_MM_S2);
    assert_eq!(btv.end_of_decel_acceleration_mm_s2, NO_BRAKING_MM_S2);
    assert_eq!(btv.final_distance_remaining_mm, 0);
    assert_eq!(btv.distance_remaining_at_decel_activation_mm, 0);
}

#[test]
fn plateau_only_strengthens_while_braking_ends() {
    let mut btv = BtvDecelScheduler::new();
    btv.set_signals(3_000_000, -1000, 120_000, 20_000);
    btv.state = BTVState::EndOfBraking;
    btv.end_of_decel_acceleration_mm_s2 = -2000;
    btv.distance_remaining_at_decel_activation_mm = 400_000;

    let mut previous = btv.end_of_decel_acceleration_mm_s2;
    for step in 0..5 {
        // The exit keeps closing in, so the computed request strengthens.
        btv.set_signals(3_000_000, -1000, 120_000 - 10_000 * step, 20_000);
        btv.update(100, true);
        assert_eq!(btv.state, BTVState::EndOfBraking);
        assert!(btv.end_of_decel_acceleration_mm_s2 <= previous);
        previous = btv.end_of_decel_acceleration_mm_s2;
    }
    // It strengthened strictly at least once on this path.
    assert!(previous < -2000);
}

#[test]
fn rolling_distance_integrates_only_in_braking_states() {
    let mut btv = BtvDecelScheduler::new();
    btv.set_signals(3_000_000, 2_000_000, -1000, 50_000);
    btv.enable();
    assert_eq!(btv.state, BTVState::Armed);

    // Armed but spoilers in: no integration.
    btv.update(100, false);
    assert_eq!(btv.rolling_distance_mm, 0);

    // Spoilers out: 50 m/s over two 100 ms ticks rolls 10 m.
    btv.update(100, true);
    btv.update(100, true);
    assert_eq!(btv.rolling_distance_mm, 5_000);
    btv.update(100, true);
    assert_eq!(btv.rolling_distance_mm, 10_000);

    // In fallback mode the rolled distance eats into the remaining budget.
    assert!(btv.is_oans_fallback_mode());
    assert_eq!(btv.final_distance_remaining_mm, 2_000_000 - 10_000 - 50_000);
}

#[test]
fn disarm_then_rearm_resets_to_neutral() {
    let mut btv = BtvDecelScheduler::new();
    btv.set_signals(3_000_000, -1000, 900_000, 60_000);
    btv.enable();
    btv.update(100, true);
    btv.update(100, true);
    btv.update(100, true);
    assert_eq!(btv.state, BTVState::Decel);
    assert!(btv.rolling_distance_mm > 0);
    assert!(btv.end_of_decel_acceleration_mm_s2 < 0);

    btv.disarm();
    assert_eq!(btv.state, BTVState::Disabled);
    // One disabled tick zeroes the rolling distance.
    btv.update(100, true);
    btv.enable();
    assert_eq!(btv.state, BTVState::Armed);
    assert_eq!(btv.rolling_distance_mm, 0);
    assert_eq!(btv.deceleration_request_mm_s2, NO_BRAKING_MM_S2);
    assert_eq!(btv.end_of_decel_acceleration_mm_s2, NO_BRAKING_MM_S2);
    assert_eq!(btv.final_distance_remaining_mm, 0);
    assert_eq!(btv.distance_remaining_at_decel_activation_mm, 0);
}

#[test]
fn signals_are_clamped_into_modelled_ranges() {
    let mut btv = BtvDecelScheduler::new();
    btv.set_signals(i64::MAX, i64::MIN, 2_000_000_000, -50);
    assert_eq!(btv.runway_length_mm, 1_000_000_000);
    assert_eq!(btv.fallback_distance_to_exit_from_touchdown_mm, -1_000_000_000);
    assert_eq!(btv.oans_distance_to_exit_mm, 1_000_000_000);
    assert_eq!(btv.ground_speed_mm_s, 0);
    btv.set_signals(0, 0, 0, 2_000_000);
    assert_eq!(btv.ground_speed_mm_s, 1_000_000);
}

#[test]
fn negative_primary_distance_selects_fallback() {
    let mut btv = BtvDecelScheduler::new();
    btv.set_signals(2_000_000, 800_000, -1000, 0);
    assert!(btv.is_oans_fallback_mode());
    btv.set_signals(2_000_000, 800_000, 600_000, 0);
    assert!(!btv.is_oans_fallback_mode());
}
