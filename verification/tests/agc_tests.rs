//! The intensity controller and the volume sources, exercised on concrete
//! frames: the decay, clipping, ramp and silence behaviors, and the
//! decisions of the peak-stream poller.

use connecting_dots::intensity::{IntensityController, INITIAL_INTENSITY, MAX_GAIN, SCALE};
use connecting_dots::volume::{
    ConstantVolumeProvider, PeekOutcome, PollAction, poll_decision, FALLBACK_INTENSITY,
};

#[test]
fn scenario_silence_reaches_floor() {
    // last = 0.8, gain = 1.0, no sample, dt = 16 s: 0.8 - 16/20 = 0.
    let mut c = IntensityController::new();
    assert_eq!(c.last_intensity, 800_000);
    assert_eq!(c.gain_multiplier, 1_000_000);
    let out = c.step(None, 16_000_000);
    assert_eq!(out, 0);
    assert_eq!(c.last_intensity, 0);
}

#[test]
fn scenario_clipping_sample() {
    // gain = 1.0, sample = 1.5: returns 1.0, gain becomes 1/1.5.
    let mut c = IntensityController::new();
    let out = c.step(Some(1_500_000), 16_000);
    assert_eq!(out, SCALE);
    assert_eq!(c.last_intensity, SCALE);
    assert_eq!(c.gain_multiplier, 666_666);
}

#[test]
fn scenario_usable_sample_ramps_gain() {
    // gain = 1.0, sample = 0.5, dt = 0.1 s: returns 0.5, gain 1.005.
    let mut c = IntensityController::new();
    let out = c.step(Some(500_000), 100_000);
    assert_eq!(out, 500_000);
    assert_eq!(c.gain_multiplier, 1_005_000);
}

#[test]
fn scenario_zero_sample_leaves_gain() {
    // last = 0, sample = 0.0: returns 0, gain untouched.
    let mut c = IntensityController { last_intensity: 0, gain_multiplier: 1_000_000 };
    let out = c.step(Some(0), 12_345);
    assert_eq!(out, 0);
    assert_eq!(c.last_intensity, 0);
    assert_eq!(c.gain_multiplier, 1_000_000);
}

#[test]
fn partial_decay_is_linear() {
    // 4 s of silence takes 0.2 off; the nonzero candidate still ramps gain.
    let mut c = IntensityController::new();
    let out = c.step(None, 4_000_000);
    assert_eq!(out, 600_000);
    assert_eq!(c.last_intensity, 600_000);
    assert_eq!(c.gain_multiplier, 1_200_000);
}

#[test]
fn decay_never_goes_negative() {
    let mut c = IntensityController { last_intensity: 100, gain_multiplier: SCALE };
    let out = c.step(None, u64::MAX);
    assert_eq!(out, 0);
    let out2 = c.step(None, 40_000_000);
    assert_eq!(out2, 0);
}

#[test]
fn gain_ramp_clamps_at_cap() {
    let mut c = IntensityController { last_intensity: 0, gain_multiplier: MAX_GAIN };
    // A tiny sample amplified a hundredfold stays below one unit: the ramp
    // branch runs and the cap holds.
    let out = c.step(Some(5_000), 40_000_000);
    assert_eq!(out, 500_000);
    assert_eq!(c.gain_multiplier, MAX_GAIN);
}

#[test]
fn clipping_strictly_reduces_gain() {
    let mut c = IntensityController { last_intensity: 0, gain_multiplier: 2_000_000 };
    let out = c.step(Some(1_000_000), 16_000);
    assert_eq!(out, SCALE);
    assert_eq!(c.gain_multiplier, 1_000_000);
    assert!(c.gain_multiplier < 2_000_000);
}

#[test]
fn extreme_sample_clips_and_floors_gain() {
    // A sample at the top of the range still comes out at exactly one unit,
    // and the permanent discount pushes the fixed-point gain to its floor.
    let mut c = IntensityController::new();
    let out = c.step(Some(u64::MAX), 0);
    assert_eq!(out, SCALE);
    assert_eq!(c.gain_multiplier, 0);
    // From there every sample is discounted to silence and the gain stays.
    let out2 = c.step(Some(500_000), 16_000);
    assert_eq!(out2, 0);
    assert_eq!(c.gain_multiplier, 0);
}

#[test]
fn zero_dt_changes_nothing_but_publishes() {
    let mut c = IntensityController::new();
    let out = c.step(None, 0);
    assert_eq!(out, 800_000);
    assert_eq!(c.last_intensity, 800_000);
    assert_eq!(c.gain_multiplier, 1_000_000);
}

#[test]
fn initial_seed_is_eight_tenths() {
    assert_eq!(INITIAL_INTENSITY, 800_000);
    assert_eq!(IntensityController::new().last_intensity, INITIAL_INTENSITY);
}

#[test]
fn constant_provider_reports_configured_value() {
    let p = ConstantVolumeProvider::new(123_456);
    assert_eq!(p.poll_volume(), Some(123_456));
    assert_eq!(FALLBACK_INTENSITY, 800_000);
    let fallback = ConstantVolumeProvider::new(FALLBACK_INTENSITY);
    assert_eq!(fallback.poll_volume(), Some(800_000));
}

#[test]
fn poll_decision_empty_keeps_waiting() {
    assert_eq!(poll_decision(&PeekOutcome::Empty), PollAction::KeepWaiting);
}

#[test]
fn poll_decision_hole_discards() {
    assert_eq!(poll_decision(&PeekOutcome::Hole), PollAction::DiscardOnly);
}

#[test]
fn poll_decision_takes_newest_sample_bytes() {
    let outcome = PeekOutcome::Data(vec![1, 2, 3, 4, 5, 6, 7, 8]);
    assert_eq!(
        poll_decision(&outcome),
        PollAction::DecodeSample { b0: 5, b1: 6, b2: 7, b3: 8 }
    );
    let exact = PeekOutcome::Data(vec![9, 10, 11, 12]);
    assert_eq!(
        poll_decision(&exact),
        PollAction::DecodeSample { b0: 9, b1: 10, b2: 11, b3: 12 }
    );
}

#[test]
fn poll_decision_short_fragment_is_malformed() {
    assert_eq!(poll_decision(&PeekOutcome::Data(vec![1, 2, 3])), PollAction::Malformed);
    assert_eq!(poll_decision(&PeekOutcome::Data(vec![])), PollAction::Malformed);
}

#[test]
fn sample_bytes_round_trip_to_float() {
    // The four bytes the poller hands out decode to the peak the stream
    // carried, here 0.75 in native-endian form.
    let peak: f32 = 0.75;
    let mut bytes = vec![0u8; 4];
    bytes.copy_from_slice(&peak.to_ne_bytes());
    match poll_decision(&PeekOutcome::Data(bytes)) {
        PollAction::DecodeSample { b0, b1, b2, b3 } => {
            assert_eq!(f32::from_ne_bytes([b0, b1, b2, b3]), 0.75);
        }
        other => panic!("expected a decoded sample, got {:?}", other),
    }
}
