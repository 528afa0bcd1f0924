//! Clock, gate and tween behaviour on concrete values.
use beatcore::clock::BeatClock;
use beatcore::error::ConfigError;
use beatcore::num::SCALE;
use beatcore::tween::{BeatGate, Tween, TweenType};

#[test]
fn clock_catch_up_over_two_periods() {
    let mut clock = BeatClock::new(500).unwrap();
    clock.advance(1300);
    assert_eq!(clock.beat_count, 2);
    assert_eq!(clock.elapsed, 300);
}

#[test]
fn clock_accumulates_over_small_steps() {
    let mut clock = BeatClock::new(480).unwrap();
    for _ in 0..10 {
        clock.advance(100);
    }
    assert_eq!(clock.beat_count, 2);
    assert_eq!(clock.elapsed, 40);
}

#[test]
fn clock_percent_and_percent_left() {
    let mut clock = BeatClock::new(1000).unwrap();
    clock.advance(250);
    assert_eq!(clock.percent(), 250);
    assert_eq!(clock.percent_left(), 750);
}

#[test]
fn clock_rejects_nonpositive_period() {
    assert_eq!(BeatClock::new(0), Err(ConfigError::NonPositivePeriod));
    assert_eq!(BeatClock::new(-5), Err(ConfigError::NonPositivePeriod));
}

#[test]
fn gate_active_exactly_on_residue() {
    let gate = BeatGate::new(4, 1).unwrap();
    for beat in 0..=20u64 {
        assert_eq!(gate.is_active(beat), beat % 4 == 1, "beat {}", beat);
    }
}

#[test]
fn gate_rejects_zero_frequency() {
    assert_eq!(BeatGate::new(0, 0), Err(ConfigError::ZeroFrequency));
}

#[test]
fn sawtooth_boundary_values() {
    let tween = Tween::new(TweenType::Sawtooth, 0, 10_000, 0, 500, 1000).unwrap();
    assert_eq!(tween.evaluate(0), 0);
    assert_eq!(tween.evaluate(500), 5_000);
    assert_eq!(tween.evaluate(1000), 10_000);
}

#[test]
fn square_steps_at_mid() {
    let tween = Tween::new(TweenType::Square, 1_000, 2_000, 0, 500, 1000).unwrap();
    assert_eq!(tween.evaluate(490), 1_000);
    assert_eq!(tween.evaluate(500), 2_000);
}

#[test]
fn triangle_rising_half_peaks_at_mid() {
    let tween = Tween::new(TweenType::Triangle, 0, 10_000, 0, 500, 1000).unwrap();
    assert_eq!(tween.evaluate(250), 5_000);
    assert_eq!(tween.evaluate(499), 9_980);
}

#[test]
fn triangle_falling_half_extrapolates() {
    // The falling branch rescales the raw phase by the remaining window
    // without re-clamping, so late phases overshoot the high endpoint.
    let tween = Tween::new(TweenType::Triangle, 0, 10_000, 0, 500, 1000).unwrap();
    assert_eq!(tween.evaluate(750), 15_000);
}

#[test]
fn clamps_below_start_to_low_endpoint() {
    let tween = Tween::new(TweenType::Sawtooth, 7_000, 9_000, 500, 500, 1000).unwrap();
    assert_eq!(tween.evaluate(250), 7_000);
}

#[test]
fn triangle_clamps_above_end_to_low_endpoint() {
    // The high clamp is asymmetric: past `end` a triangle returns `a`,
    // the other shapes return `b`.
    let triangle = Tween::new(TweenType::Triangle, 3_000, 8_000, 0, 250, 500).unwrap();
    assert_eq!(triangle.evaluate(600), 3_000);
    let square = Tween::new(TweenType::Square, 3_000, 8_000, 0, 250, 500).unwrap();
    assert_eq!(square.evaluate(600), 8_000);
    let sawtooth = Tween::new(TweenType::Sawtooth, 3_000, 8_000, 0, 250, 500).unwrap();
    assert_eq!(sawtooth.evaluate(600), 8_000);
}

#[test]
fn triangle_breath_mid_rise() {
    // The bird's breathing shape: rising over a fifth of the beat.
    let tween = Tween::new(TweenType::Triangle, 1_000, 1_100, 0, 200, 1000).unwrap();
    assert_eq!(tween.evaluate(100), 1_050);
    assert_eq!(tween.evaluate(200), 1_025);
}

#[test]
fn evaluate_is_pure() {
    let tween = Tween::new(TweenType::Triangle, -2_000, 9_000, 100, 300, 900).unwrap();
    for p in [0, 100, 299, 300, 500, 900, 1000] {
        assert_eq!(tween.evaluate(p), tween.evaluate(p));
    }
}

#[test]
fn default_tween_is_flat_unit() {
    let tween = Tween::default();
    assert_eq!(tween.evaluate(0), SCALE);
    assert_eq!(tween.evaluate(730), SCALE);
    assert_eq!(tween.evaluate(1000), SCALE);
}

#[test]
fn tween_rejects_phase_out_of_range() {
    assert_eq!(
        Tween::new(TweenType::Sawtooth, 0, 1, -1, 500, 1000),
        Err(ConfigError::PhaseOutOfRange)
    );
    assert_eq!(
        Tween::new(TweenType::Square, 0, 1, 0, 1001, 1000),
        Err(ConfigError::PhaseOutOfRange)
    );
}

#[test]
fn tween_rejects_degenerate_triangle_mid() {
    assert_eq!(
        Tween::new(TweenType::Triangle, 0, 1, 0, 1000, 1000),
        Err(ConfigError::DegenerateTriangleMid)
    );
    assert!(Tween::new(TweenType::Sawtooth, 0, 1, 0, 1000, 1000).is_ok());
}
