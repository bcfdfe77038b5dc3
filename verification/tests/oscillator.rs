use foldsynth::fixed::ONE;
use foldsynth::oscillator::{
    morph_wave, sine_wave, square_wave, triangle_wave, wavefold, wrap_phase, Oscillator,
    CYCLE, HALF_CYCLE, QUARTER_CYCLE,
};

const Q: i64 = QUARTER_CYCLE as i64;
const H: i64 = HALF_CYCLE as i64;
const C: i64 = CYCLE as i64;

#[test]
fn wrap_keeps_small_phases() {
    assert_eq!(wrap_phase(0), 0);
    assert_eq!(wrap_phase(5), 5);
    assert_eq!(wrap_phase(C - 1), CYCLE - 1);
}

#[test]
fn wrap_is_euclidean_for_negatives() {
    assert_eq!(wrap_phase(-1), CYCLE - 1);
    assert_eq!(wrap_phase(-C), 0);
    assert_eq!(wrap_phase(-3 * C), 0);
    assert_eq!(wrap_phase(-3 * C - 7), CYCLE - 7);
}

#[test]
fn wrap_handles_many_cycles() {
    assert_eq!(wrap_phase(C + 5), 5);
    assert_eq!(wrap_phase(100 * C + 123), 123);
}

#[test]
fn sine_hits_its_landmarks() {
    assert_eq!(sine_wave(0), 0);
    assert_eq!(sine_wave(Q), ONE);
    assert_eq!(sine_wave(H), 0);
    assert_eq!(sine_wave(3 * Q), -ONE);
}

#[test]
fn sine_is_odd_around_the_half_cycle() {
    for &t in &[1i64, 1000, 123_456, Q, H - 1] {
        assert_eq!(sine_wave(H + t), -sine_wave(t));
    }
}

#[test]
fn triangle_hits_its_landmarks() {
    assert_eq!(triangle_wave(0), -ONE);
    assert_eq!(triangle_wave(Q), 0);
    assert_eq!(triangle_wave(H), ONE);
    assert_eq!(triangle_wave(3 * Q), 0);
    assert_eq!(triangle_wave(128), -ONE + 1);
}

#[test]
fn square_flips_at_the_half_cycle() {
    assert_eq!(square_wave(0), ONE);
    assert_eq!(square_wave(H - 1), ONE);
    assert_eq!(square_wave(H), -ONE);
    assert_eq!(square_wave(C - 1), -ONE);
}

#[test]
fn morph_reproduces_the_pure_waveforms() {
    let (s, t, q) = (12345, -23456, ONE);
    assert_eq!(morph_wave(0, s, t, q), s as i64);
    assert_eq!(morph_wave(ONE, s, t, q), t as i64);
    assert_eq!(morph_wave(2 * ONE, s, t, q), q as i64);
}

#[test]
fn morph_blends_halfway() {
    // Halfway to the triangle: the even blend of sine and triangle.
    assert_eq!(morph_wave(ONE / 2, ONE, 0, 0), (ONE / 2) as i64);
    assert_eq!(morph_wave(ONE + ONE / 2, 0, ONE, -ONE), 0);
}

#[test]
fn fold_leaves_full_scale_values_alone() {
    for &v in &[0i64, 1, -1, 12345, ONE as i64, -(ONE as i64)] {
        assert_eq!(wavefold(v), v);
    }
}

#[test]
fn fold_reflects_across_the_boundary() {
    assert_eq!(wavefold((ONE + 1) as i64), (ONE - 1) as i64);
    assert_eq!(wavefold(3 * ONE as i64 / 2), ONE as i64 / 2);
    assert_eq!(wavefold(-3 * ONE as i64 / 2), -(ONE as i64) / 2);
    assert_eq!(wavefold(2 * ONE as i64), 0);
}

#[test]
fn fold_recovers_nine_fold_overdrive() {
    // Four passes bring nine times full scale exactly back to full scale.
    assert_eq!(wavefold(9 * ONE as i64), ONE as i64);
    assert_eq!(wavefold(-9 * ONE as i64), -(ONE as i64));
    // Within nine times full scale the result stays in range.
    for k in 0..=18 {
        let v = k * (ONE as i64) / 2;
        assert!(wavefold(v).abs() <= ONE as i64);
        assert!(wavefold(-v).abs() <= ONE as i64);
    }
}

#[test]
fn fold_beyond_nine_escapes_four_passes() {
    // Eleven times full scale still stands at three times full scale
    // after the four reflection passes.
    assert_eq!(wavefold(11 * ONE as i64), 3 * ONE as i64);
}

#[test]
fn quarter_cycle_steps_trace_a_pure_sine() {
    // A quarter cycle per sample: the sine's four landmark values.
    let mut osc = Oscillator::with_sample_rate(96_000);
    osc.set_params(24_000, ONE, 0, ONE, 0);
    assert_eq!(osc.next_sample(), 0);
    assert_eq!(osc.next_sample(), ONE);
    assert_eq!(osc.next_sample(), 0);
    assert_eq!(osc.next_sample(), -ONE);
    assert_eq!(osc.next_sample(), 0);
}

#[test]
fn quarter_cycle_steps_trace_a_pure_triangle() {
    let mut osc = Oscillator::with_sample_rate(96_000);
    osc.set_params(24_000, ONE, ONE, ONE, 0);
    assert_eq!(osc.next_sample(), -ONE);
    assert_eq!(osc.next_sample(), 0);
    assert_eq!(osc.next_sample(), ONE);
    assert_eq!(osc.next_sample(), 0);
}

#[test]
fn quarter_cycle_steps_trace_a_pure_square() {
    let mut osc = Oscillator::with_sample_rate(96_000);
    osc.set_params(24_000, ONE, 2 * ONE, ONE, 0);
    assert_eq!(osc.next_sample(), ONE);
    assert_eq!(osc.next_sample(), ONE);
    assert_eq!(osc.next_sample(), -ONE);
    assert_eq!(osc.next_sample(), -ONE);
}

#[test]
fn amplitude_scales_the_output() {
    let mut osc = Oscillator::with_sample_rate(96_000);
    osc.set_params(24_000, ONE / 2, 0, ONE, 0);
    assert_eq!(osc.next_sample(), 0);
    assert_eq!(osc.next_sample(), ONE / 2);
}

#[test]
fn double_gain_folds_the_square_to_silence() {
    // A square at twice unity gain reflects exactly back to zero.
    let mut osc = Oscillator::with_sample_rate(96_000);
    osc.set_params(24_000, ONE, 2 * ONE, 2 * ONE, 0);
    assert_eq!(osc.next_sample(), 0);
    assert_eq!(osc.next_sample(), 0);
}

#[test]
fn phase_modulation_shifts_the_read_position() {
    // A quarter-cycle modulation depth: at the sine's peak the modulator
    // pushes the read position to the half cycle, where the sine is zero.
    let mut osc = Oscillator::with_sample_rate(96_000);
    osc.set_params(24_000, ONE, 0, ONE, QUARTER_CYCLE);
    assert_eq!(osc.next_sample(), 0);
    assert_eq!(osc.next_sample(), 0);
    let mut plain = Oscillator::with_sample_rate(96_000);
    plain.set_params(24_000, ONE, 0, ONE, 0);
    assert_eq!(plain.next_sample(), 0);
    assert_eq!(plain.next_sample(), ONE);
}

#[test]
fn frequency_zero_freezes_the_phase() {
    let mut osc = Oscillator::with_sample_rate(48_000);
    osc.set_params(0, ONE, 2 * ONE, ONE, 0);
    for _ in 0..100 {
        assert_eq!(osc.next_sample(), ONE);
        assert_eq!(osc.current_phase(), 0);
    }
}

#[test]
fn phase_stays_wrapped_at_any_frequency() {
    // Even past the sample rate the accumulator stays inside one cycle.
    for &freq in &[0u32, 1, 440, 47_999, 48_000, 96_000, 1_000_000] {
        let mut osc = Oscillator::with_sample_rate(48_000);
        osc.set_params(freq, ONE / 2, 0, ONE, 0);
        for _ in 0..500 {
            osc.next_sample();
            assert!(osc.current_phase() < CYCLE);
        }
    }
}

#[test]
fn concert_pitch_repeats_after_one_period() {
    // 440 Hz at 48 kHz: sample zero is silence, and one period later —
    // 48000/440 is just over 109 samples — the output is back near zero.
    let mut osc = Oscillator::with_sample_rate(48_000);
    osc.set_params(440, ONE / 2, 0, ONE, 0);
    let first = osc.next_sample();
    assert_eq!(first, 0);
    for _ in 0..108 {
        osc.next_sample();
    }
    // Phase advance per sample is CYCLE * 440 / 48000 = 153791 units;
    // after 109 samples the accumulator is 13997 units short of a cycle.
    assert_eq!(osc.current_phase(), 109 * 153_791);
    assert_eq!(CYCLE - 109 * 153_791, 13_997);
    let close = osc.next_sample();
    assert_eq!(close, -109);
    assert!(close.abs() * 100 <= ONE);
}

#[test]
fn default_oscillator_starts_silent_at_concert_pitch() {
    let mut osc = Oscillator::new();
    assert_eq!(osc.current_phase(), 0);
    assert_eq!(osc.next_sample(), 0);
    // One sample advances the phase by CYCLE * 440 / 96000 units.
    assert_eq!(osc.current_phase(), 76_895);
}
