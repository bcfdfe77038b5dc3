use foldsynth::audio::{dac_code, SharedState, DAC_MAX};
use foldsynth::fixed::ONE;
use foldsynth::knobs::{map_knobs, KnobState, MIN_FREQ, PM_RANGE_UNITS};
use foldsynth::oscillator::Oscillator;
use foldsynth::preview::{preview_column, preview_columns, DISPLAY_WIDTH};
use foldsynth::recording::{Buffer, BUFFER_SIZE};

#[test]
fn dac_codes_span_the_converter_range() {
    assert_eq!(dac_code(-ONE), 0);
    assert_eq!(dac_code(0), 2_047);
    assert_eq!(dac_code(ONE), DAC_MAX);
    // Beyond full scale the code clamps to the converter's range.
    assert_eq!(dac_code(-3 * ONE), 0);
    assert_eq!(dac_code(3 * ONE), DAC_MAX);
}

#[test]
fn a_block_fills_both_channels_and_the_dac() {
    let mut shared = SharedState::with_sample_rate(96_000);
    shared.set_params(24_000, ONE, 0, ONE, 0);
    let (frames, codes) = shared.fill_block(8);
    assert_eq!(frames.len(), 8);
    assert_eq!(codes.len(), 8);
    let samples: Vec<i32> = frames.iter().map(|f| f.0).collect();
    assert_eq!(samples, vec![0, ONE, 0, -ONE, 0, ONE, 0, -ONE]);
    for (frame, code) in frames.iter().zip(codes.iter()) {
        assert_eq!(frame.0, frame.1);
        assert_eq!(*code, dac_code(frame.0));
    }
}

#[test]
fn eight_blocks_complete_one_recording_block() {
    let mut shared = SharedState::with_sample_rate(96_000);
    shared.set_params(24_000, ONE, 2 * ONE, ONE, 0);
    shared.toggle_recording();
    for _ in 0..BUFFER_SIZE / 32 {
        shared.fill_block(32);
    }
    assert!(matches!(shared.recorder.write_buffer, Some(Buffer::Ping)));
    let block = shared.drain().expect("one block was pending");
    assert_eq!(block.len(), BUFFER_SIZE);
    // The square at full level records alternating half-cycle plateaus.
    assert_eq!(block[0], 32_767);
    assert_eq!(block[1], 32_767);
    assert_eq!(block[2], -32_767);
    assert_eq!(block[3], -32_767);
    assert!(shared.drain().is_none());
}

#[test]
fn recording_stays_off_until_triggered() {
    let mut shared = SharedState::with_sample_rate(96_000);
    shared.set_params(24_000, ONE, 0, ONE, 0);
    shared.fill_block(512);
    assert!(shared.recorder.write_buffer.is_none());
    assert_eq!(shared.recorder.write_index(), 0);
}

#[test]
fn interleaved_updates_never_tear_the_tuple() {
    // Replay one interleaving of parameter writes and sample reads
    // against reference oscillators that were given each whole tuple:
    // every sample matches the tuple in effect when it was drawn.
    let mut shared = SharedState::with_sample_rate(96_000);
    let mut sine_ref = Oscillator::with_sample_rate(96_000);
    sine_ref.set_params(24_000, ONE, 0, ONE, 0);
    let mut square_ref = Oscillator::with_sample_rate(96_000);
    square_ref.set_params(24_000, ONE, 2 * ONE, ONE, 0);

    shared.set_params(24_000, ONE, 0, ONE, 0);
    let (frames, _) = shared.fill_block(2);
    assert_eq!(frames[0].0, sine_ref.next_sample());
    assert_eq!(frames[1].0, sine_ref.next_sample());

    shared.set_params(24_000, ONE, 2 * ONE, ONE, 0);
    square_ref.next_sample();
    square_ref.next_sample();
    let (frames, _) = shared.fill_block(2);
    assert_eq!(frames[0].0, square_ref.next_sample());
    assert_eq!(frames[1].0, square_ref.next_sample());
}

#[test]
fn knob_extremes_map_to_the_declared_ranges() {
    let low = map_knobs(0, 0, 0, 0, 0);
    assert_eq!(low.frequency, MIN_FREQ);
    assert_eq!(low.amplitude, 0);
    assert_eq!(low.wave_shape, 0);
    assert_eq!(low.fold_gain, ONE);
    assert_eq!(low.pm_amount, 0);
    let high = map_knobs(65_535, 65_535, 65_535, 65_535, 65_535);
    assert_eq!(high.frequency, 3_020);
    assert_eq!(high.amplitude, ONE);
    assert_eq!(high.wave_shape, 2 * ONE);
    assert_eq!(high.fold_gain, 10 * ONE);
    assert_eq!(high.pm_amount, PM_RANGE_UNITS);
}

#[test]
fn unit_smoothing_adopts_the_target() {
    let mut knobs = KnobState::new();
    let p = knobs.update(65_535, 65_535, 0, 0, 0, ONE);
    assert_eq!(p.frequency, 3_020);
    assert_eq!(p.amplitude, ONE);
    assert_eq!(p.wave_shape, 0);
    assert_eq!(p.fold_gain, ONE);
    assert_eq!(p.pm_amount, 0);
}

#[test]
fn zero_smoothing_never_moves() {
    let mut knobs = KnobState::new();
    let p = knobs.update(65_535, 65_535, 65_535, 65_535, 65_535, 0);
    assert_eq!(p.frequency, 0);
    assert_eq!(p.amplitude, 0);
    assert_eq!(p.wave_shape, 0);
    assert_eq!(p.fold_gain, ONE);
    assert_eq!(p.pm_amount, 0);
}

#[test]
fn half_smoothing_meets_in_the_middle() {
    let mut knobs = KnobState::new();
    let p = knobs.update(65_535, 65_535, 0, 0, 0, ONE / 2);
    // Halfway from 0 toward 3020 hertz and toward full level; halfway
    // from unity gain toward unity gain stays put.
    assert_eq!(p.frequency, 1_510);
    assert_eq!(p.amplitude, ONE / 2);
    assert_eq!(p.fold_gain, ONE);
}

#[test]
fn preview_covers_every_column() {
    let p = map_knobs(0, 65_535, 0, 0, 0);
    let ys = preview_columns(&p, MIN_FREQ, 3_000);
    assert_eq!(ys.len(), DISPLAY_WIDTH);
    for (x, y) in ys.iter().enumerate() {
        assert_eq!(*y, preview_column(&p, x, MIN_FREQ, 3_000));
    }
}

#[test]
fn preview_draws_one_square_cycle_at_the_bottom_of_the_range() {
    // Frequency knob at the bottom: one cycle across the screen. A full
    // level square sits one row under the top for the first half cycle
    // and at the bottom row for the second.
    let p = map_knobs(0, 65_535, 65_535, 0, 0);
    assert_eq!(p.fold_gain, ONE);
    assert_eq!(preview_column(&p, 0, MIN_FREQ, 3_000), 1);
    assert_eq!(preview_column(&p, 63, MIN_FREQ, 3_000), 1);
    assert_eq!(preview_column(&p, 64, MIN_FREQ, 3_000), 63);
    assert_eq!(preview_column(&p, 127, MIN_FREQ, 3_000), 63);
}

#[test]
fn preview_centres_a_silent_wave() {
    let p = map_knobs(0, 0, 0, 0, 0);
    for x in 0..DISPLAY_WIDTH {
        assert_eq!(preview_column(&p, x, MIN_FREQ, 3_000), 32);
    }
}
