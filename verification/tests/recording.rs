use foldsynth::fixed::{pcm16, ONE};
use foldsynth::recording::{Buffer, RecordingState, BUFFER_SIZE};

#[test]
fn pcm_scaling_is_truncating_and_saturating() {
    assert_eq!(pcm16(0), 0);
    assert_eq!(pcm16(ONE), 32_767);
    assert_eq!(pcm16(-ONE), -32_767);
    assert_eq!(pcm16(ONE / 2), 16_383);
    assert_eq!(pcm16(-(ONE / 2)), -16_383);
    assert_eq!(pcm16(2 * ONE), 32_767);
    assert_eq!(pcm16(-2 * ONE), -32_768);
}

#[test]
fn fresh_recorder_is_idle_and_zeroed() {
    let rec = RecordingState::new();
    assert!(!rec.is_recording);
    assert_eq!(rec.ping_buffer.len(), BUFFER_SIZE);
    assert_eq!(rec.pong_buffer.len(), BUFFER_SIZE);
    assert!(rec.ping_buffer.iter().all(|&s| s == 0));
    assert!(rec.pong_buffer.iter().all(|&s| s == 0));
    assert!(rec.write_buffer.is_none());
    assert_eq!(rec.write_index(), 0);
    assert!(matches!(rec.active_block(), Buffer::Ping));
    assert_eq!(rec.overruns(), 0);
}

#[test]
fn idle_recorder_ignores_samples() {
    let mut rec = RecordingState::new();
    for _ in 0..10 {
        rec.record_sample(ONE);
    }
    assert_eq!(rec.write_index(), 0);
    assert!(rec.write_buffer.is_none());
    assert!(rec.ping_buffer.iter().all(|&s| s == 0));
    assert_eq!(rec.overruns(), 0);
}

#[test]
fn a_full_block_flips_to_the_other_buffer() {
    // Exactly one block of samples: the ping block is flagged, the write
    // offset resets, and the very next sample lands in the pong block.
    let mut rec = RecordingState::new();
    rec.toggle_recording();
    assert!(rec.is_recording);
    for i in 0..BUFFER_SIZE {
        rec.record_sample(if i % 2 == 0 { ONE } else { -ONE });
    }
    assert!(matches!(rec.write_buffer, Some(Buffer::Ping)));
    assert_eq!(rec.write_index(), 0);
    assert!(matches!(rec.active_block(), Buffer::Pong));
    for i in 0..BUFFER_SIZE {
        let expected = if i % 2 == 0 { 32_767 } else { -32_767 };
        assert_eq!(rec.ping_buffer[i], expected);
    }
    // No gap: the next sample goes straight into the pong block.
    rec.record_sample(ONE / 2);
    assert_eq!(rec.write_index(), 1);
    assert_eq!(rec.pong_buffer[0], 16_383);
    assert!(matches!(rec.write_buffer, Some(Buffer::Ping)));
}

#[test]
fn overrun_never_flags_a_second_block() {
    // With the ping block still pending, a whole further block's worth of
    // samples fills the pong block, whose completion goes unrecorded, and
    // everything after that is dropped and counted.
    let mut rec = RecordingState::new();
    rec.toggle_recording();
    for _ in 0..BUFFER_SIZE {
        rec.record_sample(ONE);
    }
    assert!(matches!(rec.write_buffer, Some(Buffer::Ping)));
    for _ in 0..BUFFER_SIZE {
        rec.record_sample(-ONE);
    }
    assert!(matches!(rec.write_buffer, Some(Buffer::Ping)));
    assert_eq!(rec.write_index(), BUFFER_SIZE);
    assert_eq!(rec.overruns(), 0);
    for _ in 0..10 {
        rec.record_sample(ONE / 2);
    }
    assert!(matches!(rec.write_buffer, Some(Buffer::Ping)));
    assert_eq!(rec.overruns(), 10);
    // The pending block is untouched by any of it.
    assert!(rec.ping_buffer.iter().all(|&s| s == 32_767));
}

#[test]
fn drain_hands_out_the_pending_block_once() {
    let mut rec = RecordingState::new();
    rec.toggle_recording();
    for _ in 0..BUFFER_SIZE {
        rec.record_sample(ONE);
    }
    let block = rec.drain_pending().expect("a block was pending");
    assert_eq!(block.len(), BUFFER_SIZE);
    assert!(block.iter().all(|&s| s == 32_767));
    assert!(rec.write_buffer.is_none());
    assert!(rec.drain_pending().is_none());
}

#[test]
fn capture_restarts_after_the_backlog_clears() {
    // Fill ping, then fill pong during the backlog; once the drainer
    // clears the flag, capture restarts at the top of the pong block.
    let mut rec = RecordingState::new();
    rec.toggle_recording();
    for _ in 0..2 * BUFFER_SIZE {
        rec.record_sample(ONE);
    }
    assert_eq!(rec.write_index(), BUFFER_SIZE);
    assert!(rec.drain_pending().is_some());
    rec.record_sample(-ONE);
    assert_eq!(rec.write_index(), 1);
    assert!(matches!(rec.active_block(), Buffer::Pong));
    assert_eq!(rec.pong_buffer[0], -32_767);
    assert!(rec.write_buffer.is_none());
}

#[test]
fn restarting_capture_avoids_the_pending_block() {
    // Stop while ping is pending, start again: filling begins in pong so
    // the pending data survives until it is drained.
    let mut rec = RecordingState::new();
    rec.toggle_recording();
    for _ in 0..BUFFER_SIZE {
        rec.record_sample(ONE);
    }
    assert!(matches!(rec.write_buffer, Some(Buffer::Ping)));
    rec.toggle_recording();
    assert!(!rec.is_recording);
    rec.toggle_recording();
    assert!(rec.is_recording);
    assert!(matches!(rec.active_block(), Buffer::Pong));
    rec.record_sample(-ONE);
    assert!(rec.ping_buffer.iter().all(|&s| s == 32_767));
}

#[test]
fn a_pending_pong_block_restarts_at_ping() {
    let mut rec = RecordingState::new();
    rec.toggle_recording();
    for _ in 0..BUFFER_SIZE {
        rec.record_sample(ONE);
    }
    assert!(rec.drain_pending().is_some());
    for _ in 0..BUFFER_SIZE {
        rec.record_sample(-ONE);
    }
    assert!(matches!(rec.write_buffer, Some(Buffer::Pong)));
    rec.toggle_recording();
    rec.toggle_recording();
    assert!(matches!(rec.active_block(), Buffer::Ping));
}

#[test]
fn toggling_resets_the_write_offset() {
    let mut rec = RecordingState::new();
    rec.toggle_recording();
    for _ in 0..10 {
        rec.record_sample(ONE);
    }
    assert_eq!(rec.write_index(), 10);
    rec.toggle_recording();
    assert_eq!(rec.write_index(), 0);
}
