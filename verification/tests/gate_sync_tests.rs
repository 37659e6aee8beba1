use scrollscope::gate::{effective_skip, should_capture};
use scrollscope::sync::{
    alt_boundary, detect_beat, euclid_rem, sync_decision, BeatSync, Transport,
};

fn rolling_at_milli_beats(pos: i64) -> Transport {
    Transport {
        playing: true,
        pos_beats_milli: Some(pos),
        pos_samples: None,
        tempo_milli_bpm: None,
        sample_rate_hz: 44100,
    }
}

#[test]
fn gate_skip_three_captures_ordinals_0_3_6() {
    let mut captured = Vec::new();
    for ordinal in 0..9 {
        if should_capture(ordinal, 3) {
            captured.push(ordinal);
        }
    }
    assert_eq!(captured, vec![0, 3, 6]);
}

#[test]
fn gate_skip_one_captures_every_sample() {
    for ordinal in 0..32 {
        assert!(should_capture(ordinal, 1));
    }
}

#[test]
fn gate_skip_of_block_length_captures_first_only() {
    let block_len = 64;
    for ordinal in 0..block_len {
        assert_eq!(should_capture(ordinal, block_len), ordinal == 0);
    }
}

#[test]
fn gate_clamps_degenerate_factors_to_one() {
    assert_eq!(effective_skip(0), 1);
    assert_eq!(effective_skip(-7), 1);
    assert_eq!(effective_skip(24), 24);
    assert!(should_capture(5, 0));
    assert!(should_capture(5, -3));
}

#[test]
fn euclid_rem_handles_positions_before_song_start() {
    assert_eq!(euclid_rem(2500, 1000), 500);
    assert_eq!(euclid_rem(-1, 1000), 999);
    assert_eq!(euclid_rem(-1000, 1000), 0);
    assert_eq!(euclid_rem(-1250, 1000), 750);
}

#[test]
fn detect_beat_within_tolerance_of_beat_and_bar() {
    assert_eq!(detect_beat(&rolling_at_milli_beats(8000)), (true, true));
    assert_eq!(detect_beat(&rolling_at_milli_beats(5000)), (true, false));
    assert_eq!(detect_beat(&rolling_at_milli_beats(5005)), (true, false));
    assert_eq!(detect_beat(&rolling_at_milli_beats(4995)), (true, false));
    assert_eq!(detect_beat(&rolling_at_milli_beats(5500)), (false, false));
    assert_eq!(detect_beat(&rolling_at_milli_beats(12003)), (true, true));
}

#[test]
fn detect_beat_is_quiet_when_stopped_or_unreported() {
    let mut stopped = rolling_at_milli_beats(8000);
    stopped.playing = false;
    assert_eq!(detect_beat(&stopped), (false, false));
    let mut unreported = rolling_at_milli_beats(0);
    unreported.pos_beats_milli = None;
    assert_eq!(detect_beat(&unreported), (false, false));
}

#[test]
fn primary_boundary_rewinds_cursor_once_per_crossing() {
    let on_boundary = rolling_at_milli_beats(4000);
    let off_boundary = rolling_at_milli_beats(4300);

    let d1 = sync_decision(true, false, BeatSync::Beat, 0, &on_boundary);
    assert!(d1.in_place);
    assert!(!d1.hold_cursor);
    assert!(d1.reset_cursor);
    assert!(d1.reset_skip);
    assert_eq!(d1.beat_threshold, 1);

    // Still on the same boundary: the debounce suppresses a second rewind.
    let d2 = sync_decision(true, false, BeatSync::Beat, d1.beat_threshold, &on_boundary);
    assert!(!d2.reset_cursor);
    assert_eq!(d2.beat_threshold, 1);

    // Leaving the boundary rearms the detector.
    let d3 = sync_decision(true, false, BeatSync::Beat, d2.beat_threshold, &off_boundary);
    assert!(!d3.reset_cursor);
    assert_eq!(d3.beat_threshold, 0);

    // The next crossing rewinds again.
    let d4 = sync_decision(true, false, BeatSync::Beat, d3.beat_threshold, &on_boundary);
    assert!(d4.reset_cursor);
}

#[test]
fn bar_timing_only_triggers_on_bar_multiples() {
    let on_beat_only = rolling_at_milli_beats(5000);
    let on_bar = rolling_at_milli_beats(8000);
    assert!(!sync_decision(true, false, BeatSync::Bar, 0, &on_beat_only).reset_cursor);
    assert!(sync_decision(true, false, BeatSync::Bar, 0, &on_bar).reset_cursor);
    assert!(sync_decision(true, false, BeatSync::Beat, 0, &on_beat_only).reset_cursor);
}

#[test]
fn stopped_transport_holds_cursor_at_start() {
    let mut stopped = rolling_at_milli_beats(4321);
    stopped.playing = false;
    let d = sync_decision(true, false, BeatSync::Beat, 0, &stopped);
    assert!(d.in_place);
    assert!(d.reset_cursor);
    assert!(d.hold_cursor);
    assert!(!d.add_beat_line);
}

#[test]
fn missing_beat_position_degrades_to_no_boundary() {
    let t = Transport {
        playing: true,
        pos_beats_milli: None,
        pos_samples: None,
        tempo_milli_bpm: None,
        sample_rate_hz: 48000,
    };
    let d = sync_decision(true, false, BeatSync::Beat, 0, &t);
    assert!(!d.in_place);
    assert!(!d.reset_cursor);
    assert!(!d.add_beat_line);
    let d_alt = sync_decision(true, true, BeatSync::Beat, 0, &t);
    assert!(!d_alt.in_place);
    assert!(!d_alt.reset_cursor);
}

#[test]
fn marker_follows_beats_even_without_sync() {
    let d = sync_decision(false, false, BeatSync::Beat, 0, &rolling_at_milli_beats(3000));
    assert!(!d.reset_cursor);
    assert!(d.add_beat_line);
    let d_off = sync_decision(false, false, BeatSync::Beat, 0, &rolling_at_milli_beats(3500));
    assert!(!d_off.add_beat_line);
}

fn clocked(pos_samples: i64) -> Transport {
    Transport {
        playing: true,
        pos_beats_milli: None,
        pos_samples: Some(pos_samples),
        tempo_milli_bpm: Some(120_000),
        sample_rate_hz: 48000,
    }
}

#[test]
fn alt_boundary_accepts_sample_times_near_beats() {
    // 120 beats per minute at 48 kHz: one beat every 24000 samples, a
    // 0.02 s tolerance is 960 samples, and the detector looks 1000
    // samples ahead.
    assert!(alt_boundary(&clocked(23_000), BeatSync::Beat));
    assert!(alt_boundary(&clocked(23_950), BeatSync::Beat));
    assert!(!alt_boundary(&clocked(25_000), BeatSync::Beat));
    assert!(alt_boundary(&clocked(47_000), BeatSync::Beat));
    assert!(!alt_boundary(&clocked(10_000), BeatSync::Beat));
}

#[test]
fn alt_boundary_bar_period_is_four_beats() {
    // A bar is 96000 samples here; one beat in is not a bar boundary.
    assert!(alt_boundary(&clocked(95_000), BeatSync::Bar));
    assert!(!alt_boundary(&clocked(23_000), BeatSync::Bar));
}

#[test]
fn alt_boundary_needs_clock_and_tempo() {
    let mut no_tempo = clocked(23_000);
    no_tempo.tempo_milli_bpm = None;
    assert!(!alt_boundary(&no_tempo, BeatSync::Beat));
    let mut no_clock = clocked(23_000);
    no_clock.pos_samples = None;
    assert!(!alt_boundary(&no_clock, BeatSync::Beat));
}

#[test]
fn alt_sync_debounces_like_the_primary_strategy() {
    let on = clocked(23_500);
    let off = clocked(10_000);
    let d1 = sync_decision(true, true, BeatSync::Beat, 0, &on);
    assert!(d1.reset_cursor);
    assert!(!d1.reset_skip);
    let d2 = sync_decision(true, true, BeatSync::Beat, d1.beat_threshold, &on);
    assert!(!d2.reset_cursor);
    let d3 = sync_decision(true, true, BeatSync::Beat, d2.beat_threshold, &off);
    assert_eq!(d3.beat_threshold, 0);
}
