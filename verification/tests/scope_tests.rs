use scrollscope::frame::{group_clips, sum_terms_for, visual_group, Controls, SampleGroup};
use scrollscope::scope::{
    calculate_buffer_size, display_length, CaptureState, Scrollscope, CLIP_HOLD_TICKS,
    MAX_DISPLAY_MS,
};
use scrollscope::store::{CHANNEL_BEAT, CHANNEL_SUM, MAX_BUFFER_LEN};
use scrollscope::sync::{BeatSync, Transport};
use scrollscope::words::{flush_denormal_bits, word_clips, WORD_ZERO};

fn group_of(main: f32, aux: [f32; 5]) -> SampleGroup {
    SampleGroup {
        main: main.to_bits(),
        aux1: aux[0].to_bits(),
        aux2: aux[1].to_bits(),
        aux3: aux[2].to_bits(),
        aux4: aux[3].to_bits(),
        aux5: aux[4].to_bits(),
    }
}

fn scrolling_controls() -> Controls {
    Controls {
        sync_active: false,
        alt_sync: false,
        sync_timing: BeatSync::Beat,
        stereo_view: false,
        skip_factor: 1,
        scrollspeed_ms: 100,
        show_analyzer: false,
        en_main: true,
        en_aux1: false,
        en_aux2: false,
        en_aux3: false,
        en_aux4: false,
        en_aux5: false,
        en_sum: true,
    }
}

fn silent_transport() -> Transport {
    Transport {
        playing: false,
        pos_beats_milli: None,
        pos_samples: None,
        tempo_milli_bpm: None,
        sample_rate_hz: 44100,
    }
}

#[test]
fn buffer_size_formula_matches_rate_and_time() {
    assert_eq!(calculate_buffer_size(44100, MAX_DISPLAY_MS), 44100);
    assert_eq!(calculate_buffer_size(44100, 100), 4410);
    assert_eq!(calculate_buffer_size(44101, 10), 442);
    assert_eq!(calculate_buffer_size(96000, MAX_DISPLAY_MS), MAX_BUFFER_LEN);
    assert_eq!(calculate_buffer_size(0, 100), 0);
}

#[test]
fn display_length_formula_truncates_per_millisecond() {
    assert_eq!(display_length(44100, 100), 4400);
    assert_eq!(display_length(48000, 1000), MAX_BUFFER_LEN);
    assert_eq!(display_length(999, 50), 0);
}

#[test]
fn default_scope_is_sized_for_44100() {
    let scope = Scrollscope::default();
    assert_eq!(scope.sample_rate_hz, 44100);
    assert_eq!(scope.sample_buffer.length(), 44100);
    assert_eq!(scope.sample_buffer_2.length(), 44100);
    assert!(!scope.is_clipping());
    assert_eq!(
        scope.state,
        CaptureState { in_place_index: 0, beat_threshold: 0, clip_hold: 0 }
    );
}

#[test]
fn initialize_adopts_the_host_rate() {
    let mut scope = Scrollscope::default();
    scope.initialize(22050);
    assert_eq!(scope.sample_rate_hz, 22050);
    assert_eq!(scope.sample_buffer.length(), 22050);
}

#[test]
fn duplicated_aux_sample_shows_as_silence() {
    let raw = group_of(0.25, [0.25, 0.5, 0.25, -0.25, 0.0]);
    let scaled = group_of(0.5, [0.5, 1.0, 0.5, -0.5, 0.0]);
    let vis = visual_group(&raw, &scaled);
    assert_eq!(vis.main, 0.5f32.to_bits());
    assert_eq!(vis.aux1, WORD_ZERO);
    assert_eq!(vis.aux2, 1.0f32.to_bits());
    assert_eq!(vis.aux3, WORD_ZERO);
    assert_eq!(vis.aux4, (-0.5f32).to_bits());
    assert_eq!(vis.aux5, 0.0f32.to_bits());
}

#[test]
fn clipping_test_is_strict_on_unity() {
    assert!(!word_clips(1.0f32.to_bits()));
    assert!(!word_clips((-1.0f32).to_bits()));
    assert!(word_clips(1.0000001f32.to_bits()));
    assert!(word_clips((-1.5f32).to_bits()));
    assert!(word_clips(f32::INFINITY.to_bits()));
    let quiet = group_of(0.5, [0.0, 0.0, 0.0, 0.0, 0.0]);
    assert!(!group_clips(&quiet));
    let loud = group_of(0.5, [0.0, 0.0, 2.0, 0.0, 0.0]);
    assert!(group_clips(&loud));
}

#[test]
fn denormal_flush_keeps_ordinary_samples() {
    assert_eq!(flush_denormal_bits(0.5f32.to_bits()), 0.5f32.to_bits());
    assert_eq!(flush_denormal_bits(1.0e-30f32.to_bits()), WORD_ZERO);
    assert_eq!(flush_denormal_bits((-1.0e-38f32).to_bits()), WORD_ZERO);
}

#[test]
fn sum_terms_list_enabled_channels_only() {
    let raw = group_of(0.1, [0.2, 0.1, 0.3, 0.4, 0.5]);
    let scaled = group_of(1.0, [2.0, 1.0, 3.0, 4.0, 5.0]);
    let mut c = scrolling_controls();
    c.en_aux2 = true;
    c.en_aux3 = true;
    // aux2 duplicates the main input, so its term is the zero word.
    assert_eq!(
        sum_terms_for(&raw, &scaled, &c),
        vec![1.0f32.to_bits(), WORD_ZERO, 3.0f32.to_bits()]
    );
    c.en_sum = false;
    assert_eq!(sum_terms_for(&raw, &scaled, &c), Vec::<u32>::new());
}

#[test]
fn scrolling_block_appends_samples_sums_and_quiet_markers() {
    let mut scope = Scrollscope::default();
    scope.set_display_length(4);
    let raws = vec![
        group_of(0.1, [0.0; 5]),
        group_of(0.2, [0.0; 5]),
    ];
    let scaleds = vec![
        group_of(0.3, [0.0; 5]),
        group_of(0.6, [0.0; 5]),
    ];
    let sums = vec![0.3f32.to_bits(), 0.6f32.to_bits()];
    let empty_g: Vec<SampleGroup> = Vec::new();
    let empty_w: Vec<u32> = Vec::new();
    scope.process_oscilloscope_block(
        &raws, &scaleds, &sums, &empty_g, &empty_g, &empty_w,
        &scrolling_controls(), &silent_transport(),
    );
    assert_eq!(
        scope.sample_buffer.get_samples(0),
        vec![WORD_ZERO, WORD_ZERO, 0.3f32.to_bits(), 0.6f32.to_bits()]
    );
    assert_eq!(
        scope.sample_buffer.get_samples(CHANNEL_SUM),
        vec![WORD_ZERO, WORD_ZERO, 0.3f32.to_bits(), 0.6f32.to_bits()]
    );
    // No boundary was seen, so the marker track advanced with zero words.
    assert_eq!(scope.sample_buffer.get_samples(CHANNEL_BEAT), vec![WORD_ZERO; 4]);
    assert_eq!(scope.state.in_place_index, 0);
}

#[test]
fn scrolling_block_on_a_beat_draws_one_marker_pair() {
    let mut scope = Scrollscope::default();
    scope.set_display_length(4);
    let raws = vec![group_of(0.1, [0.0; 5]), group_of(0.2, [0.0; 5])];
    let scaleds = raws.clone();
    let sums = vec![WORD_ZERO, WORD_ZERO];
    let empty_g: Vec<SampleGroup> = Vec::new();
    let empty_w: Vec<u32> = Vec::new();
    let rolling = Transport {
        playing: true,
        pos_beats_milli: Some(3000),
        pos_samples: None,
        tempo_milli_bpm: None,
        sample_rate_hz: 44100,
    };
    scope.process_oscilloscope_block(
        &raws, &scaleds, &sums, &empty_g, &empty_g, &empty_w,
        &scrolling_controls(), &rolling,
    );
    // Tick 0 pushed the spike pair, tick 1 a quiet word.
    assert_eq!(
        scope.sample_buffer.get_samples(CHANNEL_BEAT),
        vec![WORD_ZERO, 1.0f32.to_bits(), (-1.0f32).to_bits(), WORD_ZERO]
    );
}

#[test]
fn stereo_view_markers_use_the_wide_spikes() {
    let mut scope = Scrollscope::default();
    scope.set_display_length(4);
    let mut c = scrolling_controls();
    c.stereo_view = true;
    let raws = vec![group_of(0.1, [0.0; 5])];
    let sums = vec![WORD_ZERO];
    let empty_g: Vec<SampleGroup> = Vec::new();
    let empty_w: Vec<u32> = Vec::new();
    let rolling = Transport {
        playing: true,
        pos_beats_milli: Some(1000),
        pos_samples: None,
        tempo_milli_bpm: None,
        sample_rate_hz: 44100,
    };
    scope.process_oscilloscope_block(
        &raws, &raws, &sums, &empty_g, &empty_g, &empty_w, &c, &rolling,
    );
    assert_eq!(
        scope.sample_buffer.get_samples(CHANNEL_BEAT),
        vec![WORD_ZERO, WORD_ZERO, 2.1f32.to_bits(), (-2.1f32).to_bits()]
    );
}

#[test]
fn in_place_block_overwrites_from_the_window_start() {
    let mut scope = Scrollscope::default();
    scope.set_display_length(4);
    let mut c = scrolling_controls();
    c.sync_active = true;
    let on_boundary = Transport {
        playing: true,
        pos_beats_milli: Some(8000),
        pos_samples: None,
        tempo_milli_bpm: None,
        sample_rate_hz: 44100,
    };
    let raws = vec![
        group_of(0.1, [0.0; 5]),
        group_of(0.2, [0.0; 5]),
        group_of(0.3, [0.0; 5]),
    ];
    let sums = vec![WORD_ZERO; 3];
    let empty_g: Vec<SampleGroup> = Vec::new();
    let empty_w: Vec<u32> = Vec::new();
    scope.state.in_place_index = 2;
    scope.process_oscilloscope_block(
        &raws, &raws, &sums, &empty_g, &empty_g, &empty_w, &c, &on_boundary,
    );
    // The boundary rewound the cursor, so the three samples landed on
    // window elements 0..3 and the cursor rests at 3.
    assert_eq!(scope.sample_buffer.get_sample(0, 0), Some(0.1f32.to_bits()));
    assert_eq!(scope.sample_buffer.get_sample(0, 1), Some(0.2f32.to_bits()));
    assert_eq!(scope.sample_buffer.get_sample(0, 2), Some(0.3f32.to_bits()));
    assert_eq!(scope.state.in_place_index, 3);
    assert_eq!(scope.state.beat_threshold, 1);
    // The marker spike went to the rewound cursor, its partner one ahead,
    // and the later ticks wrote quiet words over their cursor cells.
    assert_eq!(
        scope.sample_buffer.get_sample(CHANNEL_BEAT, 0),
        Some(1.0f32.to_bits())
    );

    // A second block still on the same boundary must not rewind again.
    let raws2 = vec![group_of(0.4, [0.0; 5])];
    let sums2 = vec![WORD_ZERO];
    scope.process_oscilloscope_block(
        &raws2, &raws2, &sums2, &empty_g, &empty_g, &empty_w, &c, &on_boundary,
    );
    assert_eq!(scope.sample_buffer.get_sample(0, 3), Some(0.4f32.to_bits()));
    assert_eq!(scope.state.in_place_index, 4);
}

#[test]
fn in_place_overwrites_past_the_window_are_dropped() {
    let mut scope = Scrollscope::default();
    scope.set_display_length(2);
    let mut c = scrolling_controls();
    c.sync_active = true;
    let raws = vec![
        group_of(0.1, [0.0; 5]),
        group_of(0.2, [0.0; 5]),
        group_of(0.3, [0.0; 5]),
    ];
    let sums = vec![WORD_ZERO; 3];
    let empty_g: Vec<SampleGroup> = Vec::new();
    let empty_w: Vec<u32> = Vec::new();
    // Rolling transport away from any boundary: the stale cursor starts
    // at 1, the ticks walk it past the two-element window, and the later
    // writes are silent no-ops.
    let off_boundary = Transport {
        playing: true,
        pos_beats_milli: Some(4500),
        pos_samples: None,
        tempo_milli_bpm: None,
        sample_rate_hz: 44100,
    };
    scope.state.in_place_index = 1;
    scope.process_oscilloscope_block(
        &raws, &raws, &sums, &empty_g, &empty_g, &empty_w, &c, &off_boundary,
    );
    assert_eq!(scope.sample_buffer.get_sample(0, 0), Some(WORD_ZERO));
    assert_eq!(scope.sample_buffer.get_sample(0, 1), Some(0.1f32.to_bits()));
    assert_eq!(scope.state.in_place_index, 4);
}

#[test]
fn stopped_transport_freezes_capture_at_the_window_start() {
    let mut scope = Scrollscope::default();
    scope.set_display_length(3);
    let mut c = scrolling_controls();
    c.sync_active = true;
    let raws = vec![
        group_of(0.1, [0.0; 5]),
        group_of(0.2, [0.0; 5]),
        group_of(0.3, [0.0; 5]),
    ];
    let sums = vec![WORD_ZERO; 3];
    let empty_g: Vec<SampleGroup> = Vec::new();
    let empty_w: Vec<u32> = Vec::new();
    // Stopped but reporting transport: the cursor is rewound and held, so
    // every captured tick redraws window element 0 and nothing advances.
    let stopped = Transport {
        playing: false,
        pos_beats_milli: Some(4321),
        pos_samples: None,
        tempo_milli_bpm: None,
        sample_rate_hz: 44100,
    };
    scope.state.in_place_index = 2;
    scope.process_oscilloscope_block(
        &raws, &raws, &sums, &empty_g, &empty_g, &empty_w, &c, &stopped,
    );
    assert_eq!(scope.sample_buffer.get_sample(0, 0), Some(0.3f32.to_bits()));
    assert_eq!(scope.sample_buffer.get_sample(0, 1), Some(WORD_ZERO));
    assert_eq!(scope.state.in_place_index, 0);
}

#[test]
fn sync_without_transport_data_falls_back_to_scrolling() {
    let mut scope = Scrollscope::default();
    scope.set_display_length(2);
    let mut c = scrolling_controls();
    c.sync_active = true;
    let raws = vec![group_of(0.1, [0.0; 5]), group_of(0.2, [0.0; 5])];
    let sums = vec![WORD_ZERO; 2];
    let empty_g: Vec<SampleGroup> = Vec::new();
    let empty_w: Vec<u32> = Vec::new();
    // The host reports no beat position, so the primary strategy cannot
    // run; capture degrades to scrolling instead of freezing in place.
    let rolling_blind = Transport {
        playing: true,
        pos_beats_milli: None,
        pos_samples: None,
        tempo_milli_bpm: None,
        sample_rate_hz: 44100,
    };
    scope.state.in_place_index = 7;
    scope.process_oscilloscope_block(
        &raws, &raws, &sums, &empty_g, &empty_g, &empty_w, &c, &rolling_blind,
    );
    assert_eq!(
        scope.sample_buffer.get_samples(0),
        vec![0.1f32.to_bits(), 0.2f32.to_bits()]
    );
    assert_eq!(scope.state.in_place_index, 7);
}

#[test]
fn stereo_blocks_feed_both_stores() {
    let mut scope = Scrollscope::default();
    scope.set_display_length(2);
    let left = vec![group_of(0.1, [0.0; 5])];
    let right = vec![group_of(0.7, [0.0; 5])];
    let sums = vec![WORD_ZERO];
    scope.process_oscilloscope_block(
        &left, &left, &sums, &right, &right, &sums,
        &scrolling_controls(), &silent_transport(),
    );
    assert_eq!(
        scope.sample_buffer.get_samples(0),
        vec![WORD_ZERO, 0.1f32.to_bits()]
    );
    assert_eq!(
        scope.sample_buffer_2.get_samples(0),
        vec![WORD_ZERO, 0.7f32.to_bits()]
    );
}

#[test]
fn decimation_in_a_block_captures_every_third_tick() {
    let mut scope = Scrollscope::default();
    scope.set_display_length(3);
    let mut c = scrolling_controls();
    c.skip_factor = 3;
    let mut raws = Vec::new();
    for i in 0..9 {
        raws.push(group_of(i as f32 + 1.0, [0.0; 5]));
    }
    let sums = vec![WORD_ZERO; 9];
    let empty_g: Vec<SampleGroup> = Vec::new();
    let empty_w: Vec<u32> = Vec::new();
    scope.process_oscilloscope_block(
        &raws, &raws, &sums, &empty_g, &empty_g, &empty_w, &c, &silent_transport(),
    );
    // Ordinals 0, 3 and 6 were captured: samples 1.0, 4.0 and 7.0.
    assert_eq!(
        scope.sample_buffer.get_samples(0),
        vec![1.0f32.to_bits(), 4.0f32.to_bits(), 7.0f32.to_bits()]
    );
}

#[test]
fn clipping_hold_lasts_the_configured_ticks() {
    let mut scope = Scrollscope::default();
    scope.set_display_length(2);
    let raws = vec![group_of(0.9, [0.0; 5])];
    let scaleds = vec![group_of(1.5, [0.0; 5])];
    let sums = vec![WORD_ZERO];
    let empty_g: Vec<SampleGroup> = Vec::new();
    let empty_w: Vec<u32> = Vec::new();
    scope.process_oscilloscope_block(
        &raws, &scaleds, &sums, &empty_g, &empty_g, &empty_w,
        &scrolling_controls(), &silent_transport(),
    );
    assert!(scope.is_clipping());
    for _ in 0..(CLIP_HOLD_TICKS - 1) {
        scope.redraw_tick();
    }
    assert!(scope.is_clipping());
    scope.redraw_tick();
    assert!(!scope.is_clipping());
    scope.redraw_tick();
    assert!(!scope.is_clipping());
}

#[test]
fn analyzer_block_scrolls_data_channels_only() {
    let mut scope = Scrollscope::default();
    scope.set_display_length(2);
    let mut c = scrolling_controls();
    c.show_analyzer = true;
    c.sync_active = true;
    let raws = vec![group_of(0.1, [0.2, 0.0, 0.0, 0.0, 0.0])];
    let sums = vec![7.0f32.to_bits()];
    let empty_g: Vec<SampleGroup> = Vec::new();
    let empty_w: Vec<u32> = Vec::new();
    scope.process_block(
        &raws, &raws, &sums, &empty_g, &empty_g, &empty_w, &c, &silent_transport(),
    );
    assert_eq!(
        scope.sample_buffer.get_samples(0),
        vec![WORD_ZERO, 0.1f32.to_bits()]
    );
    assert_eq!(
        scope.sample_buffer.get_samples(1),
        vec![WORD_ZERO, 0.2f32.to_bits()]
    );
    // Marker and sum tracks are untouched in analyzer mode.
    assert_eq!(scope.sample_buffer.get_samples(CHANNEL_BEAT), vec![WORD_ZERO; 2]);
    assert_eq!(scope.sample_buffer.get_samples(CHANNEL_SUM), vec![WORD_ZERO; 2]);
    assert_eq!(scope.state.in_place_index, 0);
}

#[test]
fn empty_block_changes_nothing() {
    let mut scope = Scrollscope::default();
    scope.set_display_length(3);
    let empty_g: Vec<SampleGroup> = Vec::new();
    let empty_w: Vec<u32> = Vec::new();
    scope.process_oscilloscope_block(
        &empty_g, &empty_g, &empty_w, &empty_g, &empty_g, &empty_w,
        &scrolling_controls(), &silent_transport(),
    );
    assert_eq!(scope.sample_buffer.get_samples(0), vec![WORD_ZERO; 3]);
    assert_eq!(scope.state.in_place_index, 0);
    assert!(!scope.is_clipping());
}

#[test]
fn degenerate_skip_factor_captures_every_tick() {
    let mut scope = Scrollscope::default();
    scope.set_display_length(2);
    let mut c = scrolling_controls();
    c.skip_factor = 0;
    let raws = vec![group_of(0.1, [0.0; 5]), group_of(0.2, [0.0; 5])];
    let sums = vec![WORD_ZERO; 2];
    let empty_g: Vec<SampleGroup> = Vec::new();
    let empty_w: Vec<u32> = Vec::new();
    scope.process_oscilloscope_block(
        &raws, &raws, &sums, &empty_g, &empty_g, &empty_w, &c, &silent_transport(),
    );
    assert_eq!(
        scope.sample_buffer.get_samples(0),
        vec![0.1f32.to_bits(), 0.2f32.to_bits()]
    );
}

#[test]
fn process_block_adopts_a_changed_sample_rate() {
    let mut scope = Scrollscope::default();
    let raws = vec![group_of(0.1, [0.0; 5])];
    let sums = vec![WORD_ZERO];
    let empty_g: Vec<SampleGroup> = Vec::new();
    let empty_w: Vec<u32> = Vec::new();
    let mut t = silent_transport();
    t.sample_rate_hz = 48000;
    let c = scrolling_controls();
    scope.process_block(&raws, &raws, &sums, &empty_g, &empty_g, &empty_w, &c, &t);
    assert_eq!(scope.sample_rate_hz, 48000);
    // 100 ms at 48 kHz.
    assert_eq!(scope.sample_buffer.length(), 4800);
}
