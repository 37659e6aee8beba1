use scrollscope::store::{SampleStore, CHANNEL_MAIN, CHANNEL_SUM, MAX_BUFFER_LEN, NUM_CHANNELS};
use scrollscope::words::WORD_ZERO;

#[test]
fn store_new_is_zeroed_at_clamped_length() {
    let store = SampleStore::new(5);
    assert_eq!(store.length(), 5);
    for ch in 0..NUM_CHANNELS {
        assert_eq!(store.get_samples(ch), vec![WORD_ZERO; 5]);
    }
}

#[test]
fn store_new_clamps_degenerate_sizes() {
    assert_eq!(SampleStore::new(0).length(), 1);
    assert_eq!(SampleStore::new(usize::MAX).length(), MAX_BUFFER_LEN);
}

#[test]
fn store_push_scrolls_one_channel_only() {
    let mut store = SampleStore::new(3);
    store.push_sample(2, 1.0f32.to_bits());
    store.push_sample(2, 2.0f32.to_bits());
    assert_eq!(
        store.get_samples(2),
        vec![WORD_ZERO, 1.0f32.to_bits(), 2.0f32.to_bits()]
    );
    assert_eq!(store.get_samples(0), vec![WORD_ZERO; 3]);
}

#[test]
fn store_push_batch_applies_in_order_and_skips_bad_channels() {
    let mut store = SampleStore::new(2);
    let batch = vec![
        (0usize, 1.0f32.to_bits()),
        (0usize, 2.0f32.to_bits()),
        (99usize, 9.0f32.to_bits()),
        (CHANNEL_SUM, 3.0f32.to_bits()),
    ];
    store.push_samples(&batch);
    assert_eq!(store.get_samples(0), vec![1.0f32.to_bits(), 2.0f32.to_bits()]);
    assert_eq!(store.get_samples(CHANNEL_SUM), vec![WORD_ZERO, 3.0f32.to_bits()]);
}

#[test]
fn store_read_of_unknown_channel_is_empty() {
    let store = SampleStore::new(4);
    assert_eq!(store.get_samples(NUM_CHANNELS), Vec::<u32>::new());
    assert_eq!(store.get_samples(250), Vec::<u32>::new());
    assert_eq!(store.get_sample(NUM_CHANNELS, 0), None);
}

#[test]
fn store_overwrite_out_of_window_is_silent_noop() {
    let mut store = SampleStore::new(3);
    store.push_sample(0, 1.0f32.to_bits());
    let before = store.get_samples(0);
    store.update_sample(0, 3, 9.0f32.to_bits());
    store.update_sample(0, usize::MAX, 9.0f32.to_bits());
    store.update_sample(42, 0, 9.0f32.to_bits());
    assert_eq!(store.get_samples(0), before);
}

#[test]
fn store_overwrite_in_window_updates_one_element() {
    let mut store = SampleStore::new(3);
    store.update_sample(1, 1, 5.0f32.to_bits());
    assert_eq!(
        store.get_samples(1),
        vec![WORD_ZERO, 5.0f32.to_bits(), WORD_ZERO]
    );
    assert_eq!(store.get_sample(1, 1), Some(5.0f32.to_bits()));
}

#[test]
fn store_resize_clamps_and_keeps_reading_defined() {
    let mut store = SampleStore::new(10);
    store.update_internal_length(0);
    assert_eq!(store.length(), 1);
    store.update_internal_length(usize::MAX);
    assert_eq!(store.length(), MAX_BUFFER_LEN);
}

#[test]
fn store_shrink_then_grow_interleaved_with_pushes() {
    let mut store = SampleStore::new(4);
    for x in [1.0f32, 2.0, 3.0, 4.0] {
        store.push_sample(CHANNEL_MAIN, x.to_bits());
    }
    store.update_internal_length(2);
    assert_eq!(store.length(), 2);
    store.push_sample(0, 5.0f32.to_bits());
    let small = store.get_samples(0);
    assert_eq!(small.len(), 2);
    assert_eq!(small[1], 5.0f32.to_bits());
    store.update_internal_length(6);
    assert_eq!(store.length(), 6);
    store.push_sample(0, 6.0f32.to_bits());
    let grown = store.get_samples(0);
    assert_eq!(grown.len(), 6);
    assert!(grown.contains(&6.0f32.to_bits()));
    // Cells reused by the growth were zeroed, so nothing stale resurfaces.
    for w in grown.iter() {
        assert!(
            *w == WORD_ZERO
                || *w == 1.0f32.to_bits()
                || *w == 2.0f32.to_bits()
                || *w == 5.0f32.to_bits()
                || *w == 6.0f32.to_bits()
        );
    }
    assert!(!grown.contains(&3.0f32.to_bits()));
    assert!(!grown.contains(&4.0f32.to_bits()));
}

#[test]
fn store_flushed_samples_with_length_caps_at_window() {
    let mut store = SampleStore::new(3);
    store.push_sample(0, 1.0e-30f32.to_bits());
    store.push_sample(0, 0.25f32.to_bits());
    let flushed = store.get_flushed_samples_with_length(0, 100);
    assert_eq!(flushed, vec![WORD_ZERO, WORD_ZERO, 0.25f32.to_bits()]);
    assert_eq!(store.get_flushed_samples_with_length(99, 4), Vec::<u32>::new());
}
