use ytmtui::visualizer::{bar_bins_from_edges, SpectrumTap, BAR_COUNT, CHUNK_SAMPLES, FFT_SIZE};

const MIN_FREQ_HZ: f32 = 40.0;

/// The log-spaced bar edges of the analyzer, computed in floating point the
/// way the event loop does, then handed to the library.
fn build_bar_bins(fft_size: usize, sample_rate: u32, bar_count: usize) -> Vec<(usize, usize)> {
    let nyquist = sample_rate as f32 / 2.0;
    let max_bin = (fft_size / 2).max(2);
    let bin_hz = sample_rate as f32 / fft_size as f32;
    let mut edges = Vec::with_capacity(bar_count + 1);
    for i in 0..=bar_count {
        let t = i as f32 / bar_count as f32;
        let freq = MIN_FREQ_HZ * (nyquist / MIN_FREQ_HZ).powf(t);
        let bin = ((freq / bin_hz).round() as usize).clamp(1, max_bin - 1);
        edges.push(bin);
    }
    bar_bins_from_edges(&edges, max_bin)
}

#[test]
fn bar_bins_are_strictly_increasing_for_a_realistic_config() {
    let bins = build_bar_bins(FFT_SIZE, 44_100, BAR_COUNT);
    assert_eq!(bins.len(), BAR_COUNT);
    assert!(bins[0].0 >= 1, "must exclude the DC bin");
    for pair in bins.windows(2) {
        assert!(pair[0].1 <= pair[1].0);
        assert!(pair[0].0 < pair[0].1);
    }
}

#[test]
fn bar_bins_never_panic_when_bars_exceed_usable_bins() {
    let bins = build_bar_bins(8, 44_100, BAR_COUNT);
    assert_eq!(bins.len(), BAR_COUNT);
    for &(start, end) in &bins {
        assert!(start <= end);
    }
}

#[test]
fn colliding_edges_are_nudged_one_bin_apart_up_to_the_cap() {
    let bins = bar_bins_from_edges(&vec![1, 1, 1, 3, 2], 4);
    assert_eq!(bins, vec![(1, 2), (2, 3), (3, 3), (3, 3)]);
    let bins = bar_bins_from_edges(&vec![1, 2, 3], 10);
    assert_eq!(bins, vec![(1, 2), (2, 3)]);
    assert!(bar_bins_from_edges(&vec![], 10).is_empty());
}

#[test]
fn forwards_samples_unchanged_and_emits_matching_chunks() {
    let samples: Vec<i16> = (0..2500).map(|i| (i % 100) as i16).collect();
    let mut tap = SpectrumTap::new(2, 44_100);
    let mut forwarded = Vec::new();
    let mut chunks = Vec::new();
    for &s in &samples {
        if let Some(chunk) = tap.push(s) {
            chunks.push(chunk);
        }
        forwarded.push(s);
    }
    if let Some(chunk) = tap.flush() {
        chunks.push(chunk);
    }
    assert_eq!(forwarded, samples);

    let mut received = Vec::new();
    for chunk in &chunks {
        received.extend_from_slice(&chunk.data[..chunk.len]);
    }
    assert_eq!(received, samples);
    assert_eq!(chunks.len(), 3);
    assert_eq!(chunks[0].len, CHUNK_SAMPLES);
    assert_eq!(chunks[2].len, 2500 - 2 * CHUNK_SAMPLES);
    assert_eq!(chunks[0].channels, 2);
    assert_eq!(chunks[0].sample_rate, 44_100);
    assert!(tap.flush().is_none());
}
