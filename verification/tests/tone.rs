use notesynth::tone::ToneGenerator;

/// Amplitude of sample `k` of a sine tone of `freq` Hz, as a playback sink
/// computes it from the index the generator yields.
fn amplitude(freq: f64, k: u64) -> f64 {
    let t = k as f64 / 44100.0;
    (2.0 * std::f64::consts::PI * freq * t).sin() * 0.5
}

#[test]
fn one_second_yields_44100_samples() {
    let total = (1.0_f64 * 44100.0).floor() as u64;
    let mut generator = ToneGenerator::new(total);
    let mut count: u64 = 0;
    while let Some(k) = generator.produce_next_sample() {
        assert_eq!(k, count);
        count += 1;
    }
    assert_eq!(count, 44100);
    // Once exhausted, it stays exhausted.
    assert_eq!(generator.produce_next_sample(), None);
    assert_eq!(generator.produce_next_sample(), None);
}

#[test]
fn zero_duration_yields_no_samples() {
    let total = (0.0_f64 * 44100.0).floor() as u64;
    let mut generator = ToneGenerator::new(total);
    assert_eq!(generator.produce_next_sample(), None);
    let mut again = ToneGenerator::new(0);
    assert!(again.collect_remaining().is_empty());
}

#[test]
fn sample_values_stay_in_half_range() {
    for freq in [27.5, 261.63, 440.0, 3951.07] {
        let mut generator = ToneGenerator::new(4410);
        while let Some(k) = generator.produce_next_sample() {
            let value = amplitude(freq, k);
            assert!((-0.5..=0.5).contains(&value), "{} at {}", value, k);
        }
    }
}

#[test]
fn first_sample_is_zero() {
    for freq in [27.5, 261.63, 440.0, 3951.07] {
        let mut generator = ToneGenerator::new(100);
        let first = generator.produce_next_sample().unwrap();
        assert_eq!(first, 0);
        assert_eq!(amplitude(freq, first), 0.0);
    }
}

#[test]
fn metadata_is_fixed() {
    let generator = ToneGenerator::new(44100);
    assert_eq!(generator.channel_count(), 1);
    assert_eq!(generator.sample_rate(), 44100);
    assert_eq!(generator.total_samples(), 44100);
    assert_eq!(generator.elapsed_samples(), 0);
}

#[test]
fn collect_remaining_yields_indices_in_order() {
    let mut generator = ToneGenerator::new(5);
    assert_eq!(generator.produce_next_sample(), Some(0));
    let rest = generator.collect_remaining();
    assert_eq!(rest, vec![1, 2, 3, 4]);
    assert_eq!(generator.elapsed_samples(), 5);
    assert_eq!(generator.produce_next_sample(), None);
}
