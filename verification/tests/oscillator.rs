use sine::{
    F32Processor, F32ProcessorWithWrapping, F64Processor, F64ProcessorWithWrapping, IntProcessor,
    Selector, Silence, Strategy, CARRIER_HZ,
};

use std::f64::consts::PI;

/// The sample the host plays for phase numerator `n` at rate `rate`.
fn sample_f64(n: u64, rate: u64) -> f64 {
    (2.0 * PI * CARRIER_HZ as f64 * (n as f64 / rate as f64)).sin()
}

#[test]
fn silence_renders_zero_phases() {
    let mut s = Silence::new();
    let out = s.process(2, 64);
    assert_eq!(out.len(), 2);
    for row in &out {
        assert_eq!(row.len(), 64);
        for &n in row {
            assert_eq!(n, 0);
            assert_eq!(sample_f64(n, 44100), 0.0);
        }
    }
}

#[test]
fn silence_zero_frames_is_noop() {
    let mut s = Silence::new();
    let out = s.process(2, 0);
    assert_eq!(out.len(), 2);
    assert!(out[0].is_empty());
    assert!(out[1].is_empty());
}

#[test]
fn f32_phases_advance_once_per_block() {
    let mut p = F32Processor::new(44100);
    let out = p.process(1, 100);
    assert_eq!(out[0], (0..100).collect::<Vec<u64>>());
    assert_eq!(p.time_offset, 100);
    let out2 = p.process(1, 50);
    assert_eq!(out2[0], (100..150).collect::<Vec<u64>>());
    assert_eq!(p.time_offset, 150);
    assert_eq!(p.sample_rate, 44100);
}

#[test]
fn f64_channels_are_phase_identical() {
    let mut p = F64Processor::new(48000);
    let out = p.process(2, 10);
    assert_eq!(out.len(), 2);
    assert_eq!(out[0], out[1]);
    assert_eq!(out[0], (0..10).collect::<Vec<u64>>());
    assert_eq!(p.time_offset, 10);
}

#[test]
fn scenario_rate_44100_preset_1_first_samples() {
    let mut s = Selector::default();
    s.select_strategy(1);
    let out = s.process(1, 100);
    assert_eq!(out[0].len(), 100);
    assert_eq!(out[0][0], 0);
    assert_eq!(out[0][1], 1);
    let sample0 = (2.0_f32 * std::f32::consts::PI * 440.0 * (0.0 / 44100.0)).sin();
    assert_eq!(sample0, 0.0);
    let sample1 = (2.0_f32 * std::f32::consts::PI * 440.0 * (out[0][1] as f32 / 44100.0)).sin();
    let expected1 = (2.0_f32 * std::f32::consts::PI * 440.0 / 44100.0).sin();
    assert!((sample1 - expected1).abs() < 1e-6);
}

#[test]
fn scenario_rate_8_preset_3_wraps_and_ends_below_one() {
    let mut s = Selector::new(8);
    s.select_strategy(3);
    let out = s.process(1, 16);
    let expected: Vec<u64> = (0..16).map(|i| i % 8).collect();
    assert_eq!(out[0], expected);
    // The running phase crossed one full second and reset to zero exactly.
    assert_eq!(out[0][7], 7);
    assert_eq!(out[0][8], 0);
    match &s.active {
        Strategy::F32Wrapping(p) => {
            // The committed offset wrapped as well and ends strictly below
            // one second (numerator strictly below the rate).
            assert_eq!(p.time_offset, 0);
            assert!(p.time_offset < p.sample_rate);
        }
        _ => panic!("preset 3 must select the wrapping 32-bit strategy"),
    }
}

#[test]
fn wrapping_phase_stays_below_one_cycle() {
    let mut p = F32ProcessorWithWrapping::new(5);
    let out = p.process(1, 23);
    for (i, &n) in out[0].iter().enumerate() {
        assert!(n < 5);
        assert_eq!(n, (i as u64) % 5);
    }
}

#[test]
fn wrapping_commit_resets_exactly() {
    let mut p = F64ProcessorWithWrapping::new(10);
    p.process(1, 7);
    assert_eq!(p.time_offset, 7);
    p.process(1, 3);
    // 7 + 3 reaches one full second: the committed offset resets to zero.
    assert_eq!(p.time_offset, 0);
}

#[test]
fn continuity_split_equals_single_f32() {
    let mut single = F32Processor::new(44100);
    let mut split = F32Processor::new(44100);
    let whole = single.process(1, 100);
    let first = split.process(1, 60);
    let second = split.process(1, 40);
    let mut joined = first[0].clone();
    joined.extend_from_slice(&second[0]);
    assert_eq!(whole[0], joined);
    assert_eq!(single.time_offset, split.time_offset);
}

#[test]
fn continuity_split_equals_single_wrapping() {
    let mut single = F64ProcessorWithWrapping::new(8);
    let mut split = F64ProcessorWithWrapping::new(8);
    let whole = single.process(1, 6);
    let first = split.process(1, 3);
    let second = split.process(1, 3);
    let mut joined = first[0].clone();
    joined.extend_from_slice(&second[0]);
    assert_eq!(whole[0], joined);
    assert_eq!(single.time_offset, split.time_offset);
    assert_eq!(single.time_offset, 6);
}

#[test]
fn continuity_wrapping_split_at_boundary() {
    let mut single = F32ProcessorWithWrapping::new(8);
    let mut split = F32ProcessorWithWrapping::new(8);
    let whole = single.process(1, 12);
    let first = split.process(1, 8);
    let second = split.process(1, 4);
    let mut joined = first[0].clone();
    joined.extend_from_slice(&second[0]);
    // The first call lands exactly on the wrap boundary, so the split still
    // renders the frames of the single call...
    assert_eq!(whole[0], joined);
    // ...but the committed offsets drift apart: the single call folds its
    // crossing into one reset while the split's second call never crossed.
    assert_eq!(single.time_offset, 0);
    assert_eq!(split.time_offset, 4);
}

#[test]
fn continuity_integer_split_plays_the_same_tone() {
    let mut single = IntProcessor::new(7);
    let mut split = IntProcessor::new(7);
    let whole = single.process(1, 13);
    let first = split.process(1, 8);
    let second = split.process(1, 5);
    assert_eq!(whole[0][..8], first[0][..]);
    for i in 0..5 {
        let a = whole[0][8 + i];
        let b = second[0][i];
        // The numerators agree modulo the rate, so they denote the same
        // sample: they differ by a whole number of carrier cycles.
        assert_eq!(a % 7, b % 7);
        assert!((sample_f64(a, 7) - sample_f64(b, 7)).abs() < 1e-6);
    }
    assert_eq!(single.samples, split.samples);
}

#[test]
fn int_counter_stays_bounded() {
    let mut p = IntProcessor::new(10);
    let out = p.process(1, 25);
    assert_eq!(out[0], (0..25).collect::<Vec<u64>>());
    assert_eq!(p.samples, 5);
    assert!(p.samples < p.sample_rate);
    let out2 = p.process(1, 9);
    assert_eq!(out2[0], (5..14).collect::<Vec<u64>>());
    assert_eq!(p.samples, 4);
    assert!(p.samples < p.sample_rate);
}

#[test]
fn rate_change_keeps_numerator() {
    let mut p = F32Processor::new(100);
    p.process(1, 30);
    assert_eq!(p.time_offset, 30);
    // The numerator is kept as it is, so the offset read in seconds is
    // re-denominated: 30 frames meant 0.3 s at rate 100 and mean 0.15 s at
    // rate 200.
    p.set_sample_rate(200);
    assert_eq!(p.time_offset, 30);
    assert_eq!(p.sample_rate, 200);
    let out = p.process(1, 5);
    assert_eq!(out[0], (30..35).collect::<Vec<u64>>());
}

#[test]
fn wrapping_rate_drop_keeps_offset() {
    let mut p = F32ProcessorWithWrapping::new(10);
    p.process(1, 7);
    assert_eq!(p.time_offset, 7);
    // A rate change never resets phase state, even when the lowered rate
    // leaves the stored offset past one full second.
    p.set_sample_rate(5);
    assert_eq!(p.time_offset, 7);
    assert_eq!(p.sample_rate, 5);
    // The next block renders the out-of-cycle offset unwrapped for one
    // frame; the per-sample policy wraps to zero at the very next step.
    let out = p.process(1, 4);
    assert_eq!(out[0], vec![7, 0, 1, 2]);
    assert_eq!(p.time_offset, 0);
}

#[test]
fn zero_frames_advance_nothing() {
    let mut f = F64Processor::new(44100);
    f.process(1, 20);
    let out = f.process(1, 0);
    assert!(out[0].is_empty());
    assert_eq!(f.time_offset, 20);

    let mut w = F32ProcessorWithWrapping::new(9);
    w.process(1, 4);
    w.process(1, 0);
    assert_eq!(w.time_offset, 4);

    let mut n = IntProcessor::new(9);
    n.process(1, 4);
    n.process(1, 0);
    assert_eq!(n.samples, 4);
}
