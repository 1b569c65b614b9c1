use sine::{get_preset_name, Selector, Strategy};

#[test]
fn preset_names_match_the_table() {
    assert_eq!(get_preset_name(0), "Silence");
    assert_eq!(get_preset_name(1), "32 bit float");
    assert_eq!(get_preset_name(2), "64 bit float");
    assert_eq!(get_preset_name(3), "32 bit float with wrapping");
    assert_eq!(get_preset_name(4), "64 bit float with wrapping");
    assert_eq!(get_preset_name(5), "Integer: counting samples");
}

#[test]
fn preset_names_outside_the_table_are_silence() {
    assert_eq!(get_preset_name(-1), "Silence");
    assert_eq!(get_preset_name(6), "Silence");
    assert_eq!(get_preset_name(42), "Silence");
    assert_eq!(get_preset_name(i32::MIN), "Silence");
    assert_eq!(get_preset_name(i32::MAX), "Silence");
}

#[test]
fn preset_mapping_reports_its_own_index() {
    let mut s = Selector::default();
    for i in 0..=5 {
        s.select_strategy(i);
        assert_eq!(s.current_strategy_id(), i);
    }
}

#[test]
fn unknown_preset_selects_silence() {
    let mut s = Selector::default();
    for i in [-3, 6, 1_000_000, i32::MIN, i32::MAX] {
        s.select_strategy(1);
        s.select_strategy(i);
        assert_eq!(s.current_strategy_id(), 0);
        assert!(matches!(s.active, Strategy::Silence(_)));
    }
}

#[test]
fn selector_default_is_integer_at_44100() {
    let s = Selector::default();
    assert_eq!(s.sample_rate, 44100);
    assert_eq!(s.current_strategy_id(), 5);
    assert!(matches!(s.active, Strategy::Integer(_)));
}

#[test]
fn select_strategy_discards_phase_but_keeps_rate() {
    let mut s = Selector::new(50);
    s.select_strategy(1);
    s.process(1, 20);
    match &s.active {
        Strategy::F32(p) => assert_eq!(p.time_offset, 20),
        _ => panic!("preset 1 must select the 32-bit strategy"),
    }
    // Selecting the preset again rebuilds the strategy from the tracked
    // rate: the accumulated phase is discarded.
    s.select_strategy(1);
    match &s.active {
        Strategy::F32(p) => {
            assert_eq!(p.time_offset, 0);
            assert_eq!(p.sample_rate, 50);
        }
        _ => panic!("preset 1 must select the 32-bit strategy"),
    }
    let out = s.process(2, 3);
    assert_eq!(out[0], vec![0, 1, 2]);
    assert_eq!(out[1], vec![0, 1, 2]);
}

#[test]
fn rate_change_reaches_selector_and_strategy() {
    let mut s = Selector::new(100);
    s.select_strategy(5);
    s.process(1, 7);
    s.on_sample_rate_changed(250);
    assert_eq!(s.sample_rate, 250);
    match &s.active {
        Strategy::Integer(p) => {
            assert_eq!(p.sample_rate, 250);
            // The accumulated counter is kept across a rate change.
            assert_eq!(p.samples, 7);
        }
        _ => panic!("preset 5 must select the integer strategy"),
    }
}
