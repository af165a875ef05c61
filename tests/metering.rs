use broadcast_terminal::metering::{
    next_level, source_of, BusEvent, ConsumerAction, LevelSource, LevelUpdate, Levels, Meter, FULL_SCALE,
};

#[test]
fn full_scale_and_tenth_pass_through() {
    let mut m = Meter::new();
    let r = m.measure(LevelSource::Output, &vec![FULL_SCALE, 100_000]);
    assert_eq!(
        r,
        Some(LevelUpdate { source: LevelSource::Output, levels: Levels { left: 1_000_000, right: 100_000 } })
    );
}

#[test]
fn release_is_five_percent_per_tick() {
    assert_eq!(next_level(0, 1_000_000), 950_000);
    assert_eq!(next_level(0, 950_000), 902_500);
    assert_eq!(next_level(0, 10), 10);
    assert_eq!(next_level(0, 0), 0);
    assert_eq!(next_level(0, 21), 20);
    assert_eq!(next_level(960_000, 1_000_000), 960_000);
    assert_eq!(next_level(900_000, 1_000_000), 950_000);
}

#[test]
fn envelope_never_drops_more_than_five_percent() {
    let readings: Vec<u32> = vec![1_000_000, 0, 0, 500_000, 0, 990_000, 10, 0, 0, 0];
    let mut prev: u32 = 0;
    for r in readings {
        let next = next_level(r, prev);
        assert!(100 * next as u64 >= 95 * prev as u64);
        assert!(next >= r);
        prev = next;
    }
}

#[test]
fn malformed_measurement_is_dropped() {
    let mut m = Meter::new();
    m.measure(LevelSource::Mic, &vec![500_000, 400_000]);
    let before = m;
    assert_eq!(m.measure(LevelSource::Mic, &vec![900_000]), None);
    assert_eq!(m.measure(LevelSource::Mic, &vec![]), None);
    assert_eq!(m, before);
    let r = m.measure(LevelSource::Mic, &vec![0, 600_000]).unwrap();
    assert_eq!(r.levels, Levels { left: 475_000, right: 600_000 });
}

#[test]
fn channels_are_kept_apart() {
    let mut m = Meter::new();
    m.measure_named("output_level", &vec![800_000, 700_000]);
    m.measure_named("mic_level", &vec![100_000, 200_000]);
    assert_eq!(m.levels(LevelSource::Output), Levels { left: 800_000, right: 700_000 });
    assert_eq!(m.levels(LevelSource::Mic), Levels { left: 100_000, right: 200_000 });
    assert_eq!(m.measure_named("other", &vec![1, 2]), None);
    assert_eq!(m.levels(LevelSource::Output), Levels { left: 800_000, right: 700_000 });
}

#[test]
fn source_names() {
    assert_eq!(source_of("output_level"), Some(LevelSource::Output));
    assert_eq!(source_of("mic_level"), Some(LevelSource::Mic));
    assert_eq!(source_of("mic_leve"), None);
    assert_eq!(source_of(""), None);
}

#[test]
fn consumer_events() {
    let mut m = Meter::new();
    let bad = BusEvent::Measurement { element: "output_level".to_string(), amplitudes: vec![5] };
    assert_eq!(m.on_event(&bad), ConsumerAction::Continue);
    let good = BusEvent::Measurement { element: "output_level".to_string(), amplitudes: vec![5, 6] };
    assert_eq!(
        m.on_event(&good),
        ConsumerAction::Publish(LevelUpdate { source: LevelSource::Output, levels: Levels { left: 5, right: 6 } })
    );
    assert_eq!(m.on_event(&BusEvent::Other), ConsumerAction::Continue);
    assert_eq!(m.on_event(&BusEvent::EndOfStream), ConsumerAction::Stop);
    assert_eq!(m.on_event(&BusEvent::Error), ConsumerAction::Fatal);
}
