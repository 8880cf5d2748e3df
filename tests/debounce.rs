use trumpet_synth::debouncer::Debouncer;

#[test]
fn debounce_test() {
    let mut debouncer = Debouncer::new(0);

    let states = [false, true, false, false, false];

    for &state in states.iter() {
        debouncer.update(state);
        println!("{:?}", debouncer.is_high());
        println!("{:?}", debouncer);
        println!("{:?}\n", debouncer.is_high());
        // A threshold of 0 passes every reading straight through.
        assert_eq!(debouncer.is_high(), Some(state));
    }
}

#[test]
fn debouncer_unknown_before_first_acceptance() {
    let mut debouncer = Debouncer::new(3);
    assert_eq!(debouncer.is_high(), None);
    debouncer.update(true);
    debouncer.update(true);
    assert_eq!(debouncer.is_high(), None);
    debouncer.update(true);
    assert_eq!(debouncer.is_high(), Some(true));
}

#[test]
fn debouncer_hold_of_threshold_ticks_is_accepted() {
    let mut debouncer = Debouncer::new(4);
    for _ in 0..4 {
        debouncer.update(false);
    }
    assert_eq!(debouncer.is_high(), Some(false));
    for _ in 0..3 {
        debouncer.update(true);
        assert_eq!(debouncer.is_high(), Some(false));
    }
    debouncer.update(true);
    assert_eq!(debouncer.is_high(), Some(true));
}

#[test]
fn debouncer_short_holds_never_change_output() {
    let mut debouncer = Debouncer::new(3);
    for _ in 0..3 {
        debouncer.update(true);
    }
    assert_eq!(debouncer.is_high(), Some(true));
    // Runs of at most two ticks, below the threshold of three.
    let signal = [false, false, true, false, true, true, false, false, true];
    for &raw in signal.iter() {
        debouncer.update(raw);
        assert_eq!(debouncer.is_high(), Some(true));
    }
}

#[test]
fn debouncer_interrupted_run_starts_over() {
    let mut debouncer = Debouncer::new(2);
    debouncer.update(false);
    debouncer.update(false);
    assert_eq!(debouncer.is_high(), Some(false));
    debouncer.update(true);
    debouncer.update(false);
    debouncer.update(true);
    assert_eq!(debouncer.is_high(), Some(false));
    debouncer.update(true);
    assert_eq!(debouncer.is_high(), Some(true));
}

#[test]
fn debouncer_threshold_one_accepts_at_once() {
    let mut debouncer = Debouncer::new(1);
    debouncer.update(true);
    assert_eq!(debouncer.is_high(), Some(true));
    debouncer.update(false);
    assert_eq!(debouncer.is_high(), Some(false));
}
