use telemetry::RateGate;

#[test]
fn greedy_suppression_matches_the_interval() {
    let mut gate = RateGate::new(100);
    let ticks = [0u64, 40, 90, 101, 150, 205];
    let accepted: Vec<u64> = ticks
        .iter()
        .copied()
        .filter(|&t| gate.try_emit(t))
        .collect();
    assert_eq!(accepted, vec![0, 101, 205]);
}

#[test]
fn run_ticks_reports_every_decision() {
    let mut gate = RateGate::new(100);
    let marks = gate.run_ticks(&vec![0, 40, 90, 101, 150, 205]);
    assert_eq!(marks, vec![true, false, false, true, false, true]);
    assert_eq!(gate.last_emit_ms, Some(205));
}

#[test]
fn first_invocation_is_always_accepted() {
    let mut gate = RateGate::new(1000);
    assert!(gate.try_emit(3));
    assert!(!gate.try_emit(900));
}

#[test]
fn gate_only_caps_a_slow_sampler() {
    let mut gate = RateGate::new(100);
    let ticks = [0u64, 250, 500, 1000];
    let accepted: Vec<u64> = ticks
        .iter()
        .copied()
        .filter(|&t| gate.try_emit(t))
        .collect();
    assert_eq!(accepted, vec![0, 250, 500, 1000]);
}

#[test]
fn state_advances_only_on_an_accepted_invocation() {
    let mut gate = RateGate::new(100);
    assert!(gate.try_emit(50));
    assert_eq!(gate.last_emit_ms, Some(50));
    assert!(!gate.try_emit(149));
    assert_eq!(gate.last_emit_ms, Some(50));
    assert!(gate.try_emit(150));
    assert_eq!(gate.last_emit_ms, Some(150));
}

#[test]
fn a_clock_step_backwards_does_not_emit() {
    let mut gate = RateGate::new(100);
    assert!(gate.try_emit(500));
    assert!(!gate.try_emit(10));
    assert_eq!(gate.last_emit_ms, Some(500));
}
