use rust_ia64::cpu::speculation::SpeculationState;

#[test]
fn test_speculation_state() {
    let mut state = SpeculationState::new();
    assert!(!state.is_speculative());
    assert_eq!(state.get_recovery_ip(), 0);

    // Enter speculation
    state.enter_speculation(0x1000);
    assert!(state.is_speculative());
    assert_eq!(state.get_recovery_ip(), 0x1000);

    // Exit speculation
    state.exit_speculation();
    assert!(!state.is_speculative());
    assert_eq!(state.get_recovery_ip(), 0);
}

#[test]
fn test_speculation_recovery() {
    let mut state = SpeculationState::new();

    // Set up recovery point
    state.enter_speculation(0x2000);
    assert_eq!(state.get_recovery_ip(), 0x2000);

    // Simulate recovery
    let recovery_ip = state.get_recovery_ip();
    state.exit_speculation();
    assert!(!state.is_speculative());
    assert_eq!(recovery_ip, 0x2000);
}

#[test]
fn test_nested_speculation() {
    let mut state = SpeculationState::new();

    // First level
    state.enter_speculation(0x1000);
    assert!(state.is_speculative());
    assert_eq!(state.get_recovery_ip(), 0x1000);

    // Second level (overrides first)
    state.enter_speculation(0x2000);
    assert!(state.is_speculative());
    assert_eq!(state.get_recovery_ip(), 0x2000);

    // Exit inner level
    state.exit_speculation();
    assert!(!state.is_speculative());
}
