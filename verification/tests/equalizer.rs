use hfmodem::EqMode;
use hfmodem::equalizer::shift_in_decision;
use hfmodem::equalizer::should_switch_to_dd;

#[test]
fn test_eq_modes_are_distinct() {
    assert_eq!(EqMode::CMA, EqMode::CMA);
    assert_eq!(EqMode::DD, EqMode::DD);
    assert_ne!(EqMode::CMA, EqMode::DD);
}

#[test]
fn test_switch_needs_minimum_symbols() {
    // Below the minimum symbol count the switch is never allowed.
    assert!(!should_switch_to_dd(0, 50, true, true));
    assert!(!should_switch_to_dd(49, 50, true, true));
    // From the minimum on, both error conditions decide.
    assert!(should_switch_to_dd(50, 50, true, true));
    assert!(should_switch_to_dd(1000, 50, true, true));
}

#[test]
fn test_switch_needs_both_error_conditions() {
    assert!(!should_switch_to_dd(100, 50, false, true));
    assert!(!should_switch_to_dd(100, 50, true, false));
    assert!(!should_switch_to_dd(100, 50, false, false));
    assert!(should_switch_to_dd(100, 50, true, true));
}

#[test]
fn test_shift_in_decision_order() {
    let mut history: Vec<u8> = vec![1, 2, 3, 4];
    shift_in_decision(&mut history, 9);
    assert_eq!(history, vec![9, 1, 2, 3]);
    shift_in_decision(&mut history, 7);
    assert_eq!(history, vec![7, 9, 1, 2]);
}

#[test]
fn test_shift_in_decision_single_slot() {
    let mut history: Vec<u8> = vec![5];
    shift_in_decision(&mut history, 6);
    assert_eq!(history, vec![6]);
}
