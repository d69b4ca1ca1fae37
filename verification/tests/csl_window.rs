use openthread::csl::{csl_drift, csl_margin, CslState};
use openthread::instance::OTInstance;

#[test]
fn drift_rounds_up() {
    // 1 s at 20 ppm is exactly 20 us
    assert_eq!(csl_drift(1_000_000, 20), 20);
    // any remainder rounds up
    assert_eq!(csl_drift(1_000_001, 20), 21);
    assert_eq!(csl_drift(1, 20), 1);
    assert_eq!(csl_drift(0, 20), 0);
    assert_eq!(csl_drift(1_000_000, 0), 0);
}

#[test]
fn margin_is_uncertainty_plus_drift() {
    // uncertainty of 15 (10-us units) and 1 s at 20 ppm: 150 + 20 us
    assert_eq!(csl_margin(15, 20, 1_000_000), 170);
    assert_eq!(csl_margin(0, 0, 0), 0);
}

#[test]
fn window_brackets_the_sample_time() {
    let mut s = CslState::new(20, 15);
    s.enable(3_125_000, 0x2001, [1, 2, 3, 4, 5, 6, 7, 8]);
    s.update_sample_time(10_000_000);
    let w = s.receive_window(1_000_000);
    assert!(w.start <= 10_000_000 && 10_000_000 <= w.end);
    assert_eq!(w.start, 10_000_000 - 170);
    assert_eq!(w.end, 10_000_000 + 170);
    assert!(w.end - w.start >= 2 * 150);
}

#[test]
fn window_widens_as_drift_accumulates() {
    let mut s = CslState::new(100, 10);
    s.update_sample_time(60_000_000);
    let early = s.receive_window(0);
    let late = s.receive_window(10_000_000);
    assert!(late.start < early.start);
    assert!(late.end > early.end);
    assert!(early.end - early.start >= 2 * 100);
    assert_eq!(late.start, 60_000_000 - 100 - 1000);
    assert_eq!(late.end, 60_000_000 + 100 + 1000);
}

#[test]
fn enable_with_zero_period_disables() {
    let mut s = CslState::new(0, 0);
    s.enable(1000, 1, [0; 8]);
    assert!(s.enabled);
    s.enable(0, 1, [0; 8]);
    assert!(!s.enabled);
}

#[test]
fn reset_clears_writer_controlled_fields_only() {
    let mut s = CslState::new(55, 7);
    s.enable(1000, 1, [0; 8]);
    s.update_sample_time(42);
    s.reset();
    assert!(!s.enabled);
    assert_eq!(s.period, 0);
    assert_eq!(s.sample_time, 0);
    assert_eq!(s.accuracy(), 55);
    assert_eq!(s.uncertainty(), 7);
}

#[test]
fn instance_csl_entry_points() {
    let mut inst = OTInstance::new(0, 40, 12);
    assert_eq!(inst.get_csl_accuracy(), 40);
    assert_eq!(inst.get_csl_uncertainty(), 12);
    assert!(inst.enable_csl(6_250_000, 0x0002, [9, 9, 9, 9, 9, 9, 9, 9]).is_ok());
    assert!(inst.csl.enabled);
    inst.update_csl_sample_time(123_456_789);
    assert_eq!(inst.csl.sample_time, 123_456_789);
    // updating the sample time is no radio transition
    assert!(matches!(inst.get_state(), openthread::radio::OTRadioState::Disabled));
    assert!(inst.reset_csl().is_ok());
    assert!(!inst.csl.enabled);
    assert_eq!(inst.get_csl_accuracy(), 40);
}

#[test]
fn instance_receive_window_uses_driver_bounds() {
    let mut inst = OTInstance::new(0, 20, 15);
    assert!(inst.enable_csl(3_125_000, 0x2001, [1, 2, 3, 4, 5, 6, 7, 8]).is_ok());
    inst.update_csl_sample_time(10_000_000);
    let w = inst.csl_receive_window(1_000_000);
    assert_eq!(w.start, 10_000_000 - 170);
    assert_eq!(w.end, 10_000_000 + 170);
}
