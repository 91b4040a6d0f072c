use zenone_core::{create_tempo_controller, FfiPidConfig, FfiPidDiagnostics, PidController};

#[test]
fn default_config_has_the_tuned_gains() {
    let c = FfiPidConfig::default();
    assert_eq!(
        c,
        FfiPidConfig {
            kp: 3_000,
            ki: 200,
            kd: 8_000,
            integral_max: 5_000_000,
            output_min: -600_000,
            output_max: 400_000,
            derivative_alpha: 150_000,
        }
    );
    assert!(c.is_valid());
    assert_eq!(PidController::new().config(), c);
    assert_eq!(create_tempo_controller().config(), c);
}

#[test]
fn config_validity() {
    let mut c = FfiPidConfig::default();
    c.integral_max = -1;
    assert!(!c.is_valid());
    let mut c = FfiPidConfig::default();
    c.output_min = 500_000;
    assert!(!c.is_valid());
    let mut c = FfiPidConfig::default();
    c.output_min = c.output_max;
    c.integral_max = 0;
    assert!(c.is_valid());
}

#[test]
fn first_step_gives_the_three_terms() {
    let mut pid = PidController::new();
    // error 0.5 over 0.1 s: P = 0.0015, I = 0.00001, D = 0.008 * 0.15 * 5 = 0.006
    let out = pid.compute(500_000, 100_000);
    assert_eq!(out, 7_510);
    assert_eq!(
        pid.get_diagnostics(),
        FfiPidDiagnostics { p_term: 1_500, i_term: 10, d_term: 6_000, integral: 50_000, total: 7_510 }
    );
}

#[test]
fn second_step_filters_the_derivative() {
    let mut pid = PidController::new();
    pid.compute(500_000, 100_000);
    // same error again: raw derivative 0, filtered 0.85 * 0.75 = 0.6375
    let out = pid.compute(500_000, 100_000);
    let d = pid.get_diagnostics();
    assert_eq!(d.p_term, 1_500);
    assert_eq!(d.integral, 100_000);
    assert_eq!(d.i_term, 20);
    assert_eq!(d.d_term, 5_100);
    assert_eq!(out, 6_620);
}

#[test]
fn output_is_clamped_to_the_bounds() {
    let mut pid = PidController::new();
    assert_eq!(pid.compute(1_000_000_000_000, 1_000_000), 400_000);
    let mut pid = PidController::new();
    assert_eq!(pid.compute(-1_000_000_000_000, 1_000_000), -600_000);
}

#[test]
fn integral_is_held_within_its_bound() {
    let mut pid = PidController::new();
    pid.compute(100_000_000, 1_000_000);
    assert_eq!(pid.get_diagnostics().integral, 5_000_000);
    assert_eq!(pid.get_diagnostics().i_term, 1_000);
    pid.compute(-1_000_000_000, 1_000_000);
    assert_eq!(pid.get_diagnostics().integral, -5_000_000);
}

#[test]
fn non_positive_step_is_rejected_without_change() {
    let mut pid = PidController::new();
    pid.compute(500_000, 100_000);
    let before = pid.get_diagnostics();
    assert_eq!(pid.compute(900_000, 0), 0);
    assert_eq!(pid.compute(900_000, -100_000), 0);
    assert_eq!(pid.get_diagnostics(), before);
    // the last error is kept too: the next derivative starts from 0.5
    let mut twin = PidController::new();
    twin.compute(500_000, 100_000);
    assert_eq!(pid.compute(700_000, 100_000), twin.compute(700_000, 100_000));
}

#[test]
fn reset_then_zero_error_gives_zero() {
    let mut pid = PidController::new();
    pid.compute(900_000, 50_000);
    pid.compute(-300_000, 50_000);
    pid.reset();
    assert_eq!(
        pid.get_diagnostics(),
        FfiPidDiagnostics { p_term: 0, i_term: 0, d_term: 0, integral: 0, total: 0 }
    );
    for dt in [1, 16_667, 1_000_000, i64::MAX] {
        pid.reset();
        assert_eq!(pid.compute(0, dt), 0);
    }
}

#[test]
fn reset_keeps_the_configuration() {
    let config = FfiPidConfig {
        kp: 1_000_000,
        ki: 0,
        kd: 0,
        integral_max: 1_000_000,
        output_min: -2_000_000,
        output_max: 2_000_000,
        derivative_alpha: 1_000_000,
    };
    let mut pid = PidController::with_config(config);
    assert_eq!(pid.compute(1_500_000, 1_000_000), 1_500_000);
    pid.reset();
    assert_eq!(pid.config(), config);
}

#[test]
fn set_gains_replaces_only_what_is_given() {
    let mut pid = PidController::new();
    pid.compute(500_000, 100_000);
    let before = pid.get_diagnostics();
    pid.set_gains(Some(6_000), None, Some(0));
    let c = pid.config();
    assert_eq!((c.kp, c.ki, c.kd), (6_000, 200, 0));
    assert_eq!(c.integral_max, 5_000_000);
    assert_eq!(pid.get_diagnostics(), before);
    pid.set_gains(None, Some(0), None);
    assert_eq!(pid.config().ki, 0);
    // P = 0.006 * 0.5, I = 0, D = 0
    assert_eq!(pid.compute(500_000, 100_000), 3_000);
}

#[test]
fn zero_outside_the_output_bounds_is_not_returned() {
    let mut config = FfiPidConfig::default();
    config.output_min = 100_000;
    let mut pid = PidController::with_config(config);
    assert_eq!(pid.compute(0, 1_000_000), 100_000);
}
