use sentinel::circuits::{
    bit, check_position_health, init_risk_state, reveal_risk, select, PositionData, RiskState,
    DRAINED_VALUE, LIQUIDATION_BUFFER, SEVERITY_CRITICAL, SEVERITY_LOW, SEVERITY_MEDIUM,
    SEVERITY_SAFE, WARNING_BUFFER,
};

fn position(position_value: u64, collateral_ratio: u64, liquidation_threshold: u64) -> PositionData {
    PositionData { position_value, collateral_ratio, liquidation_threshold }
}

fn safe() -> RiskState {
    RiskState { is_at_risk: 0, severity: 0 }
}

#[test]
fn constants_have_their_values() {
    assert_eq!(LIQUIDATION_BUFFER, 500);
    assert_eq!(WARNING_BUFFER, 1000);
    assert_eq!(DRAINED_VALUE, 100);
    assert_eq!(SEVERITY_SAFE, 0);
    assert_eq!(SEVERITY_LOW, 1);
    assert_eq!(SEVERITY_MEDIUM, 2);
    assert_eq!(SEVERITY_CRITICAL, 3);
}

#[test]
fn bit_is_one_for_true_and_zero_for_false() {
    assert_eq!(bit(true), 1);
    assert_eq!(bit(false), 0);
}

#[test]
fn select_picks_by_flag() {
    assert_eq!(select(1, 7, 9), 7);
    assert_eq!(select(0, 7, 9), 9);
    assert_eq!(select(1, u64::MAX, 0), u64::MAX);
    assert_eq!(select(0, 0, u64::MAX), u64::MAX);
    assert_eq!(select(1, u64::MAX, u64::MAX), u64::MAX);
}

#[test]
fn init_is_safe_with_severity_zero() {
    assert_eq!(init_risk_state(), RiskState { is_at_risk: 0, severity: 0 });
}

#[test]
fn init_does_not_depend_on_what_was_computed_before() {
    let before = check_position_health(position(1, 0, 0), safe());
    assert_eq!(before.severity, 3);
    assert_eq!(init_risk_state(), RiskState { is_at_risk: 0, severity: 0 });
}

#[test]
fn ratio_400_above_threshold_is_critical() {
    let state = check_position_health(position(100000, 11400, 11000), safe());
    assert_eq!(state, RiskState { is_at_risk: 1, severity: 3 });
}

#[test]
fn ratio_800_above_threshold_is_medium() {
    let state = check_position_health(position(100000, 11800, 11000), safe());
    assert_eq!(state, RiskState { is_at_risk: 1, severity: 2 });
}

#[test]
fn ratio_1500_above_threshold_with_value_50_is_low() {
    let state = check_position_health(position(50, 12500, 11000), safe());
    assert_eq!(state, RiskState { is_at_risk: 1, severity: 1 });
}

#[test]
fn healthy_position_is_safe_and_reveals_false() {
    let state = check_position_health(position(100000, 15000, 11000), safe());
    assert_eq!(state, RiskState { is_at_risk: 0, severity: 0 });
    assert!(!reveal_risk(state));
}

#[test]
fn critical_position_reveals_true() {
    let state = check_position_health(position(100000, 11400, 11000), safe());
    assert_eq!(state.severity, 3);
    assert!(reveal_risk(state));
}

#[test]
fn critical_does_not_depend_on_value() {
    for value in [0u64, 50, 99, 100, 100000, u64::MAX] {
        let state = check_position_health(position(value, 11499, 11000), safe());
        assert_eq!(state, RiskState { is_at_risk: 1, severity: 3 });
    }
}

#[test]
fn band_edges() {
    assert_eq!(check_position_health(position(100, 11499, 11000), safe()).severity, 3);
    assert_eq!(check_position_health(position(100, 11500, 11000), safe()).severity, 2);
    assert_eq!(check_position_health(position(100, 11999, 11000), safe()).severity, 2);
    assert_eq!(check_position_health(position(100, 12000, 11000), safe()).severity, 0);
    assert_eq!(check_position_health(position(99, 12000, 11000), safe()).severity, 1);
    assert_eq!(check_position_health(position(0, 12000, 11000), safe()).severity, 1);
}

#[test]
fn medium_wins_over_low() {
    let state = check_position_health(position(0, 11800, 11000), safe());
    assert_eq!(state, RiskState { is_at_risk: 1, severity: 2 });
}

#[test]
fn ratio_below_threshold_is_critical() {
    let state = check_position_health(position(100000, 9000, 11000), safe());
    assert_eq!(state, RiskState { is_at_risk: 1, severity: 3 });
}

#[test]
fn threshold_near_the_top_of_the_range_does_not_wrap() {
    let state = check_position_health(position(100000, u64::MAX, u64::MAX), safe());
    assert_eq!(state, RiskState { is_at_risk: 1, severity: 3 });
    let state = check_position_health(position(100000, u64::MAX, u64::MAX - 499), safe());
    assert_eq!(state, RiskState { is_at_risk: 1, severity: 3 });
    let state = check_position_health(position(100000, u64::MAX, u64::MAX - 500), safe());
    assert_eq!(state, RiskState { is_at_risk: 1, severity: 2 });
    let state = check_position_health(position(100000, u64::MAX, u64::MAX - 1000), safe());
    assert_eq!(state, RiskState { is_at_risk: 0, severity: 0 });
    let state = check_position_health(position(100000, 0, u64::MAX), safe());
    assert_eq!(state, RiskState { is_at_risk: 1, severity: 3 });
}

#[test]
fn previous_state_has_no_part_in_the_result() {
    let p = position(100000, 15000, 11000);
    let from_safe = check_position_health(p, safe());
    let from_critical = check_position_health(p, RiskState { is_at_risk: 1, severity: 3 });
    assert_eq!(from_safe, from_critical);
    assert_eq!(from_safe, RiskState { is_at_risk: 0, severity: 0 });
}

#[test]
fn reveal_is_severity_above_zero() {
    assert!(!reveal_risk(RiskState { is_at_risk: 0, severity: 0 }));
    assert!(reveal_risk(RiskState { is_at_risk: 1, severity: 1 }));
    assert!(reveal_risk(RiskState { is_at_risk: 1, severity: 2 }));
    assert!(reveal_risk(RiskState { is_at_risk: 1, severity: 3 }));
}

#[test]
fn reveal_goes_by_severity_not_by_the_flag() {
    assert!(reveal_risk(RiskState { is_at_risk: 0, severity: 2 }));
    assert!(!reveal_risk(RiskState { is_at_risk: 1, severity: 0 }));
}

#[test]
fn reveal_of_initial_state_is_false() {
    assert!(!reveal_risk(init_risk_state()));
}
