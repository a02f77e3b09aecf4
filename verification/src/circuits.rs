//! The three risk circuits, as functions on plain values.
//!
//! A circuit is evaluated by a cluster of nodes over secret-shared inputs, so
//! none of them may take a path that depends on its data. Each predicate is
//! therefore computed unconditionally and turned into a 0/1 word, and the
//! result is picked by arithmetic selection over those words.

use vstd::prelude::*;

verus! {

/// Distance above the liquidation threshold, in basis points, under which a
/// position counts as critical.
pub const LIQUIDATION_BUFFER: u64 = 500;

/// Distance above the liquidation threshold, in basis points, under which a
/// position counts as being in the warning zone.
pub const WARNING_BUFFER: u64 = 1000;

/// Position value, in USD cents, under which a position counts as drained.
pub const DRAINED_VALUE: u64 = 100;

/// Severity of a position that shows no threat.
pub const SEVERITY_SAFE: u64 = 0;

/// Severity of a position whose value is close to zero.
pub const SEVERITY_LOW: u64 = 1;

/// Severity of a position in the warning zone.
pub const SEVERITY_MEDIUM: u64 = 2;

/// Severity of a position close to liquidation.
pub const SEVERITY_CRITICAL: u64 = 3;

/// A position as its owner submits it. Values are integers: USD cents and
/// basis points.
#[derive(Clone, Copy, Debug, PartialEq, Eq, Structural)]
pub struct PositionData {
    /// Value of the position in USD cents (100000 is $1000.00).
    pub position_value: u64,
    /// Collateral ratio in basis points (15000 is 150%).
    pub collateral_ratio: u64,
    /// Liquidation threshold in basis points (11000 is 110%).
    pub liquidation_threshold: u64,
}

/// The risk assessment of a position.
#[derive(Clone, Copy, Debug, PartialEq, Eq, Structural)]
pub struct RiskState {
    /// 1 when the position is at risk, 0 when it is safe.
    pub is_at_risk: u64,
    /// 0 = safe, 1 = low, 2 = medium, 3 = critical.
    pub severity: u64,
}

impl PositionData {
    /// The collateral ratio is less than 500 basis points above the
    /// liquidation threshold. The sum is taken over the integers: it never
    /// wraps.
    pub open spec fn near_liquidation(self) -> bool {
        self.collateral_ratio < self.liquidation_threshold + LIQUIDATION_BUFFER
    }

    /// The collateral ratio is less than 1000 basis points above the
    /// liquidation threshold.
    pub open spec fn in_warning_zone(self) -> bool {
        self.collateral_ratio < self.liquidation_threshold + WARNING_BUFFER
    }

    /// The position is worth less than one dollar.
    pub open spec fn drained(self) -> bool {
        self.position_value < DRAINED_VALUE
    }
}

impl RiskState {
    /// The severity is one of the four levels, and the flag is set exactly
    /// when the severity is above zero.
    pub open spec fn wf(self) -> bool {
        &&& self.severity <= SEVERITY_CRITICAL
        &&& self.is_at_risk == if self.severity > 0 { 1u64 } else { 0u64 }
    }
}

/// The state every position starts from: safe, with severity zero.
pub open spec fn initial_risk_state() -> RiskState {
    RiskState { is_at_risk: 0, severity: SEVERITY_SAFE }
}

/// The assessment of a position: the first of the three predicates that
/// holds decides, in the order critical, medium, low.
pub open spec fn assess(position: PositionData) -> RiskState {
    if position.near_liquidation() {
        RiskState { is_at_risk: 1, severity: SEVERITY_CRITICAL }
    } else if position.in_warning_zone() {
        RiskState { is_at_risk: 1, severity: SEVERITY_MEDIUM }
    } else if position.drained() {
        RiskState { is_at_risk: 1, severity: SEVERITY_LOW }
    } else {
        RiskState { is_at_risk: 0, severity: SEVERITY_SAFE }
    }
}

/// What `reveal_risk` discloses of a state: whether its severity is above
/// zero.
pub open spec fn revealed(state: RiskState) -> bool {
    state.severity > 0
}

/// Turns a predicate's outcome into a word: 1 for true, 0 for false.
pub fn bit(flag: bool) -> (word: u64)
    ensures
        word == if flag { 1u64 } else { 0u64 },
{
    flag as u64
}

/// Arithmetic selection: `when_set` where `flag` is 1, `otherwise` where it
/// is 0. Both values enter the result on every evaluation.
pub fn select(flag: u64, when_set: u64, otherwise: u64) -> (chosen: u64)
    requires
        flag <= 1,
    ensures
        chosen == if flag == 1 { when_set } else { otherwise },
{
    let keep: u64 = 1 - flag;
    assert(flag * when_set + keep * otherwise == if flag == 1 { when_set as int } else {
        otherwise as int
    }) by (nonlinear_arith)
        requires
            flag == 0 || flag == 1,
            keep == 1 - flag,
    ;
    flag * when_set + keep * otherwise
}

/// The circuit that gives a newly registered position its first state.
pub fn init_risk_state() -> (state: RiskState)
    ensures
        state == initial_risk_state(),
        state.wf(),
{
    RiskState { is_at_risk: 0, severity: SEVERITY_SAFE }
}

/// The health check. All three predicates are computed, whatever the data,
/// and the severity is selected by priority. The previous state is an input
/// of the circuit and has no part in the result.
pub fn check_position_health(position: PositionData, risk_state: RiskState) -> (state: RiskState)
    ensures
        state == assess(position),
        state.wf(),
        position.collateral_ratio < position.liquidation_threshold + 500 ==> state.severity == 3
            && state.is_at_risk == 1,
        position.liquidation_threshold + 500 <= position.collateral_ratio
            < position.liquidation_threshold + 1000 ==> state.severity == 2 && state.is_at_risk
            == 1,
        position.collateral_ratio >= position.liquidation_threshold + 1000
            && position.position_value < 100 ==> state.severity == 1 && state.is_at_risk == 1,
        position.collateral_ratio >= position.liquidation_threshold + 1000
            && position.position_value >= 100 ==> state.severity == 0 && state.is_at_risk == 0,
{
    let ratio: u128 = position.collateral_ratio as u128;
    let threshold: u128 = position.liquidation_threshold as u128;
    let near_liquidation: u64 = bit(ratio < threshold + LIQUIDATION_BUFFER as u128);
    let warning: u64 = bit(ratio < threshold + WARNING_BUFFER as u128);
    let drained: u64 = bit(position.position_value < DRAINED_VALUE);
    let severity: u64 = select(
        near_liquidation,
        SEVERITY_CRITICAL,
        select(warning, SEVERITY_MEDIUM, select(drained, SEVERITY_LOW, SEVERITY_SAFE)),
    );
    let is_at_risk: u64 = select(near_liquidation, 1, select(warning, 1, drained));
    RiskState { is_at_risk, severity }
}

/// Discloses one bit of a state, whether the severity is above zero, and
/// nothing else.
pub fn reveal_risk(risk_state: RiskState) -> (at_risk: bool)
    ensures
        at_risk == revealed(risk_state),
        at_risk == (risk_state.severity > 0),
{
    risk_state.severity > 0
}

/// A critical assessment does not depend on the position's value: two
/// positions with the same ratio and threshold, the ratio less than 500 basis
/// points above the threshold, are assessed alike.
pub proof fn lemma_critical_ignores_value(a: PositionData, b: PositionData)
    requires
        a.collateral_ratio == b.collateral_ratio,
        a.liquidation_threshold == b.liquidation_threshold,
        a.collateral_ratio < a.liquidation_threshold + 500,
    ensures
        assess(a) == assess(b),
        assess(a) == (RiskState { is_at_risk: 1, severity: 3 }),
{
}

/// Every assessment is well formed, so the disclosed bit is also the state's
/// own flag.
pub proof fn lemma_assessment_well_formed(position: PositionData)
    ensures
        assess(position).wf(),
        revealed(assess(position)) == (assess(position).is_at_risk == 1),
        revealed(assess(position)) == (position.near_liquidation() || position.in_warning_zone()
            || position.drained()),
{
}

/// The disclosed bit is a function of `severity > 0` alone: two states are
/// told apart by it exactly when one has severity zero and the other has not.
/// In particular two states at risk with different severities disclose the
/// same bit.
pub proof fn lemma_reveal_discloses_one_bit(a: RiskState, b: RiskState)
    ensures
        (revealed(a) == revealed(b)) <==> ((a.severity > 0) == (b.severity > 0)),
        a.severity > 0 && b.severity > 0 ==> revealed(a) == revealed(b),
        a.wf() ==> revealed(a) == (a.is_at_risk > 0),
{
}

/// The starting state is well formed and discloses `false`.
pub proof fn lemma_initial_state_is_safe()
    ensures
        initial_risk_state().wf(),
        !revealed(initial_risk_state()),
        initial_risk_state() == (RiskState { is_at_risk: 0, severity: 0 }),
{
}

} // verus!
