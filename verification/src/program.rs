//! The operations of the program: three that queue a computation and three
//! that settle one.
//!
//! A queuing operation checks who calls and on what, and builds the request;
//! it writes no encrypted state. A settling operation is handed the outcome
//! of the verification of the cluster's signed result, and commits the result
//! only if that outcome is a success and the request is still outstanding for
//! the circuit concerned. Whatever is refused leaves everything as it was.

use vstd::prelude::*;
use crate::args::{
    check_argument_seq,
    check_arguments,
    init_argument_seq,
    init_arguments,
    reveal_argument_seq,
    reveal_arguments,
};
use crate::guard::{require_active, require_cluster, require_owner};
use crate::request::{CallbackAccount, Circuit, ComputationAccount, ComputationRequest};
use crate::state::{
    blank_ciphertexts,
    emergency_action,
    ActionRequired,
    Ciphertexts,
    ErrorCode,
    HealthCheckCompleted,
    IdentityKey,
    PositionAccount,
    PositionRegistered,
    RiskRevealed,
};

verus! {

/// What registration works on.
#[derive(Clone, Copy, Debug)]
pub struct RegisterPosition {
    /// The caller, who becomes the owner.
    pub payer: IdentityKey,
    /// The cluster that is set to run computations, if one is.
    pub cluster: Option<u32>,
    /// The address of the new record.
    pub position_key: IdentityKey,
    /// The bump seed of that address.
    pub position_bump: u8,
    /// The new record.
    pub position_acc: PositionAccount,
}

/// What a health check works on.
#[derive(Clone, Copy, Debug)]
pub struct CheckHealth {
    /// The caller.
    pub payer: IdentityKey,
    /// The cluster that is set to run computations, if one is.
    pub cluster: Option<u32>,
    /// The address of the record.
    pub position_key: IdentityKey,
    /// The record of the position to check.
    pub position_acc: PositionAccount,
}

/// What a disclosure works on.
#[derive(Clone, Copy, Debug)]
pub struct RevealRisk {
    /// The caller.
    pub payer: IdentityKey,
    /// The cluster that is set to run computations, if one is.
    pub cluster: Option<u32>,
    /// The address of the record.
    pub position_key: IdentityKey,
    /// The record of the position concerned.
    pub position_acc: PositionAccount,
}

/// What the settlement of a registration works on.
#[derive(Clone, Copy, Debug)]
pub struct InitRiskStateCallback {
    /// The request that the result answers.
    pub computation_account: ComputationAccount,
    /// The record that the result is for.
    pub position_acc: PositionAccount,
}

/// What the settlement of a health check works on.
#[derive(Clone, Copy, Debug)]
pub struct CheckPositionHealthCallback {
    /// The request that the result answers.
    pub computation_account: ComputationAccount,
    /// The record that the result is for.
    pub position_acc: PositionAccount,
}

/// What the settlement of a disclosure works on.
#[derive(Clone, Copy, Debug)]
pub struct RevealRiskCallback {
    /// The request that the result answers.
    pub computation_account: ComputationAccount,
}

/// A risk state as the cluster returns it: encrypted, with the nonce under
/// which it was encrypted.
#[derive(Clone, Copy, Debug)]
pub struct EncryptedRiskState {
    pub nonce: u128,
    pub ciphertexts: Ciphertexts,
}

/// Why the cluster's signed result was not accepted.
#[derive(Clone, Copy, Debug, PartialEq, Eq, Structural)]
pub enum VerificationError {
    /// The cluster gave the computation up.
    ComputationFailed,
    /// The signature is not one of the cluster's signing authority.
    WrongSigner,
    /// The cluster has no signing key set, or not the one that signed.
    StaleClusterKey,
    /// The result does not answer the request that was queued.
    MismatchedComputation,
    /// The result does not have the shape of the circuit's output.
    MalformedOutput,
}

/// What the settlement of a disclosure emits.
#[derive(Clone, Debug)]
pub struct RevealNotifications {
    /// The disclosed bit.
    pub revealed: RiskRevealed,
    /// The call for action, where the bit is set.
    pub action: Option<ActionRequired>,
}

/// The callback of a registration or a health check may write to the
/// position's record, and to nothing else.
pub open spec fn record_access(position_key: IdentityKey) -> Seq<CallbackAccount> {
    seq![CallbackAccount { pubkey: position_key, is_writable: true }]
}

/// A result is committed exactly when its verification succeeded and the
/// request is outstanding for the circuit concerned.
pub open spec fn accepted<T>(
    account: ComputationAccount,
    circuit: Circuit,
    output: Result<T, VerificationError>,
) -> bool {
    output is Ok && account.spec_awaits(circuit.spec_offset())
}

/// The record with a returned state written to it: the encrypted words and
/// the nonce change, together, and nothing else does.
pub open spec fn committed(record: PositionAccount, state: EncryptedRiskState) -> PositionAccount {
    PositionAccount { risk_state: state.ciphertexts, nonce: state.nonce, ..record }
}

/// What the settlement of a registration leaves behind.
pub open spec fn init_settlement(
    ctx: InitRiskStateCallback,
    output: Result<EncryptedRiskState, VerificationError>,
) -> InitRiskStateCallback {
    if accepted(ctx.computation_account, Circuit::InitRiskState, output) {
        InitRiskStateCallback {
            computation_account: ctx.computation_account.spec_settled(),
            position_acc: committed(ctx.position_acc, output->Ok_0),
        }
    } else {
        ctx
    }
}

/// What the settlement of a health check leaves behind.
pub open spec fn check_settlement(
    ctx: CheckPositionHealthCallback,
    output: Result<EncryptedRiskState, VerificationError>,
    now: i64,
) -> CheckPositionHealthCallback {
    if accepted(ctx.computation_account, Circuit::CheckPositionHealth, output) {
        CheckPositionHealthCallback {
            computation_account: ctx.computation_account.spec_settled(),
            position_acc: PositionAccount {
                last_check: now,
                ..committed(ctx.position_acc, output->Ok_0)
            },
        }
    } else {
        ctx
    }
}

/// What the settlement of a disclosure leaves behind.
pub open spec fn reveal_settlement(
    ctx: RevealRiskCallback,
    output: Result<bool, VerificationError>,
) -> RevealRiskCallback {
    if accepted(ctx.computation_account, Circuit::RevealRisk, output) {
        RevealRiskCallback { computation_account: ctx.computation_account.spec_settled() }
    } else {
        ctx
    }
}

fn record_accounts(position_key: IdentityKey) -> (accounts: Vec<CallbackAccount>)
    ensures
        accounts@ == record_access(position_key),
{
    let mut accounts: Vec<CallbackAccount> = Vec::new();
    accounts.push(CallbackAccount { pubkey: position_key, is_writable: true });
    assert(accounts@ =~= record_access(position_key));
    accounts
}

/// Registers a position for monitoring: fills in the new record and builds
/// the request for its first state. The record gets the blank placeholder;
/// its first encrypted state is written when the request is settled.
///
/// Refused with `ClusterUnavailable` where no cluster is set.
pub fn register_position(
    ctx: &mut RegisterPosition,
    computation_offset: u64,
    position_id: u32,
    nonce: u128,
) -> (queued: Result<ComputationRequest, ErrorCode>)
    ensures
        old(ctx).cluster is None ==> queued == Err::<ComputationRequest, ErrorCode>(
            ErrorCode::ClusterUnavailable,
        ) && *final(ctx) == *old(ctx),
        old(ctx).cluster is Some ==> {
            &&& queued is Ok
            &&& queued->Ok_0.is_for(
                Circuit::InitRiskState,
                computation_offset,
                init_argument_seq(nonce),
                record_access(old(ctx).position_key),
            )
            &&& final(ctx).position_acc.is_fresh(
                old(ctx).payer,
                position_id,
                nonce,
                old(ctx).position_bump,
            )
            &&& *final(ctx) == (RegisterPosition {
                position_acc: final(ctx).position_acc,
                ..*old(ctx)
            })
        },
{
    if let Err(refused) = require_cluster(ctx.cluster) {
        return Err(refused);
    }
    ctx.position_acc.bump = ctx.position_bump;
    ctx.position_acc.position_id = position_id;
    ctx.position_acc.owner = ctx.payer;
    ctx.position_acc.nonce = nonce;
    ctx.position_acc.risk_state = blank_ciphertexts();
    ctx.position_acc.last_check = 0;
    ctx.position_acc.is_active = true;

    let args = init_arguments(nonce);
    Ok(
        ComputationRequest::assemble(
            Circuit::InitRiskState,
            Circuit::InitRiskState.offset(),
            computation_offset,
            args,
            record_accounts(ctx.position_key),
        ),
    )
}

/// Settles a registration: writes the returned state and its nonce to the
/// record, closes the request and announces the registration.
///
/// Refused with `AbortedComputation` where the verification failed or the
/// request is not outstanding for this circuit.
pub fn init_risk_state_callback(
    ctx: &mut InitRiskStateCallback,
    output: Result<EncryptedRiskState, VerificationError>,
    now: i64,
) -> (settled: Result<PositionRegistered, ErrorCode>)
    ensures
        *final(ctx) == init_settlement(*old(ctx), output),
        accepted(old(ctx).computation_account, Circuit::InitRiskState, output) ==> settled == Ok::<
            PositionRegistered,
            ErrorCode,
        >(
            PositionRegistered {
                owner: old(ctx).position_acc.owner,
                position_id: old(ctx).position_acc.position_id,
                timestamp: now,
            },
        ),
        !accepted(old(ctx).computation_account, Circuit::InitRiskState, output) ==> settled == Err::<
            PositionRegistered,
            ErrorCode,
        >(ErrorCode::AbortedComputation) && *final(ctx) == *old(ctx),
{
    let state = match output {
        Ok(state) => state,
        Err(_) => return Err(ErrorCode::AbortedComputation),
    };
    if !ctx.computation_account.awaits(Circuit::InitRiskState.offset()) {
        return Err(ErrorCode::AbortedComputation);
    }
    ctx.position_acc.risk_state = state.ciphertexts;
    ctx.position_acc.nonce = state.nonce;
    ctx.computation_account.settle();

    Ok(
        PositionRegistered {
            owner: ctx.position_acc.owner,
            position_id: ctx.position_acc.position_id,
            timestamp: now,
        },
    )
}

/// Queues a health check of an active position on the caller's encrypted
/// values: the position's value, its collateral ratio and its liquidation
/// threshold, in this order. The record is read, not written.
///
/// Refused with `ClusterUnavailable` where no cluster is set, else with
/// `PositionInactive` where the position is not monitored.
pub fn check_health(
    ctx: &CheckHealth,
    computation_offset: u64,
    _position_id: u32,
    encrypted_position: [[u8; 32]; 3],
    encryption_pubkey: [u8; 32],
    encryption_nonce: u128,
) -> (queued: Result<ComputationRequest, ErrorCode>)
    ensures
        ctx.cluster is None ==> queued == Err::<ComputationRequest, ErrorCode>(
            ErrorCode::ClusterUnavailable,
        ),
        ctx.cluster is Some && !ctx.position_acc.is_active ==> queued == Err::<
            ComputationRequest,
            ErrorCode,
        >(ErrorCode::PositionInactive),
        ctx.cluster is Some && ctx.position_acc.is_active ==> queued is Ok && queued->Ok_0.is_for(
            Circuit::CheckPositionHealth,
            computation_offset,
            check_argument_seq(
                encryption_pubkey,
                encryption_nonce,
                encrypted_position,
                ctx.position_acc.nonce,
                ctx.position_key,
            ),
            record_access(ctx.position_key),
        ),
{
    if let Err(refused) = require_cluster(ctx.cluster) {
        return Err(refused);
    }
    if let Err(refused) = require_active(&ctx.position_acc) {
        return Err(refused);
    }
    let args = check_arguments(
        encryption_pubkey,
        encryption_nonce,
        encrypted_position,
        ctx.position_acc.nonce,
        ctx.position_key,
    );
    Ok(
        ComputationRequest::assemble(
            Circuit::CheckPositionHealth,
            Circuit::CheckPositionHealth.offset(),
            computation_offset,
            args,
            record_accounts(ctx.position_key),
        ),
    )
}

/// Settles a health check: writes the returned state and its nonce to the
/// record, notes the time of the check, closes the request and announces the
/// check.
///
/// Refused with `AbortedComputation` where the verification failed or the
/// request is not outstanding for this circuit.
pub fn check_position_health_callback(
    ctx: &mut CheckPositionHealthCallback,
    output: Result<EncryptedRiskState, VerificationError>,
    now: i64,
) -> (settled: Result<HealthCheckCompleted, ErrorCode>)
    ensures
        *final(ctx) == check_settlement(*old(ctx), output, now),
        accepted(old(ctx).computation_account, Circuit::CheckPositionHealth, output) ==> settled
            == Ok::<HealthCheckCompleted, ErrorCode>(
            HealthCheckCompleted {
                owner: old(ctx).position_acc.owner,
                position_id: old(ctx).position_acc.position_id,
                timestamp: now,
            },
        ),
        !accepted(old(ctx).computation_account, Circuit::CheckPositionHealth, output) ==> settled
            == Err::<HealthCheckCompleted, ErrorCode>(ErrorCode::AbortedComputation) && *final(ctx)
            == *old(ctx),
{
    let state = match output {
        Ok(state) => state,
        Err(_) => return Err(ErrorCode::AbortedComputation),
    };
    if !ctx.computation_account.awaits(Circuit::CheckPositionHealth.offset()) {
        return Err(ErrorCode::AbortedComputation);
    }
    ctx.position_acc.risk_state = state.ciphertexts;
    ctx.position_acc.nonce = state.nonce;
    ctx.position_acc.last_check = now;
    ctx.computation_account.settle();

    Ok(
        HealthCheckCompleted {
            owner: ctx.position_acc.owner,
            position_id: ctx.position_acc.position_id,
            timestamp: now,
        },
    )
}

/// Queues the disclosure of a position's risk bit, for its owner alone. The
/// record is read, not written, and the callback may touch no record.
///
/// Refused with `ClusterUnavailable` where no cluster is set, else with
/// `InvalidAuthority` where the caller is not the owner.
pub fn reveal_risk(ctx: &RevealRisk, computation_offset: u64, position_id: u32) -> (queued: Result<
    ComputationRequest,
    ErrorCode,
>)
    ensures
        ctx.cluster is None ==> queued == Err::<ComputationRequest, ErrorCode>(
            ErrorCode::ClusterUnavailable,
        ),
        ctx.cluster is Some && ctx.payer != ctx.position_acc.owner ==> queued == Err::<
            ComputationRequest,
            ErrorCode,
        >(ErrorCode::InvalidAuthority),
        ctx.cluster is Some && ctx.payer == ctx.position_acc.owner ==> queued is Ok
            && queued->Ok_0.is_for(
            Circuit::RevealRisk,
            computation_offset,
            reveal_argument_seq(ctx.position_acc.nonce, ctx.position_key),
            Seq::<CallbackAccount>::empty(),
        ),
{
    if let Err(refused) = require_cluster(ctx.cluster) {
        return Err(refused);
    }
    if let Err(refused) = require_owner(&ctx.position_acc, &ctx.payer) {
        return Err(refused);
    }
    let args = reveal_arguments(ctx.position_acc.nonce, ctx.position_key);
    Ok(
        ComputationRequest::assemble(
            Circuit::RevealRisk,
            Circuit::RevealRisk.offset(),
            computation_offset,
            args,
            Vec::new(),
        ),
    )
}

/// Settles a disclosure: closes the request and announces the disclosed bit,
/// with a call for an emergency withdrawal where the bit is set. No record of
/// a position is touched.
///
/// Refused with `AbortedComputation` where the verification failed or the
/// request is not outstanding for this circuit.
pub fn reveal_risk_callback(
    ctx: &mut RevealRiskCallback,
    output: Result<bool, VerificationError>,
    now: i64,
) -> (settled: Result<RevealNotifications, ErrorCode>)
    ensures
        *final(ctx) == reveal_settlement(*old(ctx), output),
        accepted(old(ctx).computation_account, Circuit::RevealRisk, output) ==> {
            &&& settled is Ok
            &&& settled->Ok_0.revealed == (RiskRevealed {
                is_at_risk: output->Ok_0,
                timestamp: now,
            })
            &&& output->Ok_0 ==> settled->Ok_0.action is Some
                && settled->Ok_0.action->Some_0.action_type@ == emergency_action()
                && settled->Ok_0.action->Some_0.timestamp == now
            &&& !output->Ok_0 ==> settled->Ok_0.action is None
        },
        !accepted(old(ctx).computation_account, Circuit::RevealRisk, output) ==> settled == Err::<
            RevealNotifications,
            ErrorCode,
        >(ErrorCode::AbortedComputation) && *final(ctx) == *old(ctx),
{
    let at_risk = match output {
        Ok(at_risk) => at_risk,
        Err(_) => return Err(ErrorCode::AbortedComputation),
    };
    if !ctx.computation_account.awaits(Circuit::RevealRisk.offset()) {
        return Err(ErrorCode::AbortedComputation);
    }
    ctx.computation_account.settle();

    let revealed = RiskRevealed { is_at_risk: at_risk, timestamp: now };
    let action = if at_risk {
        Some(ActionRequired { action_type: "emergency_withdraw".to_string(), timestamp: now })
    } else {
        None
    };
    Ok(RevealNotifications { revealed, action })
}

/// A request that was built for a circuit is, while it is outstanding, one
/// that the circuit's callback accepts a verified result for.
pub proof fn lemma_queued_request_is_awaited<T>(
    request: ComputationRequest,
    circuit: Circuit,
    value: T,
)
    requires
        request.comp_def_offset == circuit.spec_offset(),
    ensures
        accepted(request.spec_pending(), circuit, Ok::<T, VerificationError>(value)),
{
}

/// A result whose verification failed is never committed, whatever the
/// request and the record: the encrypted words, the nonce and everything
/// else stay as they were.
pub proof fn lemma_failed_verification_commits_nothing(
    registration: InitRiskStateCallback,
    check: CheckPositionHealthCallback,
    disclosure: RevealRiskCallback,
    error: VerificationError,
    now: i64,
)
    ensures
        init_settlement(registration, Err(error)) == registration,
        check_settlement(check, Err(error), now) == check,
        reveal_settlement(disclosure, Err(error)) == disclosure,
        init_settlement(registration, Err(error)).position_acc.risk_state
            == registration.position_acc.risk_state,
        init_settlement(registration, Err(error)).position_acc.nonce
            == registration.position_acc.nonce,
        check_settlement(check, Err(error), now).position_acc.risk_state
            == check.position_acc.risk_state,
        check_settlement(check, Err(error), now).position_acc.nonce == check.position_acc.nonce,
{
}

/// A request is settled once. After a result has been committed for it, a
/// second delivery, of the same result or of another, is not accepted and
/// changes nothing.
pub proof fn lemma_settled_once(
    registration: InitRiskStateCallback,
    check: CheckPositionHealthCallback,
    disclosure: RevealRiskCallback,
    first: Result<EncryptedRiskState, VerificationError>,
    second: Result<EncryptedRiskState, VerificationError>,
    first_bit: Result<bool, VerificationError>,
    second_bit: Result<bool, VerificationError>,
    now: i64,
    later: i64,
)
    ensures
        accepted(registration.computation_account, Circuit::InitRiskState, first) ==> {
            let after = init_settlement(registration, first);
            !accepted(after.computation_account, Circuit::InitRiskState, second)
                && init_settlement(after, second) == after
        },
        accepted(check.computation_account, Circuit::CheckPositionHealth, first) ==> {
            let after = check_settlement(check, first, now);
            !accepted(after.computation_account, Circuit::CheckPositionHealth, second)
                && check_settlement(after, second, later) == after
        },
        accepted(disclosure.computation_account, Circuit::RevealRisk, first_bit) ==> {
            let after = reveal_settlement(disclosure, first_bit);
            !accepted(after.computation_account, Circuit::RevealRisk, second_bit)
                && reveal_settlement(after, second_bit) == after
        },
{
}

/// No settlement, accepted or not, changes who owns a position, which
/// position it is, its bump or whether it is monitored. The encrypted words
/// and the nonce change only where the result is accepted, and then to what
/// the result holds; the time of the last check changes only where a health
/// check is accepted.
pub proof fn lemma_settlement_touches_state_only(
    registration: InitRiskStateCallback,
    check: CheckPositionHealthCallback,
    output: Result<EncryptedRiskState, VerificationError>,
    now: i64,
)
    ensures
        init_settlement(registration, output).position_acc.same_identity(registration.position_acc),
        init_settlement(registration, output).position_acc.last_check
            == registration.position_acc.last_check,
        check_settlement(check, output, now).position_acc.same_identity(check.position_acc),
        accepted(registration.computation_account, Circuit::InitRiskState, output) ==> {
            &&& init_settlement(registration, output).position_acc.risk_state
                == output->Ok_0.ciphertexts
            &&& init_settlement(registration, output).position_acc.nonce == output->Ok_0.nonce
        },
        accepted(check.computation_account, Circuit::CheckPositionHealth, output) ==> {
            &&& check_settlement(check, output, now).position_acc.risk_state
                == output->Ok_0.ciphertexts
            &&& check_settlement(check, output, now).position_acc.nonce == output->Ok_0.nonce
            &&& check_settlement(check, output, now).position_acc.last_check == now
        },
        !accepted(registration.computation_account, Circuit::InitRiskState, output)
            ==> init_settlement(registration, output) == registration,
        !accepted(check.computation_account, Circuit::CheckPositionHealth, output)
            ==> check_settlement(check, output, now) == check,
{
}

} // verus!
