//! Computation requests and the record that tracks one from the moment it
//! is queued to the moment its result is committed.
//!
//! A confidential operation has two phases. Queuing records the request and
//! returns at once; it changes no position. Settling happens when the
//! cluster's result arrives, as a separate message: the result is committed
//! once, and the request is closed for any later delivery.

use vstd::prelude::*;
use arcium_anchor::prelude::ArgumentList;
use crate::args::{list_arguments, Argument};
use crate::state::IdentityKey;

verus! {

/// The three circuits that the cluster evaluates for this program.
#[derive(Clone, Copy, Debug, PartialEq, Eq, Structural)]
pub enum Circuit {
    /// Gives a new position its first state.
    InitRiskState,
    /// Assesses a position.
    CheckPositionHealth,
    /// Discloses whether a position is at risk.
    RevealRisk,
}

/// The number under which the cluster files the definition of the circuit
/// with the given name: the first four bytes, little endian, of the SHA-256
/// digest of the name.
pub uninterp spec fn definition_offset(name: Seq<char>) -> u32;

/// `arcium_anchor::comp_def_offset`: the number under which the definition of
/// the named circuit is filed. It is a function of the name alone.
#[verifier::external_body]
fn comp_def_offset(name: &str) -> (offset: u32)
    ensures
        offset == definition_offset(name@),
{
    arcium_anchor::comp_def_offset(name)
}

impl Circuit {
    /// The name under which the circuit is known to the cluster.
    pub open spec fn spec_name(self) -> Seq<char> {
        match self {
            Circuit::InitRiskState => "init_risk_state"@,
            Circuit::CheckPositionHealth => "check_position_health"@,
            Circuit::RevealRisk => "reveal_risk"@,
        }
    }

    /// The number under which the circuit's definition is filed.
    pub open spec fn spec_offset(self) -> u32 {
        definition_offset(self.spec_name())
    }

    /// The name under which the circuit is known to the cluster.
    pub fn name(&self) -> (name: &'static str)
        ensures
            name@ == self.spec_name(),
    {
        match self {
            Circuit::InitRiskState => "init_risk_state",
            Circuit::CheckPositionHealth => "check_position_health",
            Circuit::RevealRisk => "reveal_risk",
        }
    }

    /// The number under which the circuit's definition is filed.
    pub fn offset(&self) -> (offset: u32)
        ensures
            offset == self.spec_offset(),
    {
        comp_def_offset(self.name())
    }
}

/// A ledger record that a callback may touch.
#[derive(Clone, Copy, Debug)]
pub struct CallbackAccount {
    /// The record.
    pub pubkey: IdentityKey,
    /// Whether the callback may write to it.
    pub is_writable: bool,
}

/// Names the callback that is to receive a computation's result: the circuit
/// whose result it expects, the request that it answers, and the records that
/// it is allowed to touch.
#[derive(Clone, Debug)]
pub struct CallbackInstruction {
    pub circuit: Circuit,
    pub computation_offset: u64,
    pub accounts: Vec<CallbackAccount>,
}

/// Everything that is handed to the cluster when a computation is queued.
pub struct ComputationRequest {
    /// The number that the caller chose for this request.
    pub computation_offset: u64,
    /// The number under which the circuit's definition is filed.
    pub comp_def_offset: u32,
    /// The circuit's arguments.
    pub args: ArgumentList,
    /// The callback that is to receive the result.
    pub callback: CallbackInstruction,
    /// In how many transactions the result is delivered: always one.
    pub num_callback_txs: u8,
    /// The priority fee offered, in micro-lamports per compute unit: none.
    pub cu_price_micro: u64,
}

/// Whether a request still waits for its result.
#[derive(Clone, Copy, Debug, PartialEq, Eq, Structural)]
pub enum RequestStatus {
    /// Queued; no result has been committed.
    Pending,
    /// The result has been committed. Nothing more is accepted for it.
    Settled,
}

/// The record of one request, as the ledger holds it between the two phases.
#[derive(Clone, Copy, Debug, PartialEq, Eq, Structural)]
pub struct ComputationAccount {
    /// The number under which the definition of the requested circuit is
    /// filed.
    pub comp_def_offset: u32,
    /// Where the request stands.
    pub status: RequestStatus,
}

impl ComputationAccount {
    /// The request is outstanding and is one for the circuit whose definition
    /// is filed under `definition`.
    pub open spec fn spec_awaits(self, definition: u32) -> bool {
        self.status == RequestStatus::Pending && self.comp_def_offset == definition
    }

    /// The record with its request closed.
    pub open spec fn spec_settled(self) -> ComputationAccount {
        ComputationAccount { status: RequestStatus::Settled, ..self }
    }

    /// Whether a result for the circuit whose definition is filed under
    /// `definition` may be committed against this request.
    pub fn awaits(&self, definition: u32) -> (outstanding: bool)
        ensures
            outstanding == self.spec_awaits(definition),
    {
        match self.status {
            RequestStatus::Pending => self.comp_def_offset == definition,
            RequestStatus::Settled => false,
        }
    }

    /// Closes the request.
    pub fn settle(&mut self)
        ensures
            *final(self) == old(self).spec_settled(),
    {
        self.status = RequestStatus::Settled;
    }
}

impl ComputationRequest {
    /// The request is one for `circuit` under the number `computation_offset`,
    /// with the arguments `arguments`, and its callback may touch the records
    /// `accounts` and no others.
    pub open spec fn is_for(
        self,
        circuit: Circuit,
        computation_offset: u64,
        arguments: Seq<Argument>,
        accounts: Seq<CallbackAccount>,
    ) -> bool {
        &&& self.computation_offset == computation_offset
        &&& self.comp_def_offset == circuit.spec_offset()
        &&& list_arguments(self.args) == arguments
        &&& self.callback.circuit == circuit
        &&& self.callback.computation_offset == computation_offset
        &&& self.callback.accounts@ == accounts
        &&& self.num_callback_txs == 1
        &&& self.cu_price_micro == 0
    }

    /// The record that tracks this request while it is outstanding.
    pub open spec fn spec_pending(self) -> ComputationAccount {
        ComputationAccount {
            comp_def_offset: self.comp_def_offset,
            status: RequestStatus::Pending,
        }
    }

    /// Puts a request together from its parts. The result is delivered in
    /// one transaction and no priority fee is offered.
    pub fn assemble(
        circuit: Circuit,
        definition: u32,
        computation_offset: u64,
        args: ArgumentList,
        accounts: Vec<CallbackAccount>,
    ) -> (request: ComputationRequest)
        ensures
            request.computation_offset == computation_offset,
            request.comp_def_offset == definition,
            request.args == args,
            request.callback.circuit == circuit,
            request.callback.computation_offset == computation_offset,
            request.callback.accounts == accounts,
            request.num_callback_txs == 1,
            request.cu_price_micro == 0,
    {
        ComputationRequest {
            computation_offset,
            comp_def_offset: definition,
            args,
            callback: CallbackInstruction { circuit, computation_offset, accounts },
            num_callback_txs: 1,
            cu_price_micro: 0,
        }
    }

    /// The record that tracks this request while it is outstanding.
    pub fn pending(&self) -> (account: ComputationAccount)
        ensures
            account == self.spec_pending(),
    {
        ComputationAccount {
            comp_def_offset: self.comp_def_offset,
            status: RequestStatus::Pending,
        }
    }
}

} // verus!
