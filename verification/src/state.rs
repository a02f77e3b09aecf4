//! The ledger record of a monitored position, the errors of the protocol and
//! the notifications it emits.

use vstd::prelude::*;

verus! {

/// Width in bytes of one encrypted word.
pub const CIPHERTEXT_LEN: usize = 32;

/// Number of encrypted words in a risk state: the flag and the severity.
pub const RISK_STATE_WORDS: usize = 2;

/// The encrypted words of a risk state as the ledger holds them.
pub type Ciphertexts = [[u8; CIPHERTEXT_LEN]; RISK_STATE_WORDS];

/// The key that identifies a party or a record on the ledger.
#[derive(Clone, Copy, Debug)]
pub struct IdentityKey {
    pub bytes: [u8; 32],
}

impl IdentityKey {
    /// Whether two keys are the same key, byte for byte.
    pub fn same(&self, other: &IdentityKey) -> (equal: bool)
        ensures
            equal == (*self == *other),
    {
        let mut i: usize = 0;
        while i < 32
            invariant
                i <= 32,
                forall|k: int| 0 <= k < i ==> self.bytes[k] == other.bytes[k],
            decreases 32 - i,
        {
            if self.bytes[i] != other.bytes[i] {
                return false;
            }
            i += 1;
        }
        assert(self.bytes =~= other.bytes);
        true
    }
}

impl PartialEq for IdentityKey {
    fn eq(&self, other: &IdentityKey) -> (equal: bool) {
        self.same(other)
    }
}

impl Eq for IdentityKey {

}

impl vstd::std_specs::cmp::PartialEqSpecImpl for IdentityKey {
    open spec fn obeys_eq_spec() -> bool {
        true
    }

    open spec fn eq_spec(&self, other: &IdentityKey) -> bool {
        *self == *other
    }
}

/// The placeholder that a record holds until its first state is committed:
/// every byte of both words is zero.
pub open spec fn is_blank(words: Ciphertexts) -> bool {
    forall|i: int, j: int| 0 <= i < 2 && 0 <= j < 32 ==> #[trigger] words[i][j] == 0
}

/// Makes the placeholder.
pub fn blank_ciphertexts() -> (words: Ciphertexts)
    ensures
        is_blank(words),
{
    [[0u8; 32]; 2]
}

/// The ledger record of a monitored position.
///
/// The owner, the position's number and the bump are fixed when the record is
/// made. The encrypted state and the nonce are written together, and only
/// when a verified result is committed.
#[derive(Clone, Copy, Debug)]
pub struct PositionAccount {
    /// Bump seed of the record's derived address.
    pub bump: u8,
    /// The encrypted risk state: the flag, then the severity.
    pub risk_state: Ciphertexts,
    /// Number of the position, unique for its owner.
    pub position_id: u32,
    /// The party that registered the position.
    pub owner: IdentityKey,
    /// The nonce under which `risk_state` was last encrypted.
    pub nonce: u128,
    /// Unix time of the last completed health check; 0 until the first one.
    pub last_check: i64,
    /// Whether the position is monitored.
    pub is_active: bool,
}

impl PositionAccount {
    /// The record as registration leaves it: blank words, never checked,
    /// active.
    pub open spec fn is_fresh(self, owner: IdentityKey, position_id: u32, nonce: u128, bump: u8) -> bool {
        &&& self.bump == bump
        &&& is_blank(self.risk_state)
        &&& self.position_id == position_id
        &&& self.owner == owner
        &&& self.nonce == nonce
        &&& self.last_check == 0
        &&& self.is_active
    }

    /// The two records name the same position of the same owner, with the
    /// same bump and the same activity.
    pub open spec fn same_identity(self, other: PositionAccount) -> bool {
        &&& self.bump == other.bump
        &&& self.position_id == other.position_id
        &&& self.owner == other.owner
        &&& self.is_active == other.is_active
    }
}

/// Why an operation was refused. Each one ends the attempt: nothing is
/// retried, and nothing was changed.
#[derive(Clone, Copy, Debug, PartialEq, Eq, Structural)]
pub enum ErrorCode {
    /// The caller is not the owner of the position.
    InvalidAuthority,
    /// The result of a computation could not be verified, or the cluster
    /// gave the computation up.
    AbortedComputation,
    /// No cluster is set to run the computation.
    ClusterUnavailable,
    /// The position is not monitored any more.
    PositionInactive,
}

impl ErrorCode {
    /// The text of each error.
    pub open spec fn spec_message(self) -> Seq<char> {
        match self {
            ErrorCode::InvalidAuthority => "Invalid authority"@,
            ErrorCode::AbortedComputation => "The computation was aborted"@,
            ErrorCode::ClusterUnavailable => "Cluster not set"@,
            ErrorCode::PositionInactive => "Position is not active"@,
        }
    }

    /// The text of the error, for a log or a reply.
    pub fn message(&self) -> (text: String)
        ensures
            text@ == self.spec_message(),
    {
        match self {
            ErrorCode::InvalidAuthority => "Invalid authority".to_string(),
            ErrorCode::AbortedComputation => "The computation was aborted".to_string(),
            ErrorCode::ClusterUnavailable => "Cluster not set".to_string(),
            ErrorCode::PositionInactive => "Position is not active".to_string(),
        }
    }
}

/// Emitted when the first state of a position has been committed.
#[derive(Clone, Copy, Debug)]
pub struct PositionRegistered {
    pub owner: IdentityKey,
    pub position_id: u32,
    pub timestamp: i64,
}

/// Emitted when the result of a health check has been committed.
#[derive(Clone, Copy, Debug)]
pub struct HealthCheckCompleted {
    pub owner: IdentityKey,
    pub position_id: u32,
    pub timestamp: i64,
}

/// Emitted when the risk bit of a position has been disclosed.
#[derive(Clone, Copy, Debug, PartialEq, Eq, Structural)]
pub struct RiskRevealed {
    pub is_at_risk: bool,
    pub timestamp: i64,
}

/// Emitted beside `RiskRevealed` when the disclosed bit is set: a signal for
/// automated responders.
#[derive(Clone, Debug)]
pub struct ActionRequired {
    pub action_type: String,
    pub timestamp: i64,
}

/// The action that a position at risk calls for.
pub open spec fn emergency_action() -> Seq<char> {
    "emergency_withdraw"@
}

} // verus!
