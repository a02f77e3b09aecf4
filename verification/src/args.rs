//! The typed argument list of a computation request, built with the
//! cluster's own builder.
//!
//! The builder and the finished list are types of `arcium_anchor`. Verus does
//! not see inside them: what they hold is named by `builder_arguments` and
//! `list_arguments`, and the functions at the head of this module state what
//! each call of the builder does to it. Nothing of those statements is
//! proved here; the three argument lists below are proved from them.

use vstd::prelude::*;
use arcium_anchor::ArgBuilder;
use arcium_anchor::prelude::ArgumentList;
use crate::state::IdentityKey;

verus! {

/// Bytes that stand before a record's fields in its storage.
pub const DISCRIMINATOR_LEN: u32 = 8;

/// Bytes that the bump, a record's first field, takes in its storage.
pub const BUMP_LEN: u32 = 1;

/// Where the encrypted risk state starts in a record's storage: behind the
/// discriminator and the bump.
pub const RISK_STATE_OFFSET: u32 = DISCRIMINATOR_LEN + BUMP_LEN;

/// Length in bytes of the encrypted risk state: two words of 32 bytes.
pub const RISK_STATE_LEN: u32 = 32 * 2;

/// One argument of a computation request.
#[derive(Clone, Copy, Debug)]
pub enum Argument {
    /// A 128-bit value in the clear, such as a nonce.
    PlaintextU128(u128),
    /// The ephemeral public key under which encrypted inputs were sealed.
    X25519Pubkey([u8; 32]),
    /// An encrypted 64-bit value, as one ciphertext word.
    EncryptedU64([u8; 32]),
    /// A reference into the storage of a ledger record: `length` bytes
    /// starting `offset` bytes into the record that `pubkey` names.
    Account { pubkey: IdentityKey, offset: u32, length: u32 },
}

#[verifier::external_type_specification]
#[verifier::external_body]
pub struct ExArgBuilder(ArgBuilder);

#[verifier::external_type_specification]
#[verifier::external_body]
pub struct ExArgumentList(ArgumentList);

/// The arguments that a builder holds, in the order in which they were
/// added, each with the value that it refers to. An argument of a kind that
/// `Argument` does not have is not part of the sequence.
pub uninterp spec fn builder_arguments(builder: ArgBuilder) -> Seq<Argument>;

/// The number of entries in the fullest of a builder's four stores (32-byte
/// words, 64-bit numbers, 128-bit values, record references). An argument
/// refers to its entry by a `u8` cut from the store's length: in a store that
/// already holds 256 entries the reference of the next one points to an
/// earlier entry.
pub uninterp spec fn builder_fill(builder: ArgBuilder) -> nat;

/// The arguments that a finished list holds, in order, each with the value
/// that it refers to; as `builder_arguments` for a builder.
pub uninterp spec fn list_arguments(list: ArgumentList) -> Seq<Argument>;

/// `ArgBuilder::new`: a builder that holds nothing.
#[verifier::external_body]
fn builder_new() -> (builder: ArgBuilder)
    ensures
        builder_arguments(builder) == Seq::<Argument>::empty(),
        builder_fill(builder) == 0,
{
    ArgBuilder::new()
}

/// `ArgBuilder::plaintext_u128`: stores the value among the 128-bit values
/// and appends one argument that refers to it, which holds while the store
/// has room for the reference: `requires` sees to that.
#[verifier::external_body]
fn builder_plaintext_u128(builder: ArgBuilder, value: u128) -> (out: ArgBuilder)
    requires
        builder_fill(builder) < 256,
    ensures
        builder_arguments(out) == builder_arguments(builder).push(Argument::PlaintextU128(value)),
        builder_fill(out) <= builder_fill(builder) + 1,
{
    builder.plaintext_u128(value)
}

/// `ArgBuilder::x25519_pubkey`: stores the key among the 32-byte words and
/// appends one argument that refers to it, which holds while the store has
/// room for the reference: `requires` sees to that.
#[verifier::external_body]
fn builder_x25519_pubkey(builder: ArgBuilder, value: [u8; 32]) -> (out: ArgBuilder)
    requires
        builder_fill(builder) < 256,
    ensures
        builder_arguments(out) == builder_arguments(builder).push(Argument::X25519Pubkey(value)),
        builder_fill(out) <= builder_fill(builder) + 1,
{
    builder.x25519_pubkey(value)
}

/// `ArgBuilder::encrypted_u64`: stores the word among the 32-byte words and
/// appends one argument that refers to it, which holds while the store has
/// room for the reference: `requires` sees to that.
#[verifier::external_body]
fn builder_encrypted_u64(builder: ArgBuilder, value: [u8; 32]) -> (out: ArgBuilder)
    requires
        builder_fill(builder) < 256,
    ensures
        builder_arguments(out) == builder_arguments(builder).push(Argument::EncryptedU64(value)),
        builder_fill(out) <= builder_fill(builder) + 1,
{
    builder.encrypted_u64(value)
}

/// `ArgBuilder::account`: stores the reference among the record references
/// and appends one argument that refers to it, which holds while the store
/// has room for the reference: `requires` sees to that. The key is handed
/// over as the 32 bytes that it is.
#[verifier::external_body]
fn builder_account(builder: ArgBuilder, pubkey: IdentityKey, offset: u32, length: u32) -> (out:
    ArgBuilder)
    requires
        builder_fill(builder) < 256,
    ensures
        builder_arguments(out) == builder_arguments(builder).push(
            Argument::Account { pubkey, offset, length },
        ),
        builder_fill(out) <= builder_fill(builder) + 1,
{
    builder.account(pubkey.bytes.into(), offset, length)
}

/// `ArgBuilder::build`: hands out the list that the builder has gathered.
#[verifier::external_body]
fn builder_build(builder: ArgBuilder) -> (list: ArgumentList)
    ensures
        list_arguments(list) == builder_arguments(builder),
{
    builder.build()
}

/// The arguments of the circuit that initialises a risk state: the nonce.
pub open spec fn init_argument_seq(nonce: u128) -> Seq<Argument> {
    seq![Argument::PlaintextU128(nonce)]
}

/// The arguments of the health check: the ephemeral key and the nonce under
/// which the caller sealed the position, the position's three encrypted
/// values (value, collateral ratio, liquidation threshold), the record's
/// current nonce, and the place of the record's encrypted state.
pub open spec fn check_argument_seq(
    encryption_pubkey: [u8; 32],
    encryption_nonce: u128,
    encrypted_position: [[u8; 32]; 3],
    record_nonce: u128,
    record: IdentityKey,
) -> Seq<Argument> {
    seq![
        Argument::X25519Pubkey(encryption_pubkey),
        Argument::PlaintextU128(encryption_nonce),
        Argument::EncryptedU64(encrypted_position[0]),
        Argument::EncryptedU64(encrypted_position[1]),
        Argument::EncryptedU64(encrypted_position[2]),
        Argument::PlaintextU128(record_nonce),
        Argument::Account { pubkey: record, offset: RISK_STATE_OFFSET, length: RISK_STATE_LEN },
    ]
}

/// The arguments of the disclosure: the record's current nonce and the place
/// of the record's encrypted state.
pub open spec fn reveal_argument_seq(record_nonce: u128, record: IdentityKey) -> Seq<Argument> {
    seq![
        Argument::PlaintextU128(record_nonce),
        Argument::Account { pubkey: record, offset: RISK_STATE_OFFSET, length: RISK_STATE_LEN },
    ]
}

/// Builds the argument list of the circuit that initialises a risk state.
pub fn init_arguments(nonce: u128) -> (list: ArgumentList)
    ensures
        list_arguments(list) == init_argument_seq(nonce),
{
    let builder = builder_new();
    let builder = builder_plaintext_u128(builder, nonce);
    builder_build(builder)
}

/// Builds the argument list of the health check. The previous state is not
/// sent: the list refers to the place where the record holds it.
pub fn check_arguments(
    encryption_pubkey: [u8; 32],
    encryption_nonce: u128,
    encrypted_position: [[u8; 32]; 3],
    record_nonce: u128,
    record: IdentityKey,
) -> (list: ArgumentList)
    ensures
        list_arguments(list) == check_argument_seq(
            encryption_pubkey,
            encryption_nonce,
            encrypted_position,
            record_nonce,
            record,
        ),
{
    let builder = builder_new();
    let builder = builder_x25519_pubkey(builder, encryption_pubkey);
    let builder = builder_plaintext_u128(builder, encryption_nonce);
    let builder = builder_encrypted_u64(builder, encrypted_position[0]);
    let builder = builder_encrypted_u64(builder, encrypted_position[1]);
    let builder = builder_encrypted_u64(builder, encrypted_position[2]);
    let builder = builder_plaintext_u128(builder, record_nonce);
    let builder = builder_account(builder, record, RISK_STATE_OFFSET, RISK_STATE_LEN);
    builder_build(builder)
}

/// Builds the argument list of the disclosure.
pub fn reveal_arguments(record_nonce: u128, record: IdentityKey) -> (list: ArgumentList)
    ensures
        list_arguments(list) == reveal_argument_seq(record_nonce, record),
{
    let builder = builder_new();
    let builder = builder_plaintext_u128(builder, record_nonce);
    let builder = builder_account(builder, record, RISK_STATE_OFFSET, RISK_STATE_LEN);
    builder_build(builder)
}

} // verus!
