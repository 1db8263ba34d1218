//! Deterministic contract addressing.
//!
//! A contract's identity on the ledger is a pure function of its bytecode,
//! its initial storage image and the deployer-chosen salt. The three digest
//! steps are the ledger's own (`fuel-tx`); this module composes them so that
//! a caller knows the identity a deployment will occupy before the ledger
//! executes it, and can re-derive it to check what a factory claims.

use vstd::prelude::*;
use crate::ids::{Bits256, BytecodeRoot, ContractId, Salt};
use crate::bytecode::code_root_of;

verus! {

/// One initial storage slot of a contract's storage image.
#[derive(Clone, Copy, Debug, PartialEq, Eq, Structural)]
pub struct StorageSlot {
    pub key: Bits256,
    pub value: Bits256,
}

/// A contract binary together with its initial storage image, as loaded
/// from its build artifacts.
#[derive(Clone, Debug)]
pub struct ContractArtifact {
    pub code: Vec<u8>,
    pub slots: Vec<StorageSlot>,
}

/// The sparse Merkle root of a contract's initial storage slots, a function
/// of the slots alone.
pub uninterp spec fn state_root_of(slots: Seq<StorageSlot>) -> Bits256;

/// The digest of (seed, salt, code root, state root) that the ledger assigns
/// as contract identity, a function of those three values alone.
pub uninterp spec fn contract_id_of(salt: Bits256, code_root: Bits256, state_root: Bits256) -> Bits256;

/// Relies on `fuel_tx::Contract::initial_state_root`: the initial state root
/// is computed from the storage slots alone, deterministically.
#[verifier::external_body]
fn fuel_state_root(slots: &Vec<StorageSlot>) -> (r: Bits256)
    ensures
        r == state_root_of(slots@),
{
    let fuel_slots: Vec<fuel_tx::StorageSlot> = slots.iter().map(|s| {
        fuel_tx::StorageSlot::new(
            fuel_tx::Bytes32::new(s.key.to_bytes()),
            fuel_tx::Bytes32::new(s.value.to_bytes()),
        )
    }).collect();
    let digest = fuel_tx::Contract::initial_state_root(fuel_slots.iter());
    let a: &[u8] = digest.as_ref();
    Bits256 {
        w0: u64::from_be_bytes(a[0..8].try_into().unwrap()),
        w1: u64::from_be_bytes(a[8..16].try_into().unwrap()),
        w2: u64::from_be_bytes(a[16..24].try_into().unwrap()),
        w3: u64::from_be_bytes(a[24..32].try_into().unwrap()),
    }
}

/// Relies on `fuel_tx::Contract::id`: the contract identity is the digest of
/// (seed, salt, code root, state root), a function of its arguments alone.
#[verifier::external_body]
fn fuel_contract_id(salt: &Salt, code_root: &BytecodeRoot, state_root: &Bits256) -> (r: ContractId)
    ensures
        r.bits == contract_id_of(salt.bits, code_root.bits, *state_root),
{
    let id = fuel_tx::Contract::id(
        &fuel_tx::Salt::new(salt.bits.to_bytes()),
        &fuel_tx::Bytes32::new(code_root.bits.to_bytes()),
        &fuel_tx::Bytes32::new(state_root.to_bytes()),
    );
    let a: &[u8] = id.as_ref();
    ContractId {
        bits: Bits256 {
            w0: u64::from_be_bytes(a[0..8].try_into().unwrap()),
            w1: u64::from_be_bytes(a[8..16].try_into().unwrap()),
            w2: u64::from_be_bytes(a[16..24].try_into().unwrap()),
            w3: u64::from_be_bytes(a[24..32].try_into().unwrap()),
        },
    }
}

/// The identity a deployment of (bytecode, storage image, salt) occupies.
pub open spec fn identity_of(code: Seq<u8>, slots: Seq<StorageSlot>, salt: Bits256) -> Bits256 {
    contract_id_of(salt, code_root_of(code), state_root_of(slots))
}

/// Derives the contract identity that deploying this artifact under this
/// salt yields, without touching the ledger.
pub fn contract_identity(artifact: &ContractArtifact, salt: &Salt) -> (r: ContractId)
    ensures
        r.bits == identity_of(artifact.code@, artifact.slots@, salt.bits),
{
    let code_root = crate::bytecode::compute_root(&artifact.code);
    let state_root = fuel_state_root(&artifact.slots);
    fuel_contract_id(salt, &code_root, &state_root)
}

/// Deterministic addressing: for equal salts over identical bytecode and
/// storage, deployment is idempotent at the identity level — any two
/// identities derived from the same triple are equal.
pub proof fn lemma_identity_deterministic(
    code: Seq<u8>,
    slots: Seq<StorageSlot>,
    salt: Bits256,
    id1: ContractId,
    id2: ContractId,
)
    requires
        id1.bits == identity_of(code, slots, salt),
        id2.bits == identity_of(code, slots, salt),
    ensures
        id1 == id2,
{
}

} // verus!
