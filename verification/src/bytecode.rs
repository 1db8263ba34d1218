//! Bytecode verification: the content-derived root of a contract binary.
//!
//! A factory-created pool is only trusted after the root of its deployed
//! bytecode is compared against the root of the known-good binary; the root
//! is the ledger's canonical fingerprint, computed by `fuel-tx`.

use vstd::prelude::*;
use crate::ids::{Bits256, BytecodeRoot};

verus! {

/// The ledger's canonical fingerprint of raw contract bytecode: a binary
/// Merkle root over padded code chunks, a function of the bytes alone.
pub uninterp spec fn code_root_of(code: Seq<u8>) -> Bits256;

/// Relies on `fuel_tx::Contract::root_from_code`: the bytecode root is
/// computed from the raw bytes alone, deterministically.
#[verifier::external_body]
fn fuel_code_root(code: &Vec<u8>) -> (r: BytecodeRoot)
    ensures
        r.bits == code_root_of(code@),
{
    let digest = fuel_tx::Contract::root_from_code(code.as_slice());
    let a: &[u8] = digest.as_ref();
    BytecodeRoot {
        bits: Bits256 {
            w0: u64::from_be_bytes(a[0..8].try_into().unwrap()),
            w1: u64::from_be_bytes(a[8..16].try_into().unwrap()),
            w2: u64::from_be_bytes(a[16..24].try_into().unwrap()),
            w3: u64::from_be_bytes(a[24..32].try_into().unwrap()),
        },
    }
}

/// Computes the bytecode root of a contract binary, the fingerprint used to
/// assert that a deployed instance runs exactly this source artifact.
pub fn compute_root(code: &Vec<u8>) -> (r: BytecodeRoot)
    ensures
        r.bits == code_root_of(code@),
{
    fuel_code_root(code)
}

/// The bytecode root is a pure function of the bytes: any two roots computed
/// from the same bytecode are equal.
pub proof fn lemma_root_deterministic(code: Seq<u8>, r1: BytecodeRoot, r2: BytecodeRoot)
    requires
        r1.bits == code_root_of(code),
        r2.bits == code_root_of(code),
    ensures
        r1 == r2,
{
}

} // verus!
