//! Deterministic addressing and bytecode verification, exercised against the
//! real ledger digest code.

use amm_orchestrator::bytecode::compute_root;
use amm_orchestrator::deploy::{contract_identity, ContractArtifact, StorageSlot};
use amm_orchestrator::ids::{Bits256, Salt};

fn bits_from_bytes(bytes: [u8; 32]) -> Bits256 {
    Bits256 {
        w0: u64::from_be_bytes(bytes[0..8].try_into().unwrap()),
        w1: u64::from_be_bytes(bytes[8..16].try_into().unwrap()),
        w2: u64::from_be_bytes(bytes[16..24].try_into().unwrap()),
        w3: u64::from_be_bytes(bytes[24..32].try_into().unwrap()),
    }
}

#[test]
fn bytecode_root_is_deterministic() {
    let code: Vec<u8> = vec![0x90, 0x00, 0x00, 0x47, 0x47, 0x00, 0x00, 0x00];
    let r1 = compute_root(&code);
    let r2 = compute_root(&code);
    assert_eq!(r1, r2);
}

#[test]
fn bytecode_root_distinguishes_binaries() {
    let legitimate: Vec<u8> = vec![0x90, 0x00, 0x00, 0x47, 0x47, 0x00, 0x00, 0x00];
    let malicious: Vec<u8> = vec![0x90, 0x00, 0x00, 0x47, 0x47, 0x00, 0x00, 0x01];
    assert_ne!(compute_root(&legitimate), compute_root(&malicious));
}

#[test]
fn empty_artifact_zero_salt_matches_ledger_constant() {
    // The ledger documents the identity of the contract with empty bytecode,
    // zero salt and empty state root; deriving it client-side must agree.
    let expected = bits_from_bytes([
        55, 187, 13, 108, 165, 51, 58, 230, 74, 109, 215, 229, 33, 69, 82, 120, 81, 4, 85, 54,
        172, 30, 84, 115, 226, 164, 0, 99, 103, 189, 154, 243,
    ]);
    let artifact = ContractArtifact { code: vec![], slots: vec![] };
    let id = contract_identity(&artifact, &Salt::zeroed());
    assert_eq!(id.bits, expected);
}

#[test]
fn equal_salts_equal_identities() {
    let artifact = ContractArtifact {
        code: vec![1, 2, 3, 4, 5, 6, 7, 8],
        slots: vec![StorageSlot {
            key: Bits256 { w0: 0, w1: 0, w2: 0, w3: 9 },
            value: Bits256 { w0: 0, w1: 0, w2: 0, w3: 7 },
        }],
    };
    let id1 = contract_identity(&artifact, &Salt::from_byte(5));
    let id2 = contract_identity(&artifact, &Salt::from_byte(5));
    assert_eq!(id1, id2);
}

#[test]
fn distinct_salts_distinct_identities() {
    let artifact = ContractArtifact { code: vec![1, 2, 3, 4, 5, 6, 7, 8], slots: vec![] };
    let id1 = contract_identity(&artifact, &Salt::from_byte(0));
    let id2 = contract_identity(&artifact, &Salt::from_byte(1));
    assert_ne!(id1, id2);
}

#[test]
fn storage_image_changes_identity() {
    let code: Vec<u8> = vec![1, 2, 3, 4, 5, 6, 7, 8];
    let bare = ContractArtifact { code: code.clone(), slots: vec![] };
    let seeded = ContractArtifact {
        code,
        slots: vec![StorageSlot {
            key: Bits256 { w0: 0, w1: 0, w2: 0, w3: 1 },
            value: Bits256 { w0: 0, w1: 0, w2: 0, w3: 2 },
        }],
    };
    let salt = Salt::zeroed();
    assert_ne!(contract_identity(&bare, &salt), contract_identity(&seeded, &salt));
}

#[test]
fn salt_from_byte_repeats_the_byte() {
    let s = Salt::from_byte(3);
    assert_eq!(s.bits.w0, 0x0303030303030303);
    assert_eq!(s.bits.w1, 0x0303030303030303);
    assert_eq!(s.bits.w2, 0x0303030303030303);
    assert_eq!(s.bits.w3, 0x0303030303030303);
    assert_ne!(Salt::from_byte(0), Salt::from_byte(1));
}

#[test]
fn bits_to_bytes_is_big_endian() {
    let b = Bits256 { w0: 0x0102030405060708, w1: 0, w2: 0, w3: 0xff };
    let bytes = b.to_bytes();
    assert_eq!(bytes[0], 1);
    assert_eq!(bytes[7], 8);
    assert_eq!(bytes[8], 0);
    assert_eq!(bytes[31], 0xff);
}
