//! Plain-value identifiers used throughout the orchestration layer.
//!
//! On the ledger, asset classes, deployed contracts, deployment salts and
//! bytecode roots are all 256-bit values. Here each is a distinct wrapper
//! around four 64-bit big-endian words, so that the logic can compare and
//! store them as ordinary data while the ledger client keeps the wire
//! representation.

use vstd::prelude::*;

verus! {

/// A 256-bit value as four 64-bit words, most significant first.
#[derive(Clone, Copy, Debug, PartialEq, Eq, Structural)]
pub struct Bits256 {
    pub w0: u64,
    pub w1: u64,
    pub w2: u64,
    pub w3: u64,
}

/// The 32 bytes of a 256-bit value, most significant first.
pub open spec fn bytes_of_bits(b: Bits256) -> Seq<u8> {
    seq![
        (b.w0 >> 56) as u8, (b.w0 >> 48) as u8, (b.w0 >> 40) as u8, (b.w0 >> 32) as u8,
        (b.w0 >> 24) as u8, (b.w0 >> 16) as u8, (b.w0 >> 8) as u8, b.w0 as u8,
        (b.w1 >> 56) as u8, (b.w1 >> 48) as u8, (b.w1 >> 40) as u8, (b.w1 >> 32) as u8,
        (b.w1 >> 24) as u8, (b.w1 >> 16) as u8, (b.w1 >> 8) as u8, b.w1 as u8,
        (b.w2 >> 56) as u8, (b.w2 >> 48) as u8, (b.w2 >> 40) as u8, (b.w2 >> 32) as u8,
        (b.w2 >> 24) as u8, (b.w2 >> 16) as u8, (b.w2 >> 8) as u8, b.w2 as u8,
        (b.w3 >> 56) as u8, (b.w3 >> 48) as u8, (b.w3 >> 40) as u8, (b.w3 >> 32) as u8,
        (b.w3 >> 24) as u8, (b.w3 >> 16) as u8, (b.w3 >> 8) as u8, b.w3 as u8,
    ]
}

impl Bits256 {
    /// The big-endian byte representation, as the ledger client encodes it.
    pub fn to_bytes(&self) -> (r: [u8; 32])
        ensures
            r@ == bytes_of_bits(*self),
    {
        let r: [u8; 32] = [
            (self.w0 >> 56) as u8, (self.w0 >> 48) as u8, (self.w0 >> 40) as u8,
            (self.w0 >> 32) as u8, (self.w0 >> 24) as u8, (self.w0 >> 16) as u8,
            (self.w0 >> 8) as u8, self.w0 as u8,
            (self.w1 >> 56) as u8, (self.w1 >> 48) as u8, (self.w1 >> 40) as u8,
            (self.w1 >> 32) as u8, (self.w1 >> 24) as u8, (self.w1 >> 16) as u8,
            (self.w1 >> 8) as u8, self.w1 as u8,
            (self.w2 >> 56) as u8, (self.w2 >> 48) as u8, (self.w2 >> 40) as u8,
            (self.w2 >> 32) as u8, (self.w2 >> 24) as u8, (self.w2 >> 16) as u8,
            (self.w2 >> 8) as u8, self.w2 as u8,
            (self.w3 >> 56) as u8, (self.w3 >> 48) as u8, (self.w3 >> 40) as u8,
            (self.w3 >> 32) as u8, (self.w3 >> 24) as u8, (self.w3 >> 16) as u8,
            (self.w3 >> 8) as u8, self.w3 as u8,
        ];
        proof {
            assert(r@ =~= bytes_of_bits(*self));
        }
        r
    }
}

/// Identifier of a fungible asset class.
#[derive(Clone, Copy, Debug, PartialEq, Eq, Structural)]
pub struct AssetId {
    pub bits: Bits256,
}

/// Identifier of a deployed contract instance.
#[derive(Clone, Copy, Debug, PartialEq, Eq, Structural)]
pub struct ContractId {
    pub bits: Bits256,
}

/// Address owning spendable resources.
#[derive(Clone, Copy, Debug, PartialEq, Eq, Structural)]
pub struct Address {
    pub bits: Bits256,
}

/// Deployer-chosen value that makes identical bytecode deploy to distinct
/// contract identities.
#[derive(Clone, Copy, Debug, PartialEq, Eq, Structural)]
pub struct Salt {
    pub bits: Bits256,
}

/// Content-derived fingerprint of a contract's raw bytecode.
#[derive(Clone, Copy, Debug, PartialEq, Eq, Structural)]
pub struct BytecodeRoot {
    pub bits: Bits256,
}

/// The two reserve assets of one exchange, in the order the exchange was
/// constructed with. `(a, b)` and `(b, a)` are distinct pairs; callers must
/// apply one canonical order uniformly when registering and looking up.
#[derive(Clone, Copy, Debug, PartialEq, Eq, Structural)]
pub struct AssetPair {
    pub a: AssetId,
    pub b: AssetId,
}

/// The word obtained by repeating one byte eight times.
pub open spec fn repeated_byte_word(b: u8) -> u64 {
    (b as u64) | ((b as u64) << 8) | ((b as u64) << 16) | ((b as u64) << 24)
        | ((b as u64) << 32) | ((b as u64) << 40) | ((b as u64) << 48) | ((b as u64) << 56)
}

/// The salt whose 32 bytes all equal `b`: the convention used to give the
/// i-th structurally identical exchange its own identity.
pub open spec fn salt_from_byte(b: u8) -> Salt {
    Salt {
        bits: Bits256 {
            w0: repeated_byte_word(b),
            w1: repeated_byte_word(b),
            w2: repeated_byte_word(b),
            w3: repeated_byte_word(b),
        },
    }
}

impl Salt {
    /// Builds the salt whose 32 bytes all equal `b`.
    pub fn from_byte(b: u8) -> (r: Salt)
        ensures
            r == salt_from_byte(b),
    {
        let w: u64 = (b as u64) | ((b as u64) << 8) | ((b as u64) << 16) | ((b as u64) << 24)
            | ((b as u64) << 32) | ((b as u64) << 40) | ((b as u64) << 48) | ((b as u64) << 56);
        Salt { bits: Bits256 { w0: w, w1: w, w2: w, w3: w } }
    }

    /// The all-zero salt.
    pub fn zeroed() -> (r: Salt)
        ensures
            r == salt_from_byte(0),
    {
        Salt::from_byte(0)
    }
}

/// Distinct bytes give distinct repeated-byte salts.
pub proof fn lemma_salt_from_byte_injective(x: u8, y: u8)
    requires
        x != y,
    ensures
        salt_from_byte(x) != salt_from_byte(y),
{
    assert(repeated_byte_word(x) != repeated_byte_word(y)) by (bit_vector)
        requires
            x != y,
    ;
}

} // verus!
