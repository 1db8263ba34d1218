//! The error taxonomy of the orchestration layer.
//!
//! Every component surfaces its error immediately to the caller; nothing is
//! swallowed or retried, and a multi-step sequence that fails partway leaves
//! the work already done in place.

use vstd::prelude::*;
use crate::ids::AssetId;

verus! {

/// What can go wrong while orchestrating deployments, liquidity and
/// transaction assembly.
#[derive(Clone, Copy, Debug, PartialEq, Eq, Structural)]
pub enum AmmError {
    /// The ledger rejected contract creation.
    Deployment,
    /// The deployed contract rejected its constructor call (constructors are
    /// single-shot).
    Constructor,
    /// The ledger reported that no sufficient selection of spendable
    /// resources exists for this asset and amount.
    InsufficientFunds { asset: AssetId, requested: u64 },
    /// A deposit amount exceeds the wallet's holdings of that asset.
    InsufficientBalance { asset: AssetId, requested: u64, available: u64 },
    /// The exchange rejected add-liquidity because its deadline had passed.
    DeadlineExceeded,
    /// The exchange rejected add-liquidity because the minted amount fell
    /// under the caller's minimum.
    SlippageExceeded,
    /// The ledger returned a resource of a kind this assembler cannot spend.
    UnsupportedResourceKind,
}

} // verus!
