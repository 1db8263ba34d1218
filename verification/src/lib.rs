//! Client-side orchestration for a constant-product AMM test environment.
//!
//! The library plans and checks everything a harness must get right before it
//! talks to the ledger: deterministic contract addressing, chained pool
//! topologies with predictable reserve ratios, the strictly ordered liquidity
//! pipeline, and the assembly of transaction inputs and outputs from spendable
//! resources. The ledger itself (deployment, contract calls, resource
//! queries) is an external collaborator; the pure identity computations it
//! shares with this client come from the `fuel-tx` crate behind narrow
//! trusted wrappers.

pub mod assembler;
pub mod bytecode;
pub mod deploy;
pub mod errors;
pub mod exchange;
pub mod ids;
pub mod liquidity;
pub mod registry;
pub mod topology;

pub use ids::{AssetId, AssetPair, Bits256, BytecodeRoot, ContractId, Salt};
