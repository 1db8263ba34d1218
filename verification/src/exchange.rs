//! Exchange provisioning: picking a binary variant, deriving the identity a
//! deployment yields, and building the record the registry keeps.
//!
//! The malicious variant exists purely so tests can exercise the registry's
//! defenses against non-conforming exchanges; it never claims a legitimate
//! bytecode root.

use vstd::prelude::*;
use crate::bytecode::{code_root_of, compute_root};
use crate::deploy::{contract_identity, identity_of, ContractArtifact};
use crate::ids::{AssetPair, BytecodeRoot, ContractId, Salt};

verus! {

/// Which exchange binary a provisioning run deploys.
#[derive(Clone, Copy, Debug, PartialEq, Eq, Structural)]
pub enum ExchangeVariant {
    /// The known-good exchange implementation.
    Legitimate,
    /// A deliberately non-conforming implementation for negative tests.
    Malicious,
}

/// Per-exchange provisioning configuration.
#[derive(Clone, Copy, Debug)]
pub struct ExchangeConfig {
    /// The two reserve assets, in constructor order.
    pub pair: AssetPair,
    /// Which binary to deploy.
    pub variant: ExchangeVariant,
    /// Salt distinguishing this instance from other deployments of the same
    /// binary.
    pub salt: Salt,
    /// Whether to attach the bytecode root of the legitimate binary to the
    /// resulting record.
    pub compute_bytecode_root: bool,
}

/// One provisioned exchange, as the registry keeps it. The live connection
/// handle stays with the ledger client, keyed by `id`.
#[derive(Clone, Debug, PartialEq, Eq)]
pub struct ExchangeRecord {
    /// Identity of the deployed exchange contract.
    pub id: ContractId,
    /// The reserve assets the exchange was constructed with.
    pub pair: AssetPair,
    /// Root of the legitimate binary, when the caller asked for it.
    pub bytecode_root: Option<BytecodeRoot>,
}

/// The artifact a configuration selects.
pub open spec fn selected_artifact_spec(
    variant: ExchangeVariant,
    legitimate: ContractArtifact,
    malicious: ContractArtifact,
) -> ContractArtifact {
    match variant {
        ExchangeVariant::Legitimate => legitimate,
        ExchangeVariant::Malicious => malicious,
    }
}

/// Picks the exchange binary the configuration calls for.
pub fn select_artifact<'a>(
    variant: &ExchangeVariant,
    legitimate: &'a ContractArtifact,
    malicious: &'a ContractArtifact,
) -> (r: &'a ContractArtifact)
    ensures
        *r == selected_artifact_spec(*variant, *legitimate, *malicious),
{
    match variant {
        ExchangeVariant::Legitimate => legitimate,
        ExchangeVariant::Malicious => malicious,
    }
}

/// The identity an exchange deployment under this configuration occupies:
/// derived from the selected binary, its storage image and the salt, before
/// the ledger executes anything.
pub fn exchange_identity(
    config: &ExchangeConfig,
    legitimate: &ContractArtifact,
    malicious: &ContractArtifact,
) -> (r: ContractId)
    ensures
        ({
            let chosen = selected_artifact_spec(config.variant, *legitimate, *malicious);
            r.bits == identity_of(chosen.code@, chosen.slots@, config.salt.bits)
        }),
{
    let artifact = select_artifact(&config.variant, legitimate, malicious);
    contract_identity(artifact, &config.salt)
}

/// The record a successful provisioning yields: the deployed identity, the
/// constructed pair, and — only when asked for — the root of the
/// legitimate binary (the malicious path never claims a legitimate root).
pub fn exchange_record(
    config: &ExchangeConfig,
    id: ContractId,
    legitimate_code: &Vec<u8>,
) -> (r: ExchangeRecord)
    ensures
        r.id == id,
        r.pair == config.pair,
        config.compute_bytecode_root ==> (r.bytecode_root matches Some(root)
            && root.bits == code_root_of(legitimate_code@)),
        !config.compute_bytecode_root ==> r.bytecode_root is None,
{
    let bytecode_root = if config.compute_bytecode_root {
        Some(compute_root(legitimate_code))
    } else {
        None
    };
    ExchangeRecord { id, pair: config.pair, bytecode_root }
}

} // verus!
