//! The pool topology builder: a path graph of exchanges over an ordered
//! asset list.
//!
//! For assets `[a0, a1, ..., a(n-1)]` the chain holds one pool per
//! consecutive pair. Pool `i` is deployed under the salt whose bytes all
//! equal `i` (structurally identical binaries need distinct salts to occupy
//! distinct identities) and is seeded `(100_000, 100_000 * (i + 1))`, so
//! successive pools carry reserve ratios 1:1, 1:2, 1:3, … — a predictable,
//! non-trivial price landscape for multi-hop routing tests. Fewer than two
//! assets yield an empty chain.

use vstd::prelude::*;
use crate::exchange::{ExchangeConfig, ExchangeRecord, ExchangeVariant};
use crate::ids::{salt_from_byte, AssetId, AssetPair, ContractId};
use crate::liquidity::LiquidityParameters;
use crate::registry::AmmRegistry;

verus! {

/// Deposit seeded into the first reserve of every chained pool, and the base
/// of the geometric second-reserve schedule.
pub const CHAIN_BASE_DEPOSIT: u64 = 100_000;

/// How many blocks past the current height a chained pool's add-liquidity
/// deadline lies: generous enough not to expire under test-network latency.
pub const CHAIN_DEADLINE_LOOKAHEAD: u64 = 10;

/// The consecutive asset pairs of a chain: `(assets[i], assets[i+1])`.
pub open spec fn consecutive_pairs(assets: Seq<AssetId>) -> Seq<AssetPair> {
    if assets.len() < 2 {
        Seq::empty()
    } else {
        Seq::new((assets.len() - 1) as nat, |i: int| AssetPair { a: assets[i], b: assets[i + 1] })
    }
}

/// Everything one chained pool is provisioned with: its exchange
/// configuration and its initial liquidity.
#[derive(Clone, Copy, Debug)]
pub struct PoolSetup {
    pub config: ExchangeConfig,
    pub liquidity: LiquidityParameters,
}

/// The setup the chain gives pool `i` over `pair`, at a given current block
/// height.
pub open spec fn chain_setup_at(pair: AssetPair, i: int, block_height: u64) -> PoolSetup {
    PoolSetup {
        config: ExchangeConfig {
            pair,
            variant: ExchangeVariant::Legitimate,
            salt: salt_from_byte(i as u8),
            compute_bytecode_root: false,
        },
        liquidity: LiquidityParameters {
            amount_a: CHAIN_BASE_DEPOSIT,
            amount_b: (CHAIN_BASE_DEPOSIT * ((i + 1) as u64)) as u64,
            min_liquidity: CHAIN_BASE_DEPOSIT,
            deadline: (block_height + CHAIN_DEADLINE_LOOKAHEAD) as u64,
        },
    }
}

/// Plans the whole chain: one setup per consecutive pair of `assets`, pool
/// `i` salted with byte `i` and seeded `(100_000, 100_000 * (i + 1))`, with
/// a deadline ten blocks past the current height and the smaller deposit as
/// minimum liquidity.
pub fn chained_pool_setups(assets: &Vec<AssetId>, block_height: u64) -> (r: Vec<PoolSetup>)
    requires
        assets@.len() <= 256,
        block_height + CHAIN_DEADLINE_LOOKAHEAD <= u64::MAX,
    ensures
        r@.len() == consecutive_pairs(assets@).len(),
        forall|i: int|
            0 <= i < r@.len() ==> r@[i] == chain_setup_at(
                consecutive_pairs(assets@)[i],
                i,
                block_height,
            ),
{
    let mut out: Vec<PoolSetup> = Vec::new();
    if assets.len() < 2 {
        return out;
    }
    let count = assets.len() - 1;
    let mut k: usize = 0;
    while k < count
        invariant
            count == assets@.len() - 1,
            2 <= assets@.len() <= 256,
            block_height + CHAIN_DEADLINE_LOOKAHEAD <= u64::MAX,
            0 <= k <= count,
            out@.len() == k,
            forall|i: int|
                0 <= i < k ==> out@[i] == chain_setup_at(
                    consecutive_pairs(assets@)[i],
                    i,
                    block_height,
                ),
        decreases count - k,
    {
        let pair = AssetPair { a: assets[k], b: assets[k + 1] };
        let setup = PoolSetup {
            config: ExchangeConfig {
                pair,
                variant: ExchangeVariant::Legitimate,
                salt: crate::ids::Salt::from_byte(k as u8),
                compute_bytecode_root: false,
            },
            liquidity: LiquidityParameters {
                amount_a: CHAIN_BASE_DEPOSIT,
                amount_b: CHAIN_BASE_DEPOSIT * (k as u64 + 1),
                min_liquidity: CHAIN_BASE_DEPOSIT,
                deadline: block_height + CHAIN_DEADLINE_LOOKAHEAD,
            },
        };
        proof {
            assert(consecutive_pairs(assets@)[k as int] == pair);
            assert(setup == chain_setup_at(consecutive_pairs(assets@)[k as int], k as int,
                block_height));
        }
        out.push(setup);
        k += 1;
    }
    out
}

/// Distinct chain positions get distinct salts: within the planner's bound
/// of 256 assets the per-index salt byte never wraps, so the structurally
/// identical exchange binaries along one chain are deployed under pairwise
/// distinct salts.
pub proof fn lemma_chain_salts_distinct(assets: Seq<AssetId>, block_height: u64, i: int, j: int)
    requires
        assets.len() <= 256,
        0 <= i < j < consecutive_pairs(assets).len(),
    ensures
        chain_setup_at(consecutive_pairs(assets)[i], i, block_height).config.salt
            != chain_setup_at(consecutive_pairs(assets)[j], j, block_height).config.salt,
{
    assert((i as u8) as int == i);
    assert((j as u8) as int == j);
    crate::ids::lemma_salt_from_byte_injective(i as u8, j as u8);
}

/// The record the chain keeps for pool `i`: the identity the ledger
/// assigned, the pair, and no bytecode root (chained pools are deployed
/// from the legitimate binary without attaching one).
pub open spec fn chain_record_at(pair: AssetPair, id: ContractId) -> ExchangeRecord {
    ExchangeRecord { id, pair, bytecode_root: None }
}

/// Registers a whole chain with the registry: pool `i` over
/// `(assets[i], assets[i+1])` under identity `ids[i]`. The consecutive
/// pairs must be pairwise distinct and none already registered — duplicate
/// pairs are a caller error. The registry afterwards holds exactly
/// `assets.len() - 1` more pools, in chain order.
pub fn register_chained_pools(
    amm: &mut AmmRegistry,
    assets: &Vec<AssetId>,
    ids: &Vec<ContractId>,
)
    requires
        old(amm).wf(),
        ids@.len() == consecutive_pairs(assets@).len(),
        forall|i: int, j: int|
            0 <= i < j < consecutive_pairs(assets@).len() ==> consecutive_pairs(assets@)[i]
                != consecutive_pairs(assets@)[j],
        forall|i: int|
            0 <= i < consecutive_pairs(assets@).len() ==> !old(amm).contains_pair_spec(
                consecutive_pairs(assets@)[i],
            ),
    ensures
        final(amm).wf(),
        final(amm).identity() == old(amm).identity(),
        final(amm).pools().len() == old(amm).pools().len() + consecutive_pairs(assets@).len(),
        forall|i: int|
            0 <= i < old(amm).pools().len() ==> final(amm).pools()[i] == old(amm).pools()[i],
        forall|i: int|
            0 <= i < consecutive_pairs(assets@).len() ==> final(amm).pools()[old(
                amm,
            ).pools().len() + i] == chain_record_at(consecutive_pairs(assets@)[i], ids@[i]),
{
    let ghost pairs = consecutive_pairs(assets@);
    let ghost base = old(amm).pools().len() as int;
    if assets.len() < 2 {
        return;
    }
    let count = assets.len() - 1;
    let mut k: usize = 0;
    while k < count
        invariant
            count == assets@.len() - 1,
            2 <= assets@.len(),
            pairs == consecutive_pairs(assets@),
            base == old(amm).pools().len(),
            ids@.len() == pairs.len(),
            count == pairs.len(),
            forall|i: int, j: int| 0 <= i < j < pairs.len() ==> pairs[i] != pairs[j],
            forall|i: int|
                0 <= i < pairs.len() ==> !old(amm).contains_pair_spec(pairs[i]),
            0 <= k <= count,
            amm.wf(),
            amm.identity() == old(amm).identity(),
            amm.pools().len() == base + k,
            forall|i: int| 0 <= i < base ==> amm.pools()[i] == old(amm).pools()[i],
            forall|i: int|
                0 <= i < k ==> amm.pools()[base + i] == chain_record_at(pairs[i], ids@[i]),
        decreases count - k,
    {
        let pair = AssetPair { a: assets[k], b: assets[k + 1] };
        proof {
            assert(pairs[k as int] == pair);
            assert forall|i: int| 0 <= i < amm.pools().len()
                implies amm.pools()[i].pair != pair by {
                if i < base {
                    assert(amm.pools()[i] == old(amm).pools()[i]);
                    assert(!old(amm).contains_pair_spec(pairs[k as int]));
                } else {
                    assert(amm.pools()[i] == chain_record_at(pairs[i - base], ids@[i - base]));
                    assert(pairs[i - base] != pairs[k as int]);
                }
            }
        }
        let record = ExchangeRecord { id: ids[k], pair, bytecode_root: None };
        amm.add_pool(record);
        k += 1;
    }
}

} // verus!
