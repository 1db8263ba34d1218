//! Chained pool planning, liquidity sequencing and the registry.

use amm_orchestrator::errors::AmmError;
use amm_orchestrator::exchange::{
    exchange_record, ExchangeConfig, ExchangeRecord, ExchangeVariant,
};
use amm_orchestrator::ids::{AssetId, AssetPair, Bits256, ContractId, Salt};
use amm_orchestrator::liquidity::{
    deposit_and_add_liquidity, liquidity_outcome, AddLiquidityReply, LiquidityAction,
    LiquidityParameters,
};
use amm_orchestrator::registry::AmmRegistry;
use amm_orchestrator::topology::{chained_pool_setups, register_chained_pools};

fn asset(n: u64) -> AssetId {
    AssetId { bits: Bits256 { w0: 0, w1: 0, w2: 0, w3: n } }
}

fn contract(n: u64) -> ContractId {
    ContractId { bits: Bits256 { w0: 0, w1: 0, w2: 0, w3: n } }
}

#[test]
fn chain_of_three_assets_plans_two_pools() {
    let (x, y, z) = (asset(1), asset(2), asset(3));
    let setups = chained_pool_setups(&vec![x, y, z], 40);

    assert_eq!(setups.len(), 2);
    assert_eq!(setups[0].config.pair, AssetPair { a: x, b: y });
    assert_eq!(setups[1].config.pair, AssetPair { a: y, b: z });
    // Identical binaries get per-index salts: bytes all zero, then all one.
    assert_eq!(setups[0].config.salt, Salt::from_byte(0));
    assert_eq!(setups[1].config.salt, Salt::from_byte(1));
    assert_eq!(setups[0].config.variant, ExchangeVariant::Legitimate);
    // Reserve ratios 1:1 then 1:2.
    assert_eq!(setups[0].liquidity.amount_a, 100_000);
    assert_eq!(setups[0].liquidity.amount_b, 100_000);
    assert_eq!(setups[1].liquidity.amount_a, 100_000);
    assert_eq!(setups[1].liquidity.amount_b, 200_000);
    // Deadline ten blocks out; minimum liquidity is the smaller deposit.
    assert_eq!(setups[0].liquidity.deadline, 50);
    assert_eq!(setups[0].liquidity.min_liquidity, 100_000);
}

#[test]
fn chain_reserve_ratio_schedule_is_geometric() {
    let assets: Vec<AssetId> = (1..=5).map(asset).collect();
    let setups = chained_pool_setups(&assets, 0);
    assert_eq!(setups.len(), 4);
    for (i, setup) in setups.iter().enumerate() {
        assert_eq!(setup.liquidity.amount_a, 100_000);
        assert_eq!(setup.liquidity.amount_b, 100_000 * (i as u64 + 1));
    }
}

#[test]
fn chain_under_two_assets_is_empty() {
    assert_eq!(chained_pool_setups(&vec![], 7).len(), 0);
    assert_eq!(chained_pool_setups(&vec![asset(1)], 7).len(), 0);
}

#[test]
fn register_chain_fills_registry_in_order() {
    let (x, y, z) = (asset(1), asset(2), asset(3));
    let mut amm = AmmRegistry::new(contract(99));
    let ids = vec![contract(10), contract(11)];

    register_chained_pools(&mut amm, &vec![x, y, z], &ids);

    assert_eq!(amm.len(), 2);
    let first = amm.lookup(&AssetPair { a: x, b: y }).unwrap();
    assert_eq!(first.id, contract(10));
    assert_eq!(first.bytecode_root, None);
    let second = amm.lookup(&AssetPair { a: y, b: z }).unwrap();
    assert_eq!(second.id, contract(11));
    // No pool under a non-consecutive pair.
    assert!(amm.lookup(&AssetPair { a: x, b: z }).is_none());
    // Instances to attach to a multi-hop call: both pools, then the factory.
    assert_eq!(amm.contract_instances(), vec![contract(10), contract(11), contract(99)]);
}

#[test]
fn registry_tracks_pairs_and_identity() {
    let mut amm = AmmRegistry::new(contract(1));
    assert_eq!(amm.id(), contract(1));
    assert_eq!(amm.len(), 0);
    let pair = AssetPair { a: asset(4), b: asset(5) };
    assert!(!amm.contains_pair(&pair));
    amm.add_pool(ExchangeRecord { id: contract(2), pair, bytecode_root: None });
    assert!(amm.contains_pair(&pair));
    assert_eq!(amm.pool_at(0).pair, pair);
    assert_eq!(amm.len(), 1);
}

#[test]
fn exchange_record_attaches_root_only_on_request() {
    let pair = AssetPair { a: asset(1), b: asset(2) };
    let legit_code: Vec<u8> = vec![9, 9, 9, 9, 9, 9, 9, 9];
    let with_root = exchange_record(
        &ExchangeConfig {
            pair,
            variant: ExchangeVariant::Legitimate,
            salt: Salt::zeroed(),
            compute_bytecode_root: true,
        },
        contract(7),
        &legit_code,
    );
    assert_eq!(with_root.id, contract(7));
    assert_eq!(with_root.pair, pair);
    assert_eq!(
        with_root.bytecode_root,
        Some(amm_orchestrator::bytecode::compute_root(&legit_code))
    );

    let without = exchange_record(
        &ExchangeConfig {
            pair,
            variant: ExchangeVariant::Malicious,
            salt: Salt::zeroed(),
            compute_bytecode_root: false,
        },
        contract(8),
        &legit_code,
    );
    assert_eq!(without.bytecode_root, None);
}

#[test]
fn liquidity_plan_orders_deposits_before_add() {
    let pair = AssetPair { a: asset(1), b: asset(2) };
    let params = LiquidityParameters {
        amount_a: 100,
        amount_b: 300,
        min_liquidity: 100,
        deadline: 17,
    };
    let actions = deposit_and_add_liquidity(&pair, &params, 100, 300).unwrap();
    assert_eq!(
        actions,
        vec![
            LiquidityAction::Deposit { asset: asset(1), amount: 100 },
            LiquidityAction::Deposit { asset: asset(2), amount: 300 },
            LiquidityAction::AddLiquidity { min_liquidity: 100, deadline: 17 },
        ]
    );
}

#[test]
fn liquidity_plan_rejects_overdrawn_deposit() {
    let pair = AssetPair { a: asset(1), b: asset(2) };
    let params = LiquidityParameters { amount_a: 100, amount_b: 300, min_liquidity: 1, deadline: 5 };
    let err = deposit_and_add_liquidity(&pair, &params, 99, 300).unwrap_err();
    assert_eq!(
        err,
        AmmError::InsufficientBalance { asset: asset(1), requested: 100, available: 99 }
    );
    let err_b = deposit_and_add_liquidity(&pair, &params, 100, 299).unwrap_err();
    assert_eq!(
        err_b,
        AmmError::InsufficientBalance { asset: asset(2), requested: 300, available: 299 }
    );
}

#[test]
fn past_deadline_mints_nothing() {
    let outcome = liquidity_outcome(&AddLiquidityReply::PastDeadline);
    assert_eq!(outcome, Err(AmmError::DeadlineExceeded));
}

#[test]
fn liquidity_outcomes_surface_the_exchange_verdict() {
    assert_eq!(liquidity_outcome(&AddLiquidityReply::Minted { amount: 42 }), Ok(42));
    assert_eq!(
        liquidity_outcome(&AddLiquidityReply::BelowMinimum),
        Err(AmmError::SlippageExceeded)
    );
}
