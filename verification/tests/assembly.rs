//! Transaction assembly from ledger resource selections.

use amm_orchestrator::assembler::{
    transaction_input_coin, transaction_inputs_outputs, transaction_output_variable,
    SpendableResource, UtxoId, MAXIMUM_INPUT_AMOUNT,
};
use amm_orchestrator::errors::AmmError;
use amm_orchestrator::ids::{Address, AssetId, Bits256};

fn asset(n: u64) -> AssetId {
    AssetId { bits: Bits256 { w0: 0, w1: 0, w2: 0, w3: n } }
}

fn owner() -> Address {
    Address { bits: Bits256 { w0: 0, w1: 0, w2: 0, w3: 77 } }
}

fn coin(tx: u64, amount: u64) -> SpendableResource {
    SpendableResource::Coin {
        utxo: UtxoId { tx_id: Bits256 { w0: 0, w1: 0, w2: 0, w3: tx }, output_index: 0 },
        amount,
    }
}

fn sum_for(inputs: &[amm_orchestrator::assembler::CoinInput], a: AssetId) -> u64 {
    inputs.iter().filter(|i| i.asset == a).map(|i| i.amount).sum()
}

#[test]
fn two_assets_one_output_each_inputs_cover_amounts() {
    let (a, b) = (asset(1), asset(2));
    let responses = vec![
        Some(vec![coin(1, 6), coin(2, 5)]),
        Some(vec![coin(3, 25)]),
    ];
    let tp = transaction_inputs_outputs(
        &owner(),
        &vec![a, b],
        &Some(vec![10, 20]),
        &responses,
    )
    .unwrap();

    assert_eq!(tp.outputs.len(), 2);
    assert_eq!(tp.inputs.len(), 3);
    assert!(sum_for(&tp.inputs, a) >= 10);
    assert!(sum_for(&tp.inputs, b) >= 20);
    for input in &tp.inputs {
        assert_eq!(input.owner, owner());
        assert_eq!(input.witness_index, 0);
    }
    // Inputs keep asset order: the selection for `a` precedes the one for `b`.
    assert_eq!(tp.inputs[0].asset, a);
    assert_eq!(tp.inputs[1].asset, a);
    assert_eq!(tp.inputs[2].asset, b);
    assert_eq!(tp.inputs[2].amount, 25);
}

#[test]
fn insufficient_funds_yields_no_partial_parameters() {
    let (a, b) = (asset(1), asset(2));
    let responses = vec![Some(vec![coin(1, 50)]), None];
    let r = transaction_inputs_outputs(&owner(), &vec![a, b], &Some(vec![10, 20]), &responses);
    assert_eq!(
        r.unwrap_err(),
        AmmError::InsufficientFunds { asset: b, requested: 20 }
    );
}

#[test]
fn unsupported_resource_kind_is_rejected() {
    let a = asset(1);
    let responses = vec![Some(vec![
        coin(1, 50),
        SpendableResource::Message { nonce: Bits256 { w0: 0, w1: 0, w2: 0, w3: 4 }, amount: 9 },
    ])];
    let r = transaction_inputs_outputs(&owner(), &vec![a], &Some(vec![10]), &responses);
    assert_eq!(r.unwrap_err(), AmmError::UnsupportedResourceKind);
}

#[test]
fn missing_amounts_request_the_default_ceiling() {
    let a = asset(1);
    let r = transaction_input_coin(&owner(), &a, MAXIMUM_INPUT_AMOUNT, &None);
    assert_eq!(
        r.unwrap_err(),
        AmmError::InsufficientFunds { asset: a, requested: 1_000_000 }
    );
}

#[test]
fn selection_becomes_signed_inputs() {
    let a = asset(9);
    let r = transaction_input_coin(&owner(), &a, 7, &Some(vec![coin(5, 8)])).unwrap();
    assert_eq!(r.len(), 1);
    assert_eq!(r[0].amount, 8);
    assert_eq!(r[0].asset, a);
    assert_eq!(r[0].owner, owner());
    assert_eq!(r[0].utxo.tx_id, Bits256 { w0: 0, w1: 0, w2: 0, w3: 5 });
}

#[test]
fn variable_output_is_zeroed_placeholder() {
    let out = transaction_output_variable();
    assert_eq!(out.amount, 0);
    assert_eq!(out.to, Address { bits: Bits256 { w0: 0, w1: 0, w2: 0, w3: 0 } });
    assert_eq!(out.asset, asset(0));
}
