//! Resource selection and transaction assembly.
//!
//! The ledger's coin-selection service answers one query per asset; this
//! module shapes those answers into a transaction's input set — one signed
//! input per selected coin — and declares exactly one variable output per
//! asset, the placeholder for an amount unknown until the contract runs.
//! A failed selection surfaces immediately and yields no partial parameter
//! set.

use vstd::prelude::*;
use crate::errors::AmmError;
use crate::ids::{Address, AssetId, Bits256};

verus! {

/// Default selection ceiling used when the caller gives no per-asset
/// amount: generous enough that the ledger returns "enough" coins and
/// unspent change comes back.
pub const MAXIMUM_INPUT_AMOUNT: u64 = 1_000_000;

/// Location of an unspent value unit: the transaction that created it and
/// the output position inside it.
#[derive(Clone, Copy, Debug, PartialEq, Eq, Structural)]
pub struct UtxoId {
    pub tx_id: Bits256,
    pub output_index: u16,
}

/// One spendable unit as the ledger's resource query reports it.
#[derive(Clone, Copy, Debug, PartialEq, Eq, Structural)]
pub enum SpendableResource {
    /// An unspent coin: the only kind this assembler can spend.
    Coin { utxo: UtxoId, amount: u64 },
    /// A message-based resource; spending one is not supported here.
    Message { nonce: Bits256, amount: u64 },
}

/// A signed coin input of a transaction under assembly.
#[derive(Clone, Copy, Debug, PartialEq, Eq, Structural)]
pub struct CoinInput {
    pub utxo: UtxoId,
    pub owner: Address,
    pub amount: u64,
    pub asset: AssetId,
    /// Index of the witness that signs this input; the single-signer
    /// transactions built here always use witness zero.
    pub witness_index: u16,
}

/// A variable output: a placeholder whose amount, recipient and asset the
/// ledger fills in at execution time.
#[derive(Clone, Copy, Debug, PartialEq, Eq, Structural)]
pub struct VariableOutput {
    pub amount: u64,
    pub to: Address,
    pub asset: AssetId,
}

/// Inputs and outputs of one transaction under assembly.
#[derive(Clone, Debug, PartialEq, Eq)]
pub struct TransactionParameters {
    pub inputs: Vec<CoinInput>,
    pub outputs: Vec<VariableOutput>,
}

/// The amount a resource carries.
pub open spec fn amount_of(r: SpendableResource) -> u64 {
    match r {
        SpendableResource::Coin { amount, .. } => amount,
        SpendableResource::Message { amount, .. } => amount,
    }
}

/// Whether every reported resource is a coin.
pub open spec fn all_coins(rs: Seq<SpendableResource>) -> bool {
    forall|i: int| 0 <= i < rs.len() ==> rs[i] is Coin
}

/// The signed input a coin resource becomes. A message resource never
/// reaches an assembled result (it fails assembly first); its image here is
/// immaterial and points at a zeroed source.
pub open spec fn input_of_resource(owner: Address, asset: AssetId, r: SpendableResource) -> CoinInput {
    match r {
        SpendableResource::Coin { utxo, amount } => CoinInput {
            utxo,
            owner,
            amount,
            asset,
            witness_index: 0,
        },
        SpendableResource::Message { nonce: _, amount } => CoinInput {
            utxo: UtxoId { tx_id: Bits256 { w0: 0, w1: 0, w2: 0, w3: 0 }, output_index: 0 },
            owner,
            amount,
            asset,
            witness_index: 0,
        },
    }
}

/// The signed inputs one asset's selection becomes, in selection order.
pub open spec fn inputs_of(owner: Address, asset: AssetId, rs: Seq<SpendableResource>) -> Seq<
    CoinInput,
> {
    rs.map_values(|r: SpendableResource| input_of_resource(owner, asset, r))
}

/// What selecting spendable resources for one asset yields: the ledger
/// reporting no sufficient selection surfaces `InsufficientFunds`; a
/// resource kind this assembler cannot spend surfaces
/// `UnsupportedResourceKind`; otherwise one signed input per coin.
pub open spec fn selection_spec(
    owner: Address,
    asset: AssetId,
    requested: u64,
    response: Option<Seq<SpendableResource>>,
) -> Result<Seq<CoinInput>, AmmError> {
    match response {
        None => Err(AmmError::InsufficientFunds { asset, requested }),
        Some(rs) => if all_coins(rs) {
            Ok(inputs_of(owner, asset, rs))
        } else {
            Err(AmmError::UnsupportedResourceKind)
        },
    }
}

/// Converts one asset's selection into signed inputs. `response` is what
/// the ledger's `get_spendable_resources(owner, asset, requested)` query
/// came back with: `None` when it reported that no sufficient selection
/// exists.
pub fn transaction_input_coin(
    owner: &Address,
    asset: &AssetId,
    requested: u64,
    response: &Option<Vec<SpendableResource>>,
) -> (r: Result<Vec<CoinInput>, AmmError>)
    ensures
        match r {
            Ok(v) => selection_spec(*owner, *asset, requested, resp_view(*response))
                == Ok::<_, AmmError>(v@),
            Err(e) => selection_spec(*owner, *asset, requested, resp_view(*response))
                == Err::<Seq<CoinInput>, _>(e),
        },
{
    let rs = match response {
        None => {
            return Err(AmmError::InsufficientFunds { asset: *asset, requested });
        },
        Some(rs) => rs,
    };
    let mut out: Vec<CoinInput> = Vec::new();
    let mut k: usize = 0;
    while k < rs.len()
        invariant
            resp_view(*response) == Some(rs@),
            0 <= k <= rs@.len(),
            out@.len() == k,
            forall|i: int| 0 <= i < k ==> rs@[i] is Coin,
            forall|i: int| 0 <= i < k ==> out@[i] == input_of_resource(*owner, *asset, rs@[i]),
        decreases rs@.len() - k,
    {
        match &rs[k] {
            SpendableResource::Coin { utxo, amount } => {
                out.push(CoinInput {
                    utxo: *utxo,
                    owner: *owner,
                    amount: *amount,
                    asset: *asset,
                    witness_index: 0,
                });
            },
            SpendableResource::Message { .. } => {
                proof {
                    assert(!(rs@[k as int] is Coin));
                    assert(!all_coins(rs@));
                }
                return Err(AmmError::UnsupportedResourceKind);
            },
        }
        k += 1;
    }
    proof {
        assert(out@ =~= inputs_of(*owner, *asset, rs@));
    }
    Ok(out)
}

/// The view of one ledger response.
pub open spec fn resp_view(response: Option<Vec<SpendableResource>>) -> Option<
    Seq<SpendableResource>,
> {
    match response {
        None => None,
        Some(v) => Some(v@),
    }
}

/// The views of a whole response list.
pub open spec fn resps_view(responses: Seq<Option<Vec<SpendableResource>>>) -> Seq<
    Option<Seq<SpendableResource>>,
> {
    Seq::new(responses.len(), |i: int| resp_view(responses[i]))
}

/// The amount requested for asset `i`: the caller's amount when given, else
/// the generous default ceiling.
pub open spec fn requested_amount(amounts: Option<Seq<u64>>, i: int) -> u64 {
    match amounts {
        Some(a) => a[i],
        None => MAXIMUM_INPUT_AMOUNT,
    }
}

/// The zeroed variable-output placeholder appended once per asset.
pub open spec fn zero_variable_output() -> VariableOutput {
    VariableOutput {
        amount: 0,
        to: Address { bits: Bits256 { w0: 0, w1: 0, w2: 0, w3: 0 } },
        asset: AssetId { bits: Bits256 { w0: 0, w1: 0, w2: 0, w3: 0 } },
    }
}

/// Builds the variable-output placeholder for an amount unknown until
/// execution.
pub fn transaction_output_variable() -> (r: VariableOutput)
    ensures
        r == zero_variable_output(),
{
    VariableOutput {
        amount: 0,
        to: Address { bits: Bits256 { w0: 0, w1: 0, w2: 0, w3: 0 } },
        asset: AssetId { bits: Bits256 { w0: 0, w1: 0, w2: 0, w3: 0 } },
    }
}

/// Whether every per-asset selection succeeds.
pub open spec fn assembly_ok(
    owner: Address,
    assets: Seq<AssetId>,
    amounts: Option<Seq<u64>>,
    responses: Seq<Option<Seq<SpendableResource>>>,
) -> bool {
    forall|i: int|
        0 <= i < assets.len() ==> selection_spec(
            owner,
            assets[i],
            requested_amount(amounts, i),
            responses[i],
        ) is Ok
}

/// The input set assembled from the first `k` assets' selections, in asset
/// order; meaningful when those selections succeed.
pub open spec fn assembled_inputs(
    owner: Address,
    assets: Seq<AssetId>,
    amounts: Option<Seq<u64>>,
    responses: Seq<Option<Seq<SpendableResource>>>,
    k: int,
) -> Seq<CoinInput>
    decreases k,
{
    if k <= 0 {
        Seq::empty()
    } else {
        assembled_inputs(owner, assets, amounts, responses, k - 1) + selection_spec(
            owner,
            assets[k - 1],
            requested_amount(amounts, k - 1),
            responses[k - 1],
        ).unwrap()
    }
}

/// Assembles one transaction's inputs and outputs from per-asset ledger
/// responses: all selected coins as signed inputs, in asset order, and
/// exactly one variable output per asset. The first failing selection
/// surfaces as the error and no partial parameter set is produced.
pub fn transaction_inputs_outputs(
    owner: &Address,
    assets: &Vec<AssetId>,
    amounts: &Option<Vec<u64>>,
    responses: &Vec<Option<Vec<SpendableResource>>>,
) -> (r: Result<TransactionParameters, AmmError>)
    requires
        responses@.len() == assets@.len(),
        amounts matches Some(a) ==> a@.len() == assets@.len(),
    ensures
        match r {
            Ok(tp) => {
                &&& assembly_ok(*owner, assets@, amounts_view(*amounts), resps_view(responses@))
                &&& tp.inputs@ == assembled_inputs(
                    *owner,
                    assets@,
                    amounts_view(*amounts),
                    resps_view(responses@),
                    assets@.len() as int,
                )
                &&& tp.outputs@.len() == assets@.len()
                &&& forall|i: int| 0 <= i < assets@.len() ==> tp.outputs@[i]
                    == zero_variable_output()
            },
            Err(e) => exists|i: int|
                {
                    &&& 0 <= i < assets@.len()
                    &&& (forall|j: int|
                        0 <= j < i ==> selection_spec(
                            *owner,
                            assets@[j],
                            requested_amount(amounts_view(*amounts), j),
                            resps_view(responses@)[j],
                        ) is Ok)
                    &&& selection_spec(
                        *owner,
                        assets@[i],
                        requested_amount(amounts_view(*amounts), i),
                        resps_view(responses@)[i],
                    ) == Err::<Seq<CoinInput>, AmmError>(e)
                },
        },
{
    let ghost amts = amounts_view(*amounts);
    let ghost resps = resps_view(responses@);
    let mut inputs: Vec<CoinInput> = Vec::new();
    let mut outputs: Vec<VariableOutput> = Vec::new();
    let mut k: usize = 0;
    while k < assets.len()
        invariant
            responses@.len() == assets@.len(),
            amounts matches Some(a) ==> a@.len() == assets@.len(),
            amts == amounts_view(*amounts),
            resps == resps_view(responses@),
            0 <= k <= assets@.len(),
            forall|j: int|
                0 <= j < k ==> selection_spec(
                    *owner,
                    assets@[j],
                    requested_amount(amts, j),
                    resps[j],
                ) is Ok,
            inputs@ == assembled_inputs(*owner, assets@, amts, resps, k as int),
            outputs@.len() == k,
            forall|i: int| 0 <= i < k ==> outputs@[i] == zero_variable_output(),
        decreases assets@.len() - k,
    {
        let requested: u64 = match amounts {
            Some(a) => a[k],
            None => MAXIMUM_INPUT_AMOUNT,
        };
        proof {
            assert(requested == requested_amount(amts, k as int));
            assert(resps[k as int] == resp_view(responses@[k as int]));
        }
        let selected = transaction_input_coin(owner, &assets[k], requested, &responses[k]);
        match selected {
            Ok(mut v) => {
                inputs.append(&mut v);
            },
            Err(e) => {
                return Err(e);
            },
        }
        outputs.push(transaction_output_variable());
        k += 1;
    }
    Ok(TransactionParameters { inputs, outputs })
}

/// The view of the caller's optional amount list.
pub open spec fn amounts_view(amounts: Option<Vec<u64>>) -> Option<Seq<u64>> {
    match amounts {
        None => None,
        Some(a) => Some(a@),
    }
}

/// Sum of the amounts of the inputs that spend `asset`.
pub open spec fn asset_input_sum(inputs: Seq<CoinInput>, asset: AssetId) -> int
    decreases inputs.len(),
{
    if inputs.len() == 0 {
        0
    } else {
        asset_input_sum(inputs.drop_last(), asset) + if inputs.last().asset == asset {
            inputs.last().amount as int
        } else {
            0
        }
    }
}

/// Total amount one selection reports.
pub open spec fn resource_total(rs: Seq<SpendableResource>) -> int
    decreases rs.len(),
{
    if rs.len() == 0 {
        0
    } else {
        resource_total(rs.drop_last()) + amount_of(rs.last())
    }
}

proof fn lemma_asset_sum_nonneg(inputs: Seq<CoinInput>, asset: AssetId)
    ensures
        asset_input_sum(inputs, asset) >= 0,
    decreases inputs.len(),
{
    if inputs.len() > 0 {
        lemma_asset_sum_nonneg(inputs.drop_last(), asset);
    }
}

proof fn lemma_asset_sum_concat(s1: Seq<CoinInput>, s2: Seq<CoinInput>, asset: AssetId)
    ensures
        asset_input_sum(s1 + s2, asset) == asset_input_sum(s1, asset) + asset_input_sum(
            s2,
            asset,
        ),
    decreases s2.len(),
{
    if s2.len() == 0 {
        assert(s1 + s2 =~= s1);
    } else {
        assert((s1 + s2).drop_last() =~= s1 + s2.drop_last());
        assert((s1 + s2).last() == s2.last());
        lemma_asset_sum_concat(s1, s2.drop_last(), asset);
    }
}

proof fn lemma_inputs_of_sum(owner: Address, asset: AssetId, rs: Seq<SpendableResource>)
    ensures
        asset_input_sum(inputs_of(owner, asset, rs), asset) == resource_total(rs),
    decreases rs.len(),
{
    if rs.len() == 0 {
    } else {
        assert(inputs_of(owner, asset, rs).drop_last() =~= inputs_of(
            owner,
            asset,
            rs.drop_last(),
        ));
        assert(inputs_of(owner, asset, rs).last() == input_of_resource(owner, asset, rs.last()));
        lemma_inputs_of_sum(owner, asset, rs.drop_last());
    }
}

proof fn lemma_assembled_cover_upto(
    owner: Address,
    assets: Seq<AssetId>,
    amounts: Option<Seq<u64>>,
    responses: Seq<Option<Seq<SpendableResource>>>,
    i: int,
    k: int,
)
    requires
        responses.len() == assets.len(),
        amounts matches Some(a) ==> a.len() == assets.len(),
        assembly_ok(owner, assets, amounts, responses),
        forall|j: int|
            0 <= j < assets.len() ==> resource_total(responses[j].unwrap()) >= requested_amount(
                amounts,
                j,
            ),
        0 <= i < k <= assets.len(),
    ensures
        asset_input_sum(assembled_inputs(owner, assets, amounts, responses, k), assets[i])
            >= requested_amount(amounts, i),
    decreases k,
{
    let prefix = assembled_inputs(owner, assets, amounts, responses, k - 1);
    let block = selection_spec(
        owner,
        assets[k - 1],
        requested_amount(amounts, k - 1),
        responses[k - 1],
    ).unwrap();
    lemma_asset_sum_concat(prefix, block, assets[i]);
    if i == k - 1 {
        let rs = responses[i].unwrap();
        assert(block == inputs_of(owner, assets[i], rs));
        lemma_inputs_of_sum(owner, assets[i], rs);
        lemma_asset_sum_nonneg(prefix, assets[i]);
    } else {
        lemma_assembled_cover_upto(owner, assets, amounts, responses, i, k - 1);
        lemma_asset_sum_nonneg(block, assets[i]);
    }
}

/// Covering law: when every per-asset selection succeeds and each reported
/// selection's total is at least the amount requested for its asset, the
/// assembled input set spends, for each asset in the request, at least the
/// amount requested for it.
pub proof fn lemma_inputs_cover_requests(
    owner: Address,
    assets: Seq<AssetId>,
    amounts: Option<Seq<u64>>,
    responses: Seq<Option<Seq<SpendableResource>>>,
)
    requires
        responses.len() == assets.len(),
        amounts matches Some(a) ==> a.len() == assets.len(),
        assembly_ok(owner, assets, amounts, responses),
        forall|j: int|
            0 <= j < assets.len() ==> resource_total(responses[j].unwrap()) >= requested_amount(
                amounts,
                j,
            ),
    ensures
        forall|i: int|
            0 <= i < assets.len() ==> asset_input_sum(
                assembled_inputs(owner, assets, amounts, responses, assets.len() as int),
                assets[i],
            ) >= requested_amount(amounts, i),
{
    assert forall|i: int| 0 <= i < assets.len() implies asset_input_sum(
        assembled_inputs(owner, assets, amounts, responses, assets.len() as int),
        assets[i],
    ) >= requested_amount(amounts, i) by {
        lemma_assembled_cover_upto(owner, assets, amounts, responses, i, assets.len() as int);
    }
}

} // verus!
