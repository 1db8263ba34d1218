//! The liquidity pipeline: deposit both reserve assets, then add liquidity.
//!
//! The three ledger calls must be issued strictly in this order, because the
//! exchange's add-liquidity step reads the balances the deposits credited.
//! This module plans the sequence and interprets the exchange's verdict; the
//! ledger round-trips themselves are the client's.

use vstd::prelude::*;
use crate::errors::AmmError;
use crate::ids::{AssetId, AssetPair};

verus! {

/// Amounts, minimum acceptable liquidity output and deadline for one
/// add-liquidity run, in pair order.
#[derive(Clone, Copy, Debug, PartialEq, Eq, Structural)]
pub struct LiquidityParameters {
    /// Deposit for the pair's first asset.
    pub amount_a: u64,
    /// Deposit for the pair's second asset.
    pub amount_b: u64,
    /// Minimum acceptable liquidity-token output.
    pub min_liquidity: u64,
    /// Block-height bound the exchange enforces.
    pub deadline: u64,
}

/// One ledger call of the liquidity pipeline.
#[derive(Clone, Copy, Debug, PartialEq, Eq, Structural)]
pub enum LiquidityAction {
    /// Credit `amount` of `asset` to the caller's exchange balance.
    Deposit { asset: AssetId, amount: u64 },
    /// Invoke add-liquidity under the given guard values.
    AddLiquidity { min_liquidity: u64, deadline: u64 },
}

/// The strictly ordered call sequence that funds a pool: deposit asset `a`,
/// deposit asset `b`, then add liquidity.
pub open spec fn liquidity_sequence(pair: AssetPair, params: LiquidityParameters) -> Seq<
    LiquidityAction,
> {
    seq![
        LiquidityAction::Deposit { asset: pair.a, amount: params.amount_a },
        LiquidityAction::Deposit { asset: pair.b, amount: params.amount_b },
        LiquidityAction::AddLiquidity {
            min_liquidity: params.min_liquidity,
            deadline: params.deadline,
        },
    ]
}

/// What `deposit_and_add_liquidity` decides before any call is issued.
pub open spec fn liquidity_plan_spec(
    pair: AssetPair,
    params: LiquidityParameters,
    balance_a: u64,
    balance_b: u64,
) -> Result<Seq<LiquidityAction>, AmmError> {
    if params.amount_a > balance_a {
        Err(AmmError::InsufficientBalance {
            asset: pair.a,
            requested: params.amount_a,
            available: balance_a,
        })
    } else if params.amount_b > balance_b {
        Err(AmmError::InsufficientBalance {
            asset: pair.b,
            requested: params.amount_b,
            available: balance_b,
        })
    } else {
        Ok(liquidity_sequence(pair, params))
    }
}

/// Plans the deposit-then-add-liquidity sequence for one exchange, given the
/// wallet's holdings of the two reserve assets. Rejects a deposit that
/// exceeds the wallet's holdings; otherwise yields the three calls in the
/// order the exchange requires.
pub fn deposit_and_add_liquidity(
    pair: &AssetPair,
    params: &LiquidityParameters,
    balance_a: u64,
    balance_b: u64,
) -> (r: Result<Vec<LiquidityAction>, AmmError>)
    ensures
        match r {
            Ok(actions) => liquidity_plan_spec(*pair, *params, balance_a, balance_b)
                == Ok::<_, AmmError>(actions@),
            Err(e) => liquidity_plan_spec(*pair, *params, balance_a, balance_b)
                == Err::<Seq<LiquidityAction>, _>(e),
        },
{
    if params.amount_a > balance_a {
        return Err(AmmError::InsufficientBalance {
            asset: pair.a,
            requested: params.amount_a,
            available: balance_a,
        });
    }
    if params.amount_b > balance_b {
        return Err(AmmError::InsufficientBalance {
            asset: pair.b,
            requested: params.amount_b,
            available: balance_b,
        });
    }
    let actions = vec![
        LiquidityAction::Deposit { asset: pair.a, amount: params.amount_a },
        LiquidityAction::Deposit { asset: pair.b, amount: params.amount_b },
        LiquidityAction::AddLiquidity {
            min_liquidity: params.min_liquidity,
            deadline: params.deadline,
        },
    ];
    proof {
        assert(actions@ =~= liquidity_sequence(*pair, *params));
    }
    Ok(actions)
}

/// The exchange contract's verdict on an add-liquidity call, as decoded
/// from the ledger's response.
#[derive(Clone, Copy, Debug, PartialEq, Eq, Structural)]
pub enum AddLiquidityReply {
    /// The exchange minted this many liquidity tokens.
    Minted { amount: u64 },
    /// The call arrived after the deadline block height.
    PastDeadline,
    /// The minted amount would fall below the caller's minimum.
    BelowMinimum,
}

/// How the pipeline surfaces an exchange verdict to its caller.
pub open spec fn liquidity_outcome_spec(reply: AddLiquidityReply) -> Result<u64, AmmError> {
    match reply {
        AddLiquidityReply::Minted { amount } => Ok(amount),
        AddLiquidityReply::PastDeadline => Err(AmmError::DeadlineExceeded),
        AddLiquidityReply::BelowMinimum => Err(AmmError::SlippageExceeded),
    }
}

/// Surfaces the exchange's verdict unchanged: the minted amount on success,
/// `DeadlineExceeded` or `SlippageExceeded` when the contract-side guards
/// rejected the call — in which case nothing was minted.
pub fn liquidity_outcome(reply: &AddLiquidityReply) -> (r: Result<u64, AmmError>)
    ensures
        r == liquidity_outcome_spec(*reply),
{
    match reply {
        AddLiquidityReply::Minted { amount } => Ok(*amount),
        AddLiquidityReply::PastDeadline => Err(AmmError::DeadlineExceeded),
        AddLiquidityReply::BelowMinimum => Err(AmmError::SlippageExceeded),
    }
}

} // verus!
