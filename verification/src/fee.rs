//! The fee of a transfer: a share of the amount in basis points, with a floor.

use vstd::prelude::*;
use crate::error::ErrorCode;
use crate::identity::Identity;
use crate::state::{FeePolicy, FeePolicyView, TokenFeePolicy, TokenFeePolicyView};

verus! {

/// The number of basis points that make the whole amount.
pub const BPS_DENOMINATOR: u64 = 10000;

/// The share of `amount` that `fee_bps` basis points are, rounded down.
pub open spec fn proportional_fee(amount: nat, fee_bps: nat) -> nat {
    amount * fee_bps / 10000
}

/// The fee on `amount`: its share in basis points, but `min_fee_amount` at
/// the least.
pub open spec fn fee_due(amount: nat, fee_bps: nat, min_fee_amount: nat) -> nat {
    if proportional_fee(amount, fee_bps) < min_fee_amount {
        min_fee_amount
    } else {
        proportional_fee(amount, fee_bps)
    }
}

/// The fee that is taken from `amount`, or the refusal of a transfer that
/// its fee would consume whole.
pub open spec fn fee_quote(amount: nat, fee_bps: nat, min_fee_amount: nat) -> Result<
    nat,
    ErrorCode,
> {
    if fee_due(amount, fee_bps, min_fee_amount) < amount {
        Ok(fee_due(amount, fee_bps, min_fee_amount))
    } else {
        Err(ErrorCode::FeeTooHigh)
    }
}

/// Computes [`fee_quote`]. The share is computed in 128 bits, so that no
/// amount and no rate overflows.
pub fn compute_fee(amount: u64, fee_bps: u16, min_fee_amount: u64) -> (r: Result<u64, ErrorCode>)
    ensures
        fee_quote(amount as nat, fee_bps as nat, min_fee_amount as nat) == (match r {
            Ok(fee) => Ok(fee as nat),
            Err(e) => Err(e),
        }),
{
    assert(amount * fee_bps <= 0xffff_ffff_ffff_ffff * 0xffff) by (nonlinear_arith)
        requires
            amount <= 0xffff_ffff_ffff_ffff,
            fee_bps <= 0xffff,
    ;
    let share: u128 = (amount as u128) * (fee_bps as u128) / (BPS_DENOMINATOR as u128);
    let fee: u128 = if share < min_fee_amount as u128 {
        min_fee_amount as u128
    } else {
        share
    };
    if fee < amount as u128 {
        Ok(fee as u64)
    } else {
        Err(ErrorCode::FeeTooHigh)
    }
}

/// The rate that applies to transfers of the token `mint`: the rate of the
/// token's own policy where there is one and it is for `mint`, and the
/// general token rate of the fee policy otherwise.
pub open spec fn applicable_fee_bps(
    fee_policy: FeePolicyView,
    token_fee_policy: Option<TokenFeePolicyView>,
    mint: Seq<u8>,
) -> nat {
    match token_fee_policy {
        Some(own) if own.token_mint == mint => own.fee_bps,
        _ => fee_policy.token_fee_bps,
    }
}

/// The view of a fee policy that may be absent.
pub open spec fn fee_policy_view(policy: Option<FeePolicy>) -> Option<FeePolicyView> {
    match policy {
        Some(p) => Some(p@),
        None => None,
    }
}

/// The view of a token fee policy that may be absent.
pub open spec fn token_fee_policy_view(policy: Option<TokenFeePolicy>) -> Option<
    TokenFeePolicyView,
> {
    match policy {
        Some(p) => Some(p@),
        None => None,
    }
}

/// Computes [`applicable_fee_bps`].
pub fn resolve_fee_bps(
    fee_policy: &FeePolicy,
    token_fee_policy: &Option<TokenFeePolicy>,
    mint: &Identity,
) -> (bps: u16)
    ensures
        bps as nat == applicable_fee_bps(
            fee_policy@,
            token_fee_policy_view(*token_fee_policy),
            mint@,
        ),
{
    match token_fee_policy {
        Some(own) => {
            proof {
                Identity::lemma_view_injective(own.token_mint, *mint);
            }
            if own.token_mint == *mint {
                own.fee_bps
            } else {
                fee_policy.token_fee_bps
            }
        },
        None => fee_policy.token_fee_bps,
    }
}

/// The fee on a transfer of `amount` of the token `mint`, or the refusal of
/// a transfer that its fee would consume whole. Without a fee policy no fee
/// is taken. With one, the fee is taken at the rate that applies to `mint`,
/// with the smallest fee of the policy as its floor.
pub open spec fn transfer_fee(
    fee_policy: Option<FeePolicyView>,
    token_fee_policy: Option<TokenFeePolicyView>,
    mint: Seq<u8>,
    amount: nat,
) -> Result<nat, ErrorCode> {
    match fee_policy {
        None => Ok(0),
        Some(policy) => fee_quote(
            amount,
            applicable_fee_bps(policy, token_fee_policy, mint),
            policy.min_fee_amount,
        ),
    }
}

/// Computes [`transfer_fee`].
pub fn quote_transfer_fee(
    fee_policy: &Option<FeePolicy>,
    token_fee_policy: &Option<TokenFeePolicy>,
    mint: &Identity,
    amount: u64,
) -> (r: Result<u64, ErrorCode>)
    ensures
        transfer_fee(
            fee_policy_view(*fee_policy),
            token_fee_policy_view(*token_fee_policy),
            mint@,
            amount as nat,
        ) == (match r {
            Ok(fee) => Ok(fee as nat),
            Err(e) => Err(e),
        }),
{
    match fee_policy {
        None => Ok(0),
        Some(policy) => {
            let fee_bps = resolve_fee_bps(policy, token_fee_policy, mint);
            compute_fee(amount, fee_bps, policy.min_fee_amount)
        },
    }
}

} // verus!
