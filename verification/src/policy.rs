//! Setting the policies. Each call replaces the whole record.

use vstd::prelude::*;
use crate::accounts::{SetFeePolicy, SetSecurityPolicy, SetTokenFeePolicy};
use crate::error::ErrorCode;
use crate::state::{
    FeePolicy, FeePolicyView, SecurityPolicy, SecurityPolicyView, TokenFeePolicy,
    TokenFeePolicyView, MAX_ALLOWED_FUNCTIONS, MAX_FEE_BPS,
};
use crate::window::{day_number, day_of};

verus! {

/// Sets the fee policy: the collector and the authority of `ctx`, the two
/// rates and the smallest fee.
///
/// Fails with `FeeTooHigh` where a rate is above the cap; the stored policy
/// then stays as it is.
pub fn set_fee_policy(
    ctx: &mut SetFeePolicy,
    sol_fee_bps: u16,
    token_fee_bps: u16,
    min_fee_amount: u64,
) -> (r: Result<(), ErrorCode>)
    ensures
        r is Ok <==> sol_fee_bps <= MAX_FEE_BPS && token_fee_bps <= MAX_FEE_BPS,
        match r {
            Ok(()) => {
                &&& final(ctx).fee_policy@ == (FeePolicyView {
                    fee_collector: old(ctx).fee_collector@,
                    sol_fee_bps: sol_fee_bps as nat,
                    token_fee_bps: token_fee_bps as nat,
                    min_fee_amount: min_fee_amount as nat,
                    authority: old(ctx).authority@,
                })
                &&& final(ctx).fee_policy@.wf()
                &&& *final(ctx) == (SetFeePolicy { fee_policy: final(ctx).fee_policy, ..*old(ctx) })
            },
            Err(e) => e == ErrorCode::FeeTooHigh && *final(ctx) == *old(ctx),
        },
{
    if sol_fee_bps > MAX_FEE_BPS {
        return Err(ErrorCode::FeeTooHigh);
    }
    if token_fee_bps > MAX_FEE_BPS {
        return Err(ErrorCode::FeeTooHigh);
    }
    ctx.fee_policy = FeePolicy {
        fee_collector: ctx.fee_collector,
        sol_fee_bps,
        token_fee_bps,
        min_fee_amount,
        authority: ctx.authority,
    };
    Ok(())
}

/// Sets the fee rate of the token of `ctx`.
///
/// Fails with `FeeTooHigh` where the rate is above the cap; the stored policy
/// then stays as it is.
pub fn set_token_fee_policy(ctx: &mut SetTokenFeePolicy, fee_bps: u16) -> (r: Result<(), ErrorCode>)
    ensures
        r is Ok <==> fee_bps <= MAX_FEE_BPS,
        match r {
            Ok(()) => {
                &&& final(ctx).token_fee_policy@ == (TokenFeePolicyView {
                    token_mint: old(ctx).token_mint@,
                    fee_bps: fee_bps as nat,
                })
                &&& final(ctx).token_fee_policy@.wf()
                &&& *final(ctx) == (SetTokenFeePolicy {
                    token_fee_policy: final(ctx).token_fee_policy,
                    ..*old(ctx)
                })
            },
            Err(e) => e == ErrorCode::FeeTooHigh && *final(ctx) == *old(ctx),
        },
{
    if fee_bps > MAX_FEE_BPS {
        return Err(ErrorCode::FeeTooHigh);
    }
    ctx.token_fee_policy = TokenFeePolicy { token_mint: ctx.token_mint, fee_bps };
    Ok(())
}

/// Sets the security policy of the user of the mapping of `ctx`: the limits
/// and the allow-list as given, the counters at zero, and the day of `now` as
/// the day that the counters are for.
///
/// The allow-list has to fit a stored policy; [`try_set_security_policy`] is
/// for callers that have not tested its length.
pub fn set_security_policy(
    ctx: &mut SetSecurityPolicy,
    max_tx_per_day: u32,
    max_amount_per_tx: u64,
    max_amount_per_day: u64,
    allowed_functions: Vec<u8>,
    now: i64,
) -> (r: Result<(), ErrorCode>)
    requires
        allowed_functions@.len() <= MAX_ALLOWED_FUNCTIONS,
    ensures
        r is Ok,
        final(ctx).security_policy@ == (SecurityPolicyView {
            user_id: old(ctx).key_mapping.user_id@,
            max_tx_per_day: max_tx_per_day as nat,
            max_amount_per_tx: max_amount_per_tx as nat,
            max_amount_per_day: max_amount_per_day as nat,
            daily_tx_count: 0,
            daily_amount: 0,
            last_day: day_number(now as int),
            allowed_functions: allowed_functions@,
        }),
        final(ctx).security_policy@.wf(),
        *final(ctx) == (SetSecurityPolicy {
            security_policy: final(ctx).security_policy,
            ..*old(ctx)
        }),
{
    ctx.security_policy = SecurityPolicy {
        user_id: ctx.key_mapping.user_id.clone(),
        max_tx_per_day,
        max_amount_per_tx,
        max_amount_per_day,
        daily_tx_count: 0,
        daily_amount: 0,
        last_day: day_of(now),
        allowed_functions,
    };
    Ok(())
}

/// Sets the security policy as [`set_security_policy`] does where the
/// allow-list has at most [`MAX_ALLOWED_FUNCTIONS`] entries. A longer list
/// does not fit a stored policy: the call then returns `None` and stores
/// nothing.
pub fn try_set_security_policy(
    ctx: &mut SetSecurityPolicy,
    max_tx_per_day: u32,
    max_amount_per_tx: u64,
    max_amount_per_day: u64,
    allowed_functions: Vec<u8>,
    now: i64,
) -> (r: Option<Result<(), ErrorCode>>)
    ensures
        r is None <==> allowed_functions@.len() > MAX_ALLOWED_FUNCTIONS,
        r is None ==> *final(ctx) == *old(ctx),
        r matches Some(set) ==> set is Ok && final(ctx).security_policy@ == (
        SecurityPolicyView {
            user_id: old(ctx).key_mapping.user_id@,
            max_tx_per_day: max_tx_per_day as nat,
            max_amount_per_tx: max_amount_per_tx as nat,
            max_amount_per_day: max_amount_per_day as nat,
            daily_tx_count: 0,
            daily_amount: 0,
            last_day: day_number(now as int),
            allowed_functions: allowed_functions@,
        }),
        r is Some ==> final(ctx).security_policy@.wf(),
        *final(ctx) == (SetSecurityPolicy {
            security_policy: final(ctx).security_policy,
            ..*old(ctx)
        }),
{
    if allowed_functions.len() > MAX_ALLOWED_FUNCTIONS {
        return None;
    }
    Some(
        set_security_policy(
            ctx,
            max_tx_per_day,
            max_amount_per_tx,
            max_amount_per_day,
            allowed_functions,
            now,
        ),
    )
}

} // verus!
