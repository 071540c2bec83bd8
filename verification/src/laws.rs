//! What holds of the engine whatever the inputs are.
//!
//! Each law is stated over the functions that the contracts of the
//! operations are stated over, so that it holds of every call of them.

use vstd::prelude::*;
use crate::accounts::{RelayTransaction, TransferSplToken};
use crate::authorize::{authorization, SignerKind};
use crate::dispatch::{relay_decision, transfer_decision, TRANSFER_SPL_TOKEN_FUNCTION_ID};
use crate::error::ErrorCode;
use crate::fee::{applicable_fee_bps, fee_due, fee_quote, proportional_fee, transfer_fee};
use crate::state::{
    FeePolicyView, KeyMappingView, SecurityPolicyView, TokenFeePolicyView, MAX_FEE_BPS,
};
use crate::window::{day_number, next_window, optional_window_step, window_step, WindowView};

verus! {

/// The fee on an amount is the larger of its share in basis points, rounded
/// down, and the smallest fee; and a transfer is refused with `FeeTooHigh`
/// exactly when that fee is not below the amount.
pub proof fn lemma_fee_is_share_with_floor(amount: nat, fee_bps: nat, min_fee_amount: nat)
    ensures
        proportional_fee(amount, fee_bps) == amount * fee_bps / 10000,
        fee_due(amount, fee_bps, min_fee_amount) >= proportional_fee(amount, fee_bps),
        fee_due(amount, fee_bps, min_fee_amount) >= min_fee_amount,
        fee_due(amount, fee_bps, min_fee_amount) == proportional_fee(amount, fee_bps) || fee_due(
            amount,
            fee_bps,
            min_fee_amount,
        ) == min_fee_amount,
        (fee_quote(amount, fee_bps, min_fee_amount) matches Err(ErrorCode::FeeTooHigh)) <==> fee_due(
            amount,
            fee_bps,
            min_fee_amount,
        ) >= amount,
        fee_quote(amount, fee_bps, min_fee_amount) is Ok <==> fee_due(
            amount,
            fee_bps,
            min_fee_amount,
        ) < amount,
        fee_quote(amount, fee_bps, min_fee_amount) matches Ok(fee) ==> fee == fee_due(
            amount,
            fee_bps,
            min_fee_amount,
        ),
{
}

/// Within the cap on rates the share of an amount is at most a fifth of it,
/// so that only the smallest fee can make a transfer fail.
pub proof fn lemma_share_is_below_amount(amount: nat, fee_bps: nat)
    requires
        fee_bps <= MAX_FEE_BPS,
        amount > 0,
    ensures
        proportional_fee(amount, fee_bps) * 5 <= amount,
        proportional_fee(amount, fee_bps) < amount,
{
    assert(amount * fee_bps <= amount * 2000) by (nonlinear_arith)
        requires
            fee_bps <= 2000,
    ;
}

/// A transfer whose signer and window pass and that finds a fee policy fails
/// exactly when its fee is not below its amount, and then with `FeeTooHigh`.
/// Otherwise that fee is the one taken. The fee is taken at the rate of the
/// token's own policy where there is one for the token, and at the general
/// token rate of the fee policy where there is none.
pub proof fn lemma_transfer_fails_on_fee(
    mapping: KeyMappingView,
    policy: Option<SecurityPolicyView>,
    fee_policy: FeePolicyView,
    token_fee_policy: Option<TokenFeePolicyView>,
    signer: Seq<u8>,
    mint: Seq<u8>,
    amount: nat,
    now: int,
)
    requires
        relay_decision(mapping, policy, signer, TRANSFER_SPL_TOKEN_FUNCTION_ID, now) is Ok,
    ensures
        ({
            let fee = fee_due(
                amount,
                applicable_fee_bps(fee_policy, token_fee_policy, mint),
                fee_policy.min_fee_amount,
            );
            let outcome = transfer_decision(
                mapping,
                policy,
                Some(fee_policy),
                token_fee_policy,
                signer,
                mint,
                amount,
                now,
            );
            &&& outcome is Err <==> fee >= amount
            &&& outcome is Err ==> (outcome matches Err(ErrorCode::FeeTooHigh))
            &&& outcome matches Ok((_, taken)) ==> taken == fee
        }),
        token_fee_policy is None ==> applicable_fee_bps(fee_policy, token_fee_policy, mint)
            == fee_policy.token_fee_bps,
        token_fee_policy matches Some(own) ==> applicable_fee_bps(
            fee_policy,
            token_fee_policy,
            mint,
        ) == (if own.token_mint == mint {
            own.fee_bps
        } else {
            fee_policy.token_fee_bps
        }),
{
}

/// Without a fee policy no fee is taken, whatever the policy of the token
/// says.
pub proof fn lemma_no_fee_without_fee_policy(
    token_fee_policy: Option<TokenFeePolicyView>,
    mint: Seq<u8>,
    amount: nat,
)
    ensures
        transfer_fee(None, token_fee_policy, mint, amount) matches Ok(fee) && fee == 0,
{
}

/// A revoked mapping refuses every relayed call and every transfer with
/// `RevokedKey`, whoever signs and whatever the policies hold.
pub proof fn lemma_revoked_mapping_refuses_all(
    mapping: KeyMappingView,
    policy: Option<SecurityPolicyView>,
    fee_policy: Option<FeePolicyView>,
    token_fee_policy: Option<TokenFeePolicyView>,
    signer: Seq<u8>,
    mint: Seq<u8>,
    function_id: u8,
    amount: nat,
    now: int,
)
    requires
        mapping.revoked,
    ensures
        authorization(mapping, signer, now) matches Err(ErrorCode::RevokedKey),
        relay_decision(mapping, policy, signer, function_id, now) matches Err(
            ErrorCode::RevokedKey,
        ),
        transfer_decision(
            mapping,
            policy,
            fee_policy,
            token_fee_policy,
            signer,
            mint,
            amount,
            now,
        ) matches Err(ErrorCode::RevokedKey),
{
}

/// The same, of the two operations on what the caller has resolved.
pub proof fn lemma_revoked_mapping_refuses_actions(
    relay: RelayTransaction,
    transfer: TransferSplToken,
    function_id: u8,
    params: Seq<u8>,
    amount: nat,
    now: int,
)
    requires
        relay.key_mapping.revoked,
        transfer.key_mapping.revoked,
    ensures
        relay.outcome(function_id, params, now) matches Err(ErrorCode::RevokedKey),
        transfer.outcome(amount, now) matches Err(ErrorCode::RevokedKey),
{
}

/// At or after the expiry the temporary key is refused with `ExpiredKey`,
/// and the backup key of the same mapping is let through at the same time:
/// what becomes of its action is up to the window alone.
pub proof fn lemma_expiry_binds_temporary_key_only(
    mapping: KeyMappingView,
    policy: Option<SecurityPolicyView>,
    function_id: u8,
    now: int,
)
    requires
        !mapping.revoked,
        mapping.has_distinct_keys(),
        now >= mapping.expires_at,
    ensures
        authorization(mapping, mapping.temp_key, now) matches Err(ErrorCode::ExpiredKey),
        relay_decision(mapping, policy, mapping.temp_key, function_id, now) matches Err(
            ErrorCode::ExpiredKey,
        ),
        authorization(mapping, mapping.backup_key, now) matches Ok(SignerKind::Backup),
        relay_decision(mapping, policy, mapping.backup_key, function_id, now)
            == optional_window_step(policy, now, function_id),
{
}

/// Before the expiry the temporary key is let through as well.
pub proof fn lemma_temporary_key_before_expiry(mapping: KeyMappingView, now: int)
    requires
        !mapping.revoked,
        now < mapping.expires_at,
    ensures
        authorization(mapping, mapping.temp_key, now) matches Ok(SignerKind::Main),
{
}

/// A signer that is neither key of a mapping that is not revoked is refused
/// with `InvalidKeySigner`.
pub proof fn lemma_stranger_is_refused(mapping: KeyMappingView, signer: Seq<u8>, now: int)
    requires
        !mapping.revoked,
        signer != mapping.temp_key,
        signer != mapping.backup_key,
    ensures
        authorization(mapping, signer, now) matches Err(ErrorCode::InvalidKeySigner),
{
}

/// An action on the day after the one that the counters are for starts the
/// counters afresh and is itself the first action of its day, whatever the
/// limits and the allow-list say.
pub proof fn lemma_day_rollover_resets(policy: SecurityPolicyView, timestamp: int, function_id: u8)
    requires
        day_number(timestamp) == policy.last_day + 1,
    ensures
        next_window(policy, timestamp, function_id) matches Ok(window) && window == (WindowView {
            daily_tx_count: 1,
            daily_amount: 0,
            last_day: policy.last_day + 1,
        }),
        window_step(policy, timestamp, function_id) matches Ok(next) && next == (
        SecurityPolicyView {
            daily_tx_count: 1,
            daily_amount: 0,
            last_day: policy.last_day + 1,
            ..policy
        }),
{
}

/// The same on any day other than the one that the counters are for.
pub proof fn lemma_new_day_resets(policy: SecurityPolicyView, timestamp: int, function_id: u8)
    requires
        day_number(timestamp) != policy.last_day,
    ensures
        window_step(policy, timestamp, function_id) matches Ok(next) && next == (
        SecurityPolicyView {
            daily_tx_count: 1,
            daily_amount: 0,
            last_day: day_number(timestamp),
            ..policy
        }),
{
}

/// On the day that the counters are for, an action is refused with
/// `DailyTxLimitExceeded` once the budget of the day is used up.
pub proof fn lemma_budget_used_up(policy: SecurityPolicyView, timestamp: int, function_id: u8)
    requires
        day_number(timestamp) == policy.last_day,
        policy.daily_tx_count >= policy.max_tx_per_day,
    ensures
        next_window(policy, timestamp, function_id) matches Err(ErrorCode::DailyTxLimitExceeded),
        window_step(policy, timestamp, function_id) matches Err(ErrorCode::DailyTxLimitExceeded),
{
}

/// An action that is let through on the day that the counters are for is
/// counted once, and nothing else of the policy changes.
pub proof fn lemma_admitted_action_counts_once(
    policy: SecurityPolicyView,
    timestamp: int,
    function_id: u8,
)
    requires
        day_number(timestamp) == policy.last_day,
        window_step(policy, timestamp, function_id) is Ok,
    ensures
        policy.daily_tx_count < policy.max_tx_per_day,
        policy.permits(function_id),
        window_step(policy, timestamp, function_id) matches Ok(next) && next == (
        SecurityPolicyView { daily_tx_count: policy.daily_tx_count + 1, ..policy }),
{
}

/// An action changes nothing of a policy but its counters: the user, the
/// limits and the allow-list stay, and a valid policy stays valid. The day of
/// the counters is the day of the action from then on.
pub proof fn lemma_action_changes_counters_only(
    policy: SecurityPolicyView,
    timestamp: int,
    function_id: u8,
)
    ensures
        window_step(policy, timestamp, function_id) matches Ok(next) ==> {
            &&& next == (SecurityPolicyView {
                daily_tx_count: next.daily_tx_count,
                daily_amount: next.daily_amount,
                last_day: day_number(timestamp),
                ..policy
            })
            &&& next.daily_tx_count >= 1
            &&& next.wf() <==> policy.wf()
        },
{
}

/// An empty allow-list never refuses a function.
pub proof fn lemma_empty_allow_list_permits(
    policy: SecurityPolicyView,
    timestamp: int,
    function_id: u8,
)
    requires
        policy.allowed_functions.len() == 0,
    ensures
        policy.permits(function_id),
        !(next_window(policy, timestamp, function_id) matches Err(ErrorCode::FunctionNotAllowed)),
        day_number(timestamp) == policy.last_day && policy.daily_tx_count < policy.max_tx_per_day
            ==> next_window(policy, timestamp, function_id) is Ok,
{
}

/// An allow-list with entries refuses every function that is not among them
/// with `FunctionNotAllowed`, on the day that the counters are for and
/// while the budget of the day lasts. (On another day the action starts the
/// counters afresh and is let through; with the budget used up it is refused
/// for that.)
pub proof fn lemma_allow_list_refuses_others(
    policy: SecurityPolicyView,
    timestamp: int,
    function_id: u8,
)
    requires
        policy.allowed_functions.len() > 0,
        !policy.allowed_functions.contains(function_id),
        day_number(timestamp) == policy.last_day,
        policy.daily_tx_count < policy.max_tx_per_day,
    ensures
        next_window(policy, timestamp, function_id) matches Err(ErrorCode::FunctionNotAllowed),
        window_step(policy, timestamp, function_id) matches Err(ErrorCode::FunctionNotAllowed),
{
}

/// Only the backup key in place can replace the backup key: any other caller
/// is refused with `Unauthorized`, and the caller that is the backup key
/// succeeds, whether or not the temporary key has expired.
pub proof fn lemma_rotation_needs_current_backup_key(
    mapping: KeyMappingView,
    caller: Seq<u8>,
    new_backup_key: Seq<u8>,
)
    ensures
        mapping.rotate_backup(caller, new_backup_key) is Ok <==> caller == mapping.backup_key,
        mapping.rotate_backup(caller, new_backup_key) is Err ==> (mapping.rotate_backup(
            caller,
            new_backup_key,
        ) matches Err(ErrorCode::Unauthorized)),
        mapping.rotate_backup(caller, new_backup_key) matches Ok(rotated) ==> rotated == (
        KeyMappingView { backup_key: new_backup_key, ..mapping }),
{
}

/// After a rotation the new backup key is the one in place: it can rotate
/// again, and the key it replaced no longer can.
pub proof fn lemma_rotation_hands_over(
    mapping: KeyMappingView,
    new_backup_key: Seq<u8>,
    caller: Seq<u8>,
    next_backup_key: Seq<u8>,
)
    ensures
        mapping.rotate_backup(mapping.backup_key, new_backup_key) matches Ok(rotated) && (
        rotated.rotate_backup(caller, next_backup_key) is Ok <==> caller == new_backup_key),
{
}

/// A mapping that is registered with two different keys has two different
/// keys. A revocation keeps them apart, and so does a rotation to any backup
/// key but the temporary key itself.
pub proof fn lemma_keys_stay_distinct(
    mapping: KeyMappingView,
    authority: Seq<u8>,
    payer: Seq<u8>,
    caller: Seq<u8>,
    new_backup_key: Seq<u8>,
    user_id: Seq<char>,
    user_account_pda: Seq<u8>,
    expires_at: int,
    now: int,
)
    ensures
        KeyMappingView::registered(
            mapping.temp_key,
            mapping.backup_key,
            user_id,
            user_account_pda,
            expires_at,
            now,
        ).has_distinct_keys() <==> mapping.temp_key != mapping.backup_key,
        mapping.revoke(authority, payer) matches Ok(revoked) ==> (revoked.has_distinct_keys()
            <==> mapping.has_distinct_keys()),
        mapping.rotate_backup(caller, new_backup_key) matches Ok(rotated) ==> (
        rotated.has_distinct_keys() <==> new_backup_key != mapping.temp_key),
{
}

/// A revocation is for good: a second revocation fails, and a rotation of
/// the backup key leaves a revoked mapping revoked.
pub proof fn lemma_revocation_is_for_good(
    mapping: KeyMappingView,
    authority: Seq<u8>,
    payer: Seq<u8>,
    caller: Seq<u8>,
    new_backup_key: Seq<u8>,
)
    requires
        mapping.revoked,
    ensures
        mapping.revoke(authority, payer) matches Err(ErrorCode::AlreadyRevoked),
        mapping.rotate_backup(caller, new_backup_key) matches Ok(rotated) ==> rotated.revoked,
{
}

/// A revocation succeeds exactly on a mapping that is not revoked, for an
/// authority that also pays; it leaves the mapping revoked and changes
/// nothing else of it.
pub proof fn lemma_revocation_revokes(mapping: KeyMappingView, authority: Seq<u8>, payer: Seq<u8>)
    ensures
        mapping.revoke(authority, payer) is Ok <==> !mapping.revoked && authority == payer,
        mapping.revoke(authority, payer) matches Ok(revoked) ==> revoked == (KeyMappingView {
            revoked: true,
            ..mapping
        }),
{
}

} // verus!
