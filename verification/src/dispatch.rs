//! The two relayed actions, a token transfer and a forwarded call.
//!
//! Either action is checked in a fixed order, and the first check that fails
//! ends it: the revocation of the mapping, the signer, the expiry of the
//! temporary key, the daily window of the user, and for a transfer the fee.
//! Nothing is changed unless every check has passed, and the calls to perform
//! are handed out only then.

use vstd::prelude::*;
use crate::accounts::{RelayTransaction, TransferSplToken};
use crate::authorize::{authorization, authorize};
use crate::error::ErrorCode;
use crate::fee::{fee_policy_view, quote_transfer_fee, token_fee_policy_view, transfer_fee};
use crate::instruction::{
    encode_relay_payload, relay_payload, transfers_view, AccountMeta, AccountMetaView,
    Instruction, InstructionView, TokenTransfer, TokenTransferView,
};
use crate::state::{
    security_policy_view, FeePolicyView, KeyMappingView, SecurityPolicy, SecurityPolicyView,
    TokenFeePolicyView,
};
use crate::user_account::{UserAccount, USER_ACCOUNT_PROGRAM_ID};
use crate::window::{optional_window_step, Window};

verus! {

/// The function that a token transfer counts as on an allow-list.
pub const TRANSFER_SPL_TOKEN_FUNCTION_ID: u8 = 2;

/// What the checks of a relayed call come to: the security policy that the
/// call leaves behind, or the first refusal.
pub open spec fn relay_decision(
    mapping: KeyMappingView,
    policy: Option<SecurityPolicyView>,
    signer: Seq<u8>,
    function_id: u8,
    now: int,
) -> Result<Option<SecurityPolicyView>, ErrorCode> {
    match authorization(mapping, signer, now) {
        Err(e) => Err(e),
        Ok(_) => optional_window_step(policy, now, function_id),
    }
}

/// What the checks of a token transfer come to: the security policy that the
/// transfer leaves behind and the fee that is taken, or the first refusal.
pub open spec fn transfer_decision(
    mapping: KeyMappingView,
    policy: Option<SecurityPolicyView>,
    fee_policy: Option<FeePolicyView>,
    token_fee_policy: Option<TokenFeePolicyView>,
    signer: Seq<u8>,
    mint: Seq<u8>,
    amount: nat,
    now: int,
) -> Result<(Option<SecurityPolicyView>, nat), ErrorCode> {
    match relay_decision(mapping, policy, signer, TRANSFER_SPL_TOKEN_FUNCTION_ID, now) {
        Err(e) => Err(e),
        Ok(next) => match transfer_fee(fee_policy, token_fee_policy, mint, amount) {
            Err(e) => Err(e),
            Ok(fee) => Ok((next, fee)),
        },
    }
}

/// The transfers that settle a transfer of `amount` on which `fee` is taken,
/// in the order in which they are performed: the fee to the collector, where
/// there is a fee, and then the rest to the recipient. The signer authorises
/// both.
pub open spec fn settlement(
    from: Seq<u8>,
    to: Seq<u8>,
    fee_collector: Seq<u8>,
    authority: Seq<u8>,
    amount: nat,
    fee: nat,
) -> Seq<TokenTransferView> {
    let principal = TokenTransferView { from, to, authority, amount: (amount - fee) as nat };
    if fee > 0 {
        seq![TokenTransferView { from, to: fee_collector, authority, amount: fee }, principal]
    } else {
        seq![principal]
    }
}

/// The one call that forwards a relayed action: a call of the user account
/// program that carries the function and its parameters, names the signer
/// as its signer, and names the user's account as the account it may write
/// to.
pub open spec fn forwarded_call(
    signer: Seq<u8>,
    user_account: Seq<u8>,
    function_id: u8,
    params: Seq<u8>,
) -> InstructionView {
    InstructionView {
        program_id: USER_ACCOUNT_PROGRAM_ID@,
        accounts: seq![
            AccountMetaView { pubkey: signer, is_signer: true, is_writable: false },
            AccountMetaView {
                pubkey: USER_ACCOUNT_PROGRAM_ID@,
                is_signer: false,
                is_writable: false,
            },
            AccountMetaView { pubkey: user_account, is_signer: false, is_writable: true },
        ],
        data: relay_payload(function_id, params),
    }
}

/// Computes [`optional_window_step`] without changing the policy: the
/// counters to store where the action is let through and a policy is set.
fn next_optional_window(policy: &Option<SecurityPolicy>, now: i64, function_id: u8) -> (r: Result<
    Option<Window>,
    ErrorCode,
>)
    ensures
        optional_window_step(security_policy_view(*policy), now as int, function_id) == (match r {
            Ok(Some(window)) => Ok(Some(policy->0@.with_window(window@))),
            Ok(None) => Ok(None),
            Err(e) => Err(e),
        }),
        r matches Ok(window) ==> (window is Some <==> policy is Some),
{
    match policy {
        None => Ok(None),
        Some(p) => match p.next_window(now, function_id) {
            Ok(window) => Ok(Some(window)),
            Err(e) => Err(e),
        },
    }
}

/// Stores the counters that an admitted action leaves behind.
fn store_window(policy: &mut Option<SecurityPolicy>, window: Option<Window>)
    requires
        window is Some <==> *old(policy) is Some,
    ensures
        match *old(policy) {
            Some(p) => security_policy_view(*final(policy)) == Some(
                p@.with_window(window->0@),
            ),
            None => *final(policy) is None,
        },
{
    match window {
        Some(w) => match policy {
            Some(p) => p.set_window(w),
            None => {},
        },
        None => {},
    }
}

impl TransferSplToken {
    /// What a transfer of `amount` at the time `now` comes to: the security
    /// policy that it leaves behind and the transfers that settle it, or the
    /// first refusal.
    pub open spec fn outcome(&self, amount: nat, now: int) -> Result<
        (Option<SecurityPolicyView>, Seq<TokenTransferView>),
        ErrorCode,
    > {
        match transfer_decision(
            self.key_mapping@,
            security_policy_view(self.security_policy),
            fee_policy_view(self.fee_policy),
            token_fee_policy_view(self.token_fee_policy),
            self.temp_key@,
            self.mint@,
            amount,
            now,
        ) {
            Err(e) => Err(e),
            Ok((next, fee)) => Ok(
                (
                    next,
                    settlement(
                        self.from@,
                        self.to@,
                        self.fee_collector@,
                        self.temp_key@,
                        amount,
                        fee,
                    ),
                ),
            ),
        }
    }
}

impl RelayTransaction {
    /// What relaying the call of `function_id` with `params` at the time
    /// `now` comes to: the security policy that it leaves behind and the call
    /// that forwards it, or the first refusal.
    pub open spec fn outcome(&self, function_id: u8, params: Seq<u8>, now: int) -> Result<
        (Option<SecurityPolicyView>, InstructionView),
        ErrorCode,
    > {
        match relay_decision(
            self.key_mapping@,
            security_policy_view(self.security_policy),
            self.temp_key@,
            function_id,
            now,
        ) {
            Err(e) => Err(e),
            Ok(next) => Ok(
                (
                    next,
                    forwarded_call(
                        self.temp_key@,
                        self.key_mapping.user_account_pda@,
                        function_id,
                        params,
                    ),
                ),
            ),
        }
    }
}

/// Transfers `amount` tokens from the paying account of `ctx` to the
/// recipient, for the signer of `ctx`, and takes the fee on the way.
///
/// Returns the transfers to perform, in order. Where a check fails, the
/// first failure is returned and `ctx` stays as it is. Otherwise nothing of
/// `ctx` changes but the counters of the security policy.
pub fn transfer_spl_token(ctx: &mut TransferSplToken, amount: u64, now: i64) -> (r: Result<
    Vec<TokenTransfer>,
    ErrorCode,
>)
    requires
        old(ctx).wf(),
    ensures
        old(ctx).outcome(amount as nat, now as int) == (match r {
            Ok(transfers) => Ok(
                (security_policy_view(final(ctx).security_policy), transfers_view(transfers@)),
            ),
            Err(e) => Err(e),
        }),
        r is Err ==> *final(ctx) == *old(ctx),
        *final(ctx) == (TransferSplToken {
            security_policy: final(ctx).security_policy,
            ..*old(ctx)
        }),
        final(ctx).wf(),
{
    match authorize(&ctx.key_mapping, &ctx.temp_key, now) {
        Err(e) => {
            return Err(e);
        },
        Ok(_) => {},
    }
    let window = match next_optional_window(
        &ctx.security_policy,
        now,
        TRANSFER_SPL_TOKEN_FUNCTION_ID,
    ) {
        Err(e) => {
            return Err(e);
        },
        Ok(window) => window,
    };
    let fee = match quote_transfer_fee(&ctx.fee_policy, &ctx.token_fee_policy, &ctx.mint, amount) {
        Err(e) => {
            return Err(e);
        },
        Ok(fee) => fee,
    };
    store_window(&mut ctx.security_policy, window);
    let mut transfers: Vec<TokenTransfer> = Vec::new();
    if fee > 0 {
        transfers.push(
            TokenTransfer {
                from: ctx.from,
                to: ctx.fee_collector,
                authority: ctx.temp_key,
                amount: fee,
            },
        );
    }
    transfers.push(
        TokenTransfer { from: ctx.from, to: ctx.to, authority: ctx.temp_key, amount: amount - fee },
    );
    proof {
        assert(transfers_view(transfers@) =~= settlement(
            ctx.from@,
            ctx.to@,
            ctx.fee_collector@,
            ctx.temp_key@,
            amount as nat,
            fee as nat,
        ));
    }
    Ok(transfers)
}

/// Forwards the call of `function_id` with `params` to the user account
/// program, for the signer of `ctx`.
///
/// Returns the one call to perform, which goes to the user's account as it
/// was derived at registration. Where a check fails, the first failure is
/// returned and `ctx` stays as it is. Otherwise nothing of `ctx` changes but
/// the counters of the security policy.
pub fn relay_transaction(ctx: &mut RelayTransaction, function_id: u8, params: Vec<u8>, now: i64) -> (r:
    Result<Instruction, ErrorCode>)
    requires
        old(ctx).wf(),
    ensures
        old(ctx).outcome(function_id, params@, now as int) == (match r {
            Ok(call) => Ok((security_policy_view(final(ctx).security_policy), call@)),
            Err(e) => Err(e),
        }),
        r is Err ==> *final(ctx) == *old(ctx),
        *final(ctx) == (RelayTransaction {
            security_policy: final(ctx).security_policy,
            ..*old(ctx)
        }),
        final(ctx).wf(),
{
    match authorize(&ctx.key_mapping, &ctx.temp_key, now) {
        Err(e) => {
            return Err(e);
        },
        Ok(_) => {},
    }
    let window = match next_optional_window(&ctx.security_policy, now, function_id) {
        Err(e) => {
            return Err(e);
        },
        Ok(window) => window,
    };
    store_window(&mut ctx.security_policy, window);
    let user_account_program = UserAccount::id();
    let mut accounts: Vec<AccountMeta> = Vec::new();
    accounts.push(AccountMeta::new_readonly(ctx.temp_key, true));
    accounts.push(AccountMeta::new_readonly(user_account_program, false));
    accounts.push(AccountMeta::new(ctx.key_mapping.user_account_pda, false));
    let data = encode_relay_payload(function_id, &params);
    let call = Instruction { program_id: user_account_program, accounts, data };
    proof {
        assert(call@.accounts =~= forwarded_call(
            ctx.temp_key@,
            ctx.key_mapping.user_account_pda@,
            function_id,
            params@,
        ).accounts);
    }
    Ok(call)
}

} // verus!
