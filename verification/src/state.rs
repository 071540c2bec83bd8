//! The stored records: key mappings and policies.

use vstd::prelude::*;
use crate::identity::Identity;

verus! {

/// Largest fee rate that a policy may hold, in basis points (20%).
pub const MAX_FEE_BPS: u16 = 2000;

/// Largest number of entries on a function allow-list.
pub const MAX_ALLOWED_FUNCTIONS: usize = 10;

/// One temporary key of a user, with the backup key that stands behind it.
#[derive(Clone, Debug, PartialEq, Eq)]
pub struct KeyMapping {
    /// The temporary key.
    pub temp_key: Identity,
    /// The backup key, which never expires.
    pub backup_key: Identity,
    /// The user that both keys act for.
    pub user_id: String,
    /// The address of the user's account in the execution target.
    pub user_account_pda: Identity,
    /// When the temporary key stops being accepted.
    pub expires_at: i64,
    /// Whether the mapping was revoked.
    pub revoked: bool,
    /// When the mapping was registered.
    pub created_at: i64,
}

/// What a [`KeyMapping`] holds.
pub struct KeyMappingView {
    pub temp_key: Seq<u8>,
    pub backup_key: Seq<u8>,
    pub user_id: Seq<char>,
    pub user_account_pda: Seq<u8>,
    pub expires_at: int,
    pub revoked: bool,
    pub created_at: int,
}

impl View for KeyMapping {
    type V = KeyMappingView;

    open spec fn view(&self) -> KeyMappingView {
        KeyMappingView {
            temp_key: self.temp_key@,
            backup_key: self.backup_key@,
            user_id: self.user_id@,
            user_account_pda: self.user_account_pda@,
            expires_at: self.expires_at as int,
            revoked: self.revoked,
            created_at: self.created_at as int,
        }
    }
}

impl KeyMappingView {
    /// The temporary and the backup key are different identities.
    pub open spec fn has_distinct_keys(self) -> bool {
        self.temp_key != self.backup_key
    }
}

/// The fee policy of the engine.
#[derive(Clone, Copy, Debug, PartialEq, Eq)]
pub struct FeePolicy {
    /// Who receives the fees.
    pub fee_collector: Identity,
    /// Fee rate on native transfers, in basis points.
    pub sol_fee_bps: u16,
    /// Fee rate on token transfers, in basis points.
    pub token_fee_bps: u16,
    /// Smallest fee that is ever taken.
    pub min_fee_amount: u64,
    /// Who set the policy.
    pub authority: Identity,
}

/// What a [`FeePolicy`] holds.
pub struct FeePolicyView {
    pub fee_collector: Seq<u8>,
    pub sol_fee_bps: nat,
    pub token_fee_bps: nat,
    pub min_fee_amount: nat,
    pub authority: Seq<u8>,
}

impl View for FeePolicy {
    type V = FeePolicyView;

    open spec fn view(&self) -> FeePolicyView {
        FeePolicyView {
            fee_collector: self.fee_collector@,
            sol_fee_bps: self.sol_fee_bps as nat,
            token_fee_bps: self.token_fee_bps as nat,
            min_fee_amount: self.min_fee_amount as nat,
            authority: self.authority@,
        }
    }
}

impl FeePolicyView {
    /// Both rates are within the cap.
    pub open spec fn wf(self) -> bool {
        self.sol_fee_bps <= MAX_FEE_BPS && self.token_fee_bps <= MAX_FEE_BPS
    }
}

/// The fee rate of one token, which overrides the general token rate.
#[derive(Clone, Copy, Debug, PartialEq, Eq)]
pub struct TokenFeePolicy {
    /// The token that the rate is for.
    pub token_mint: Identity,
    /// Fee rate on transfers of that token, in basis points.
    pub fee_bps: u16,
}

/// What a [`TokenFeePolicy`] holds.
pub struct TokenFeePolicyView {
    pub token_mint: Seq<u8>,
    pub fee_bps: nat,
}

impl View for TokenFeePolicy {
    type V = TokenFeePolicyView;

    open spec fn view(&self) -> TokenFeePolicyView {
        TokenFeePolicyView { token_mint: self.token_mint@, fee_bps: self.fee_bps as nat }
    }
}

impl TokenFeePolicyView {
    /// The rate is within the cap.
    pub open spec fn wf(self) -> bool {
        self.fee_bps <= MAX_FEE_BPS
    }
}

/// The limits of one user, and how much of today's budget is used.
#[derive(Clone, Debug, PartialEq, Eq)]
pub struct SecurityPolicy {
    /// The user that the limits are for.
    pub user_id: String,
    /// How many actions the user may perform in one day.
    pub max_tx_per_day: u32,
    /// Stored limit on the amount of one action. Nothing enforces it.
    pub max_amount_per_tx: u64,
    /// Stored limit on the amount of one day. Nothing enforces it.
    pub max_amount_per_day: u64,
    /// How many actions were performed on `last_day`.
    pub daily_tx_count: u32,
    /// The amount moved on `last_day`. Nothing adds to it.
    pub daily_amount: u64,
    /// The day that the counters are for.
    pub last_day: i64,
    /// The functions that the user may call; empty allows every function.
    pub allowed_functions: Vec<u8>,
}

/// What a [`SecurityPolicy`] holds.
pub struct SecurityPolicyView {
    pub user_id: Seq<char>,
    pub max_tx_per_day: nat,
    pub max_amount_per_tx: nat,
    pub max_amount_per_day: nat,
    pub daily_tx_count: nat,
    pub daily_amount: nat,
    pub last_day: int,
    pub allowed_functions: Seq<u8>,
}

impl View for SecurityPolicy {
    type V = SecurityPolicyView;

    open spec fn view(&self) -> SecurityPolicyView {
        SecurityPolicyView {
            user_id: self.user_id@,
            max_tx_per_day: self.max_tx_per_day as nat,
            max_amount_per_tx: self.max_amount_per_tx as nat,
            max_amount_per_day: self.max_amount_per_day as nat,
            daily_tx_count: self.daily_tx_count as nat,
            daily_amount: self.daily_amount as nat,
            last_day: self.last_day as int,
            allowed_functions: self.allowed_functions@,
        }
    }
}

impl SecurityPolicyView {
    /// The allow-list fits the room that a stored policy has for it.
    pub open spec fn wf(self) -> bool {
        self.allowed_functions.len() <= MAX_ALLOWED_FUNCTIONS
    }

    /// Whether the allow-list lets `function_id` through: an empty list lets
    /// every function through, any other list only its entries.
    pub open spec fn permits(self, function_id: u8) -> bool {
        self.allowed_functions.len() == 0 || self.allowed_functions.contains(function_id)
    }
}

/// The view of a policy that may be absent.
pub open spec fn security_policy_view(policy: Option<SecurityPolicy>) -> Option<SecurityPolicyView> {
    match policy {
        Some(p) => Some(p@),
        None => None,
    }
}

} // verus!
