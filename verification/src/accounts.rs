//! The records and identities that each operation works on, as the caller
//! has resolved them.
//!
//! Records are found by a fixed key, the signer or the user id, never by a
//! search, and a policy that is absent is a valid state: the caller hands
//! over what it found.

use vstd::prelude::*;
use crate::identity::Identity;
use crate::state::{FeePolicy, KeyMapping, SecurityPolicy, TokenFeePolicy};

verus! {

/// What setting the fee policy works on.
#[derive(Clone, Copy, Debug, PartialEq, Eq)]
pub struct SetFeePolicy {
    /// The administrator that signs.
    pub authority: Identity,
    /// Who is to receive the fees.
    pub fee_collector: Identity,
    /// The stored fee policy.
    pub fee_policy: FeePolicy,
}

/// What setting the fee rate of one token works on.
#[derive(Clone, Copy, Debug, PartialEq, Eq)]
pub struct SetTokenFeePolicy {
    /// The administrator that signs.
    pub authority: Identity,
    /// The token that the rate is for.
    pub token_mint: Identity,
    /// The stored policy of the token.
    pub token_fee_policy: TokenFeePolicy,
}

/// What setting the security policy of a user works on.
#[derive(Clone, Debug, PartialEq, Eq)]
pub struct SetSecurityPolicy {
    /// The administrator that signs.
    pub authority: Identity,
    /// A key mapping of the user.
    pub key_mapping: KeyMapping,
    /// The stored policy of the user.
    pub security_policy: SecurityPolicy,
}

/// What registering a temporary key works on.
#[derive(Clone, Debug, PartialEq, Eq)]
pub struct RegisterTempKeys {
    /// The administrator that pays for the registration.
    pub payer: Identity,
    /// The temporary key to register.
    pub temp_key: Identity,
    /// The backup key that stands behind it.
    pub backup_key: Identity,
    /// The mapping stored for the temporary key, if there is one.
    pub key_mapping: Option<KeyMapping>,
}

/// What revoking a temporary key works on.
#[derive(Clone, Debug, PartialEq, Eq)]
pub struct RevokeTempKey {
    /// The administrator that signs.
    pub authority: Identity,
    /// Who pays for the call.
    pub payer: Identity,
    /// The mapping to revoke.
    pub key_mapping: KeyMapping,
}

/// What replacing a backup key works on.
#[derive(Clone, Debug, PartialEq, Eq)]
pub struct ChangeBackupKey {
    /// The caller, who has to be the backup key in place.
    pub current_backup_key_signer: Identity,
    /// The backup key to put in its place.
    pub new_backup_key: Identity,
    /// The mapping whose backup key is replaced.
    pub key_mapping: KeyMapping,
}

/// What a token transfer works on.
#[derive(Clone, Debug, PartialEq, Eq)]
pub struct TransferSplToken {
    /// Who pays for the call.
    pub fee_payer: Identity,
    /// The signer: the temporary or the backup key.
    pub temp_key: Identity,
    /// The token that is transferred.
    pub mint: Identity,
    /// The token account that pays.
    pub from: Identity,
    /// The token account of the recipient.
    pub to: Identity,
    /// The token account that receives the fee.
    pub fee_collector: Identity,
    /// The key mapping of the signer.
    pub key_mapping: KeyMapping,
    /// The fee policy, if one is set.
    pub fee_policy: Option<FeePolicy>,
    /// The fee policy of the token, if one is set.
    pub token_fee_policy: Option<TokenFeePolicy>,
    /// The security policy of the user, if one is set.
    pub security_policy: Option<SecurityPolicy>,
}

/// What a relayed call works on.
#[derive(Clone, Debug, PartialEq, Eq)]
pub struct RelayTransaction {
    /// Who pays for the call.
    pub fee_payer: Identity,
    /// The signer: the temporary or the backup key.
    pub temp_key: Identity,
    /// The key mapping of the signer.
    pub key_mapping: KeyMapping,
    /// The security policy of the user, if one is set.
    pub security_policy: Option<SecurityPolicy>,
}

impl TransferSplToken {
    /// A policy that is attached belongs to the user of the mapping.
    pub open spec fn wf(&self) -> bool {
        self.security_policy matches Some(policy) ==> policy.user_id@ == self.key_mapping.user_id@
    }
}

impl RelayTransaction {
    /// A policy that is attached belongs to the user of the mapping.
    pub open spec fn wf(&self) -> bool {
        self.security_policy matches Some(policy) ==> policy.user_id@ == self.key_mapping.user_id@
    }
}

} // verus!
