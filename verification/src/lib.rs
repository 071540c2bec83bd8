//! Key delegation and policy-gated relay.
//!
//! A user's permanent backup identity authorises short-lived temporary
//! identities to act for the user. Every relayed action is checked against
//! the key mapping of its signer, an optional security policy of the user
//! (a daily budget and a function allow-list) and, for a transfer, an
//! optional fee policy. Only when every check has passed is the action
//! turned into the calls that the surrounding program has to perform.
//!
//! The functions here decide and compute on plain values. Finding and
//! storing the records, reading the clock and performing the resulting
//! calls are the caller's part.

pub mod accounts;
pub mod authorize;
pub mod dispatch;
pub mod error;
pub mod fee;
pub mod identity;
pub mod instruction;
pub mod laws;
pub mod lifecycle;
pub mod policy;
pub mod service;
pub mod state;
pub mod user_account;
pub mod window;

pub use accounts::{
    ChangeBackupKey, RegisterTempKeys, RelayTransaction, RevokeTempKey, SetFeePolicy,
    SetSecurityPolicy, SetTokenFeePolicy, TransferSplToken,
};
pub use dispatch::{relay_transaction, transfer_spl_token};
pub use error::ErrorCode;
pub use identity::Identity;
pub use instruction::{AccountMeta, Instruction, TokenTransfer};
pub use lifecycle::{
    change_backup_key, register_temp_keys, register_with_address, revoke_temp_key,
};
pub use policy::{
    set_fee_policy, set_security_policy, set_token_fee_policy, try_set_security_policy,
};
pub use state::{FeePolicy, KeyMapping, SecurityPolicy, TokenFeePolicy};
pub use user_account::{UserAccount, UserAccountProgram};
