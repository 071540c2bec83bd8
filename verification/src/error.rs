//! The named conditions under which an action is refused.

use vstd::prelude::*;

verus! {

/// Why an action was refused.
///
/// Every refusal ends the action: nothing the action would have changed is
/// changed, and nothing is retried.
#[derive(Clone, Copy, Debug, PartialEq, Eq, Structural)]
pub enum ErrorCode {
    /// The caller is not the identity that may perform the operation.
    Unauthorized,
    /// The mapping to revoke is revoked already.
    AlreadyRevoked,
    /// The signer is neither the temporary nor the backup key of the mapping.
    InvalidKeySigner,
    /// The mapping of the signer is revoked.
    RevokedKey,
    /// The temporary key signed at or after its expiry.
    ExpiredKey,
    /// The session of the signer is over. Held for callers; no check of this
    /// crate reports it.
    SessionExpired,
    /// A fee rate is above the cap, or a fee would consume the whole amount.
    FeeTooHigh,
    /// The user has used up the actions of the day.
    DailyTxLimitExceeded,
    /// Held for a limit on the amount of one action; no check reports it.
    TxAmountLimitExceeded,
    /// Held for a limit on the amount of one day; no check reports it.
    DailyAmountLimitExceeded,
    /// The function is not on the allow-list of the user.
    FunctionNotAllowed,
    /// A mapping exists already for the temporary key.
    DuplicateMapping,
}

} // verus!
