//! Whether a signer may act through a key mapping.

use vstd::prelude::*;
use crate::error::ErrorCode;
use crate::identity::Identity;
use crate::state::{KeyMapping, KeyMappingView};

verus! {

/// Which key of a mapping a signer is.
#[derive(Clone, Copy, Debug, PartialEq, Eq, Structural)]
pub enum SignerKind {
    /// The temporary key, which expires.
    Main,
    /// The backup key, which does not.
    Backup,
}

/// Whether `signer` may act through `mapping` at the time `now`, and as
/// which key.
///
/// A revoked mapping lets nobody act. Otherwise the signer has to be one of
/// the two keys of the mapping, and the temporary key has to sign before its
/// expiry. The expiry does not bind the backup key. A signer that is both
/// keys at once counts as the temporary key.
pub open spec fn authorization(mapping: KeyMappingView, signer: Seq<u8>, now: int) -> Result<
    SignerKind,
    ErrorCode,
> {
    if mapping.revoked {
        Err(ErrorCode::RevokedKey)
    } else if signer != mapping.temp_key && signer != mapping.backup_key {
        Err(ErrorCode::InvalidKeySigner)
    } else if signer == mapping.temp_key && now >= mapping.expires_at {
        Err(ErrorCode::ExpiredKey)
    } else if signer == mapping.temp_key {
        Ok(SignerKind::Main)
    } else {
        Ok(SignerKind::Backup)
    }
}

/// Computes [`authorization`].
pub fn authorize(mapping: &KeyMapping, signer: &Identity, now: i64) -> (r: Result<
    SignerKind,
    ErrorCode,
>)
    ensures
        r == authorization(mapping@, signer@, now as int),
{
    proof {
        Identity::lemma_view_injective(*signer, mapping.temp_key);
        Identity::lemma_view_injective(*signer, mapping.backup_key);
    }
    if mapping.revoked {
        return Err(ErrorCode::RevokedKey);
    }
    let is_main_key = *signer == mapping.temp_key;
    let is_backup_key = *signer == mapping.backup_key;
    if !is_main_key && !is_backup_key {
        return Err(ErrorCode::InvalidKeySigner);
    }
    if is_main_key && now >= mapping.expires_at {
        return Err(ErrorCode::ExpiredKey);
    }
    if is_main_key {
        Ok(SignerKind::Main)
    } else {
        Ok(SignerKind::Backup)
    }
}

} // verus!
