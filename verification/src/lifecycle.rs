//! The life of a key mapping: registration, revocation, and replacing the
//! backup key.

use vstd::prelude::*;
use vstd::utf8::encode_utf8;
use crate::accounts::{ChangeBackupKey, RegisterTempKeys, RevokeTempKey};
use crate::error::ErrorCode;
use crate::identity::Identity;
use crate::state::{KeyMapping, KeyMappingView};
use crate::user_account::{derive_user_account_address, user_account_address, MAX_SEED_LEN};

verus! {

impl KeyMappingView {
    /// The mapping that a registration at the time `now` creates.
    pub open spec fn registered(
        temp_key: Seq<u8>,
        backup_key: Seq<u8>,
        user_id: Seq<char>,
        user_account_pda: Seq<u8>,
        expires_at: int,
        now: int,
    ) -> KeyMappingView {
        KeyMappingView {
            temp_key,
            backup_key,
            user_id,
            user_account_pda,
            expires_at,
            revoked: false,
            created_at: now,
        }
    }

    /// The mapping after `authority` revokes it in a call that `payer` pays
    /// for, or why it stays as it is: a revoked mapping cannot be revoked
    /// again, and only the administrator, who also pays, may revoke.
    pub open spec fn revoke(self, authority: Seq<u8>, payer: Seq<u8>) -> Result<
        KeyMappingView,
        ErrorCode,
    > {
        if self.revoked {
            Err(ErrorCode::AlreadyRevoked)
        } else if authority != payer {
            Err(ErrorCode::Unauthorized)
        } else {
            Ok(KeyMappingView { revoked: true, ..self })
        }
    }

    /// The mapping after `caller` puts `new_backup_key` in the place of the
    /// backup key, or why it stays as it is: only the backup key in place may
    /// name its successor. Neither the expiry nor a revocation stands in the
    /// way.
    pub open spec fn rotate_backup(self, caller: Seq<u8>, new_backup_key: Seq<u8>) -> Result<
        KeyMappingView,
        ErrorCode,
    > {
        if caller != self.backup_key {
            Err(ErrorCode::Unauthorized)
        } else {
            Ok(KeyMappingView { backup_key: new_backup_key, ..self })
        }
    }
}

/// The view of a mapping that may be absent.
pub open spec fn key_mapping_view(mapping: Option<KeyMapping>) -> Option<KeyMappingView> {
    match mapping {
        Some(m) => Some(m@),
        None => None,
    }
}

/// The mapping that a registration at the time `now` stores for a temporary
/// key, or the refusal of a second mapping for a key that has one stored.
pub open spec fn registration(
    stored: Option<KeyMappingView>,
    temp_key: Seq<u8>,
    backup_key: Seq<u8>,
    user_id: Seq<char>,
    user_account_pda: Seq<u8>,
    expires_at: int,
    now: int,
) -> Result<KeyMappingView, ErrorCode> {
    if stored is Some {
        Err(ErrorCode::DuplicateMapping)
    } else {
        Ok(
            KeyMappingView::registered(
                temp_key,
                backup_key,
                user_id,
                user_account_pda,
                expires_at,
                now,
            ),
        )
    }
}

/// Registers the temporary key of `ctx` for the user `user_id`, with the
/// backup key of `ctx` behind it and `user_account_pda` as the address of the
/// user's account.
///
/// Fails with `DuplicateMapping` where a mapping is stored for the temporary
/// key already; the stored mapping then stays.
pub fn register_with_address(
    ctx: &mut RegisterTempKeys,
    user_id: String,
    expires_at: i64,
    user_account_pda: Identity,
    now: i64,
) -> (r: Result<(), ErrorCode>)
    ensures
        registration(
            key_mapping_view(old(ctx).key_mapping),
            old(ctx).temp_key@,
            old(ctx).backup_key@,
            user_id@,
            user_account_pda@,
            expires_at as int,
            now as int,
        ) == (match r {
            Ok(()) => Ok(final(ctx).key_mapping->0@),
            Err(e) => Err(e),
        }),
        r is Ok ==> final(ctx).key_mapping is Some,
        r is Err ==> *final(ctx) == *old(ctx),
        *final(ctx) == (RegisterTempKeys { key_mapping: final(ctx).key_mapping, ..*old(ctx) }),
{
    if ctx.key_mapping.is_some() {
        return Err(ErrorCode::DuplicateMapping);
    }
    ctx.key_mapping = Some(
        KeyMapping {
            temp_key: ctx.temp_key,
            backup_key: ctx.backup_key,
            user_id,
            user_account_pda,
            expires_at,
            revoked: false,
            created_at: now,
        },
    );
    Ok(())
}

/// Registers the temporary key of `ctx` for the user `user_id`, with the
/// backup key of `ctx` behind it. The address of the user's account is
/// derived from the user id, once, and kept in the mapping.
///
/// Returns `Some(Err(DuplicateMapping))` where a mapping is stored for the
/// temporary key already, and `None` where none is stored and no address can
/// be derived for `user_id`, as for a user id of more than 32 bytes. Either
/// way `ctx` stays as it is. Otherwise the mapping is stored as
/// [`register_with_address`] stores it, with the derived address.
pub fn register_temp_keys(ctx: &mut RegisterTempKeys, user_id: String, expires_at: i64, now: i64) -> (r:
    Option<Result<(), ErrorCode>>)
    ensures
        r is None <==> old(ctx).key_mapping is None && user_account_address(user_id@) is None,
        old(ctx).key_mapping is None && encode_utf8(user_id@).len() > MAX_SEED_LEN ==> r is None,
        r matches Some(registered) ==> registration(
            key_mapping_view(old(ctx).key_mapping),
            old(ctx).temp_key@,
            old(ctx).backup_key@,
            user_id@,
            user_account_address(user_id@)->0,
            expires_at as int,
            now as int,
        ) == (match registered {
            Ok(()) => Ok(final(ctx).key_mapping->0@),
            Err(e) => Err(e),
        }),
        r matches Some(Ok(_)) ==> final(ctx).key_mapping is Some,
        !(r matches Some(Ok(_))) ==> *final(ctx) == *old(ctx),
        *final(ctx) == (RegisterTempKeys { key_mapping: final(ctx).key_mapping, ..*old(ctx) }),
{
    if ctx.key_mapping.is_some() {
        return Some(Err(ErrorCode::DuplicateMapping));
    }
    match derive_user_account_address(user_id.as_str()) {
        Some(user_account_pda) => Some(
            register_with_address(ctx, user_id, expires_at, user_account_pda, now),
        ),
        None => None,
    }
}

/// Revokes the mapping of `ctx`, once and for good.
///
/// Fails with `AlreadyRevoked` where the mapping is revoked already, and
/// with `Unauthorized` where the authority is not the payer of the call. The
/// mapping then stays as it is.
pub fn revoke_temp_key(ctx: &mut RevokeTempKey) -> (r: Result<(), ErrorCode>)
    ensures
        old(ctx).key_mapping@.revoke(old(ctx).authority@, old(ctx).payer@) == (match r {
            Ok(()) => Ok(final(ctx).key_mapping@),
            Err(e) => Err(e),
        }),
        r is Err ==> *final(ctx) == *old(ctx),
        *final(ctx) == (RevokeTempKey { key_mapping: final(ctx).key_mapping, ..*old(ctx) }),
{
    proof {
        Identity::lemma_view_injective(ctx.authority, ctx.payer);
    }
    if ctx.key_mapping.revoked {
        return Err(ErrorCode::AlreadyRevoked);
    }
    if ctx.authority != ctx.payer {
        return Err(ErrorCode::Unauthorized);
    }
    ctx.key_mapping.revoked = true;
    Ok(())
}

/// Puts the new backup key of `ctx` in the place of the backup key of the
/// mapping.
///
/// Fails with `Unauthorized` where the caller is not the backup key in place;
/// the mapping then stays as it is. The expiry of the temporary key does not
/// stand in the way.
pub fn change_backup_key(ctx: &mut ChangeBackupKey) -> (r: Result<(), ErrorCode>)
    ensures
        old(ctx).key_mapping@.rotate_backup(
            old(ctx).current_backup_key_signer@,
            old(ctx).new_backup_key@,
        ) == (match r {
            Ok(()) => Ok(final(ctx).key_mapping@),
            Err(e) => Err(e),
        }),
        r is Err ==> *final(ctx) == *old(ctx),
        *final(ctx) == (ChangeBackupKey { key_mapping: final(ctx).key_mapping, ..*old(ctx) }),
{
    proof {
        Identity::lemma_view_injective(ctx.current_backup_key_signer, ctx.key_mapping.backup_key);
    }
    if ctx.current_backup_key_signer != ctx.key_mapping.backup_key {
        return Err(ErrorCode::Unauthorized);
    }
    ctx.key_mapping.backup_key = ctx.new_backup_key;
    Ok(())
}

} // verus!
