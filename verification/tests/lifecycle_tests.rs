use aa_relay::user_account::{
    derive_user_account_address, UserAccount, MAX_SEED_LEN, USER_ACCOUNT_PROGRAM_ID,
    USER_ACCOUNT_SEED,
};
use aa_relay::{
    change_backup_key, register_temp_keys, register_with_address, revoke_temp_key, ChangeBackupKey, ErrorCode, Identity, KeyMapping, RegisterTempKeys,
    RevokeTempKey, UserAccountProgram,
};
use anchor_lang::prelude::Pubkey;
use std::str::FromStr;

fn id_of(byte: u8) -> Identity {
    Identity::new_from_array([byte; 32])
}

fn mapping_of(temp: u8, backup: u8) -> KeyMapping {
    KeyMapping {
        temp_key: id_of(temp),
        backup_key: id_of(backup),
        user_id: String::from("alice"),
        user_account_pda: id_of(77),
        expires_at: 1000,
        revoked: false,
        created_at: 10,
    }
}

fn registration() -> RegisterTempKeys {
    RegisterTempKeys { payer: id_of(1), temp_key: id_of(2), backup_key: id_of(3), key_mapping: None }
}

#[test]
fn identity_keeps_its_bytes() {
    let mut bytes = [0u8; 32];
    for (i, b) in bytes.iter_mut().enumerate() {
        *b = i as u8;
    }
    let id = Identity::new_from_array(bytes);
    assert_eq!(id.to_bytes(), bytes);
    assert_eq!(id.bytes, bytes);
}

#[test]
fn identities_are_equal_when_all_bytes_agree() {
    assert!(id_of(5) == id_of(5));
    assert!(id_of(5) != id_of(6));
    for position in 0..32 {
        let mut bytes = [5u8; 32];
        bytes[position] = 6;
        assert!(Identity::new_from_array(bytes) != id_of(5));
    }
}

#[test]
fn user_account_program_id_is_the_base58_identity() {
    let expected = Pubkey::from_str("G6p3b6vh9YcXrwKrGzkmHxh9ynDVvCbx2ShRGamofrL4").unwrap();
    assert_eq!(UserAccount::id().to_bytes(), expected.to_bytes());
    assert_eq!(USER_ACCOUNT_PROGRAM_ID, expected.to_bytes());
}

#[test]
fn user_account_seed_is_the_tag() {
    assert_eq!(&USER_ACCOUNT_SEED[..], b"user_account");
}

#[test]
fn user_account_program_names_no_accounts() {
    let program = UserAccountProgram { dummy: 0 };
    assert!(program.to_account_metas(None).is_empty());
    assert!(program.to_account_metas(Some(true)).is_empty());
}

#[test]
fn derived_address_is_the_program_address_of_tag_and_user() {
    let program = Pubkey::new_from_array(USER_ACCOUNT_PROGRAM_ID);
    for user in ["alice", "bob", "", "user-42", "ünïcödé"] {
        let (expected, _) = Pubkey::find_program_address(&[b"user_account", user.as_bytes()], &program);
        let derived = derive_user_account_address(user).unwrap();
        assert_eq!(derived.to_bytes(), expected.to_bytes());
    }
}

#[test]
fn derived_address_differs_from_user_to_user() {
    let alice = derive_user_account_address("alice").unwrap();
    let bob = derive_user_account_address("bob").unwrap();
    assert_ne!(alice, bob);
    assert_eq!(alice, derive_user_account_address("alice").unwrap());
    assert_ne!(alice.to_bytes(), USER_ACCOUNT_PROGRAM_ID);
}

#[test]
fn seed_limit_is_that_of_the_address_search() {
    assert_eq!(MAX_SEED_LEN, anchor_lang::solana_program::pubkey::MAX_SEED_LEN);
    assert_eq!(MAX_SEED_LEN, 32);
}

#[test]
fn no_address_for_a_user_id_over_32_bytes() {
    let program = Pubkey::new_from_array(USER_ACCOUNT_PROGRAM_ID);
    let two_bytes_each = "é".repeat(17);
    assert_eq!(two_bytes_each.chars().count(), 17);
    assert_eq!(derive_user_account_address(&two_bytes_each), None);
    assert_eq!(
        Pubkey::try_find_program_address(&[b"user_account", two_bytes_each.as_bytes()], &program),
        None
    );
    let long = "x".repeat(33);
    assert_eq!(derive_user_account_address(&long), None);
    let longest = "x".repeat(32);
    assert!(derive_user_account_address(&longest).is_some());
}

#[test]
fn register_stores_a_fresh_mapping() {
    let mut ctx = registration();
    assert_eq!(register_temp_keys(&mut ctx, String::from("alice"), 5000, 123), Some(Ok(())));
    let program = Pubkey::new_from_array(USER_ACCOUNT_PROGRAM_ID);
    let (pda, _) = Pubkey::find_program_address(&[b"user_account", b"alice"], &program);
    let expected = KeyMapping {
        temp_key: id_of(2),
        backup_key: id_of(3),
        user_id: String::from("alice"),
        user_account_pda: Identity::new_from_array(pda.to_bytes()),
        expires_at: 5000,
        revoked: false,
        created_at: 123,
    };
    assert_eq!(ctx.key_mapping, Some(expected));
    assert_eq!(ctx.payer, id_of(1));
    assert_eq!(ctx.temp_key, id_of(2));
    assert_eq!(ctx.backup_key, id_of(3));
}

#[test]
fn register_refuses_a_second_mapping_for_the_key() {
    let mut ctx = registration();
    assert_eq!(register_temp_keys(&mut ctx, String::from("alice"), 5000, 123), Some(Ok(())));
    let stored = ctx.clone();
    assert_eq!(
        register_temp_keys(&mut ctx, String::from("bob"), 9000, 456),
        Some(Err(ErrorCode::DuplicateMapping))
    );
    assert_eq!(ctx, stored);
    assert_eq!(
        register_temp_keys(&mut ctx, "y".repeat(40), 9000, 456),
        Some(Err(ErrorCode::DuplicateMapping))
    );
    assert_eq!(ctx, stored);
}

#[test]
fn register_with_address_keeps_the_given_address() {
    let mut ctx = registration();
    assert_eq!(register_with_address(&mut ctx, String::from("carol"), -5, id_of(44), -9), Ok(()));
    let mapping = ctx.key_mapping.clone().unwrap();
    assert_eq!(mapping.user_account_pda, id_of(44));
    assert_eq!(mapping.user_id, "carol");
    assert_eq!(mapping.expires_at, -5);
    assert_eq!(mapping.created_at, -9);
    assert!(!mapping.revoked);
    assert_eq!(
        register_with_address(&mut ctx, String::from("dave"), 1, id_of(45), 2),
        Err(ErrorCode::DuplicateMapping)
    );
    assert_eq!(ctx.key_mapping, Some(mapping));
}

#[test]
fn register_reports_a_user_without_an_address() {
    let mut ctx = registration();
    assert_eq!(register_temp_keys(&mut ctx, "z".repeat(33), 5000, 123), None);
    assert_eq!(ctx, registration());
    assert_eq!(register_temp_keys(&mut ctx, "z".repeat(32), 5000, 123), Some(Ok(())));
    assert_eq!(ctx.key_mapping.as_ref().map(|m| m.user_id.len()), Some(32));
}

#[test]
fn register_keeps_the_derived_address() {
    let mut ctx = registration();
    assert_eq!(register_temp_keys(&mut ctx, String::from("alice"), 5000, 123), Some(Ok(())));
    let derived = derive_user_account_address("alice").unwrap();
    let mut direct = registration();
    assert_eq!(register_with_address(&mut direct, String::from("alice"), 5000, derived, 123), Ok(()));
    assert_eq!(ctx, direct);
}

#[test]
fn revoke_sets_the_flag_once() {
    let mut ctx = RevokeTempKey { authority: id_of(1), payer: id_of(1), key_mapping: mapping_of(2, 3) };
    assert_eq!(revoke_temp_key(&mut ctx), Ok(()));
    let mut expected = mapping_of(2, 3);
    expected.revoked = true;
    assert_eq!(ctx.key_mapping, expected);
    assert_eq!(revoke_temp_key(&mut ctx), Err(ErrorCode::AlreadyRevoked));
    assert_eq!(ctx.key_mapping, expected);
}

#[test]
fn revoke_needs_the_authority_to_be_the_payer() {
    let mut ctx = RevokeTempKey { authority: id_of(1), payer: id_of(9), key_mapping: mapping_of(2, 3) };
    assert_eq!(revoke_temp_key(&mut ctx), Err(ErrorCode::Unauthorized));
    assert_eq!(ctx.key_mapping, mapping_of(2, 3));
}

#[test]
fn revoked_mapping_reports_already_revoked_before_unauthorized() {
    let mut mapping = mapping_of(2, 3);
    mapping.revoked = true;
    let mut ctx = RevokeTempKey { authority: id_of(1), payer: id_of(9), key_mapping: mapping.clone() };
    assert_eq!(revoke_temp_key(&mut ctx), Err(ErrorCode::AlreadyRevoked));
    assert_eq!(ctx.key_mapping, mapping);
}

#[test]
fn backup_key_is_replaced_by_its_owner() {
    let mut ctx = ChangeBackupKey {
        current_backup_key_signer: id_of(3),
        new_backup_key: id_of(4),
        key_mapping: mapping_of(2, 3),
    };
    assert_eq!(change_backup_key(&mut ctx), Ok(()));
    assert_eq!(ctx.key_mapping, mapping_of(2, 4));
    assert_eq!(ctx.current_backup_key_signer, id_of(3));
    assert_eq!(ctx.new_backup_key, id_of(4));
}

#[test]
fn any_other_caller_cannot_replace_the_backup_key() {
    for caller in [1u8, 2, 4, 5] {
        let mut ctx = ChangeBackupKey {
            current_backup_key_signer: id_of(caller),
            new_backup_key: id_of(4),
            key_mapping: mapping_of(2, 3),
        };
        assert_eq!(change_backup_key(&mut ctx), Err(ErrorCode::Unauthorized));
        assert_eq!(ctx.key_mapping, mapping_of(2, 3));
    }
}

#[test]
fn replaced_backup_key_can_no_longer_rotate() {
    let mut ctx = ChangeBackupKey {
        current_backup_key_signer: id_of(3),
        new_backup_key: id_of(4),
        key_mapping: mapping_of(2, 3),
    };
    assert_eq!(change_backup_key(&mut ctx), Ok(()));
    ctx.new_backup_key = id_of(5);
    assert_eq!(change_backup_key(&mut ctx), Err(ErrorCode::Unauthorized));
    assert_eq!(ctx.key_mapping, mapping_of(2, 4));
    ctx.current_backup_key_signer = id_of(4);
    assert_eq!(change_backup_key(&mut ctx), Ok(()));
    assert_eq!(ctx.key_mapping, mapping_of(2, 5));
}

#[test]
fn rotation_ignores_expiry_and_revocation() {
    let mut mapping = mapping_of(2, 3);
    mapping.expires_at = i64::MIN;
    mapping.revoked = true;
    let mut ctx = ChangeBackupKey {
        current_backup_key_signer: id_of(3),
        new_backup_key: id_of(4),
        key_mapping: mapping.clone(),
    };
    assert_eq!(change_backup_key(&mut ctx), Ok(()));
    mapping.backup_key = id_of(4);
    assert_eq!(ctx.key_mapping, mapping);
    assert!(ctx.key_mapping.revoked);
}
