//! The execution target of relayed calls: the user account program, and the
//! address of a user's account in it.

use vstd::prelude::*;
use vstd::utf8::encode_utf8;
use crate::identity::Identity;
use crate::instruction::AccountMeta;

verus! {

/// The namespace tag of user account addresses: the bytes of `user_account`.
pub const USER_ACCOUNT_SEED: [u8; 12] = [117, 115, 101, 114, 95, 97, 99, 99, 111, 117, 110, 116];

/// The bytes of the identity of the user account program,
/// `G6p3b6vh9YcXrwKrGzkmHxh9ynDVvCbx2ShRGamofrL4` in base 58.
pub const USER_ACCOUNT_PROGRAM_ID: [u8; 32] = [
    224, 92, 102, 198, 58, 194, 25, 58, 125, 17, 162, 101, 21, 207, 70, 247,
    66, 132, 0, 86, 172, 180, 7, 58, 230, 168, 53, 15, 36, 194, 42, 69,
];

/// The largest number of bytes that a seed of a program address may have.
pub const MAX_SEED_LEN: usize = 32;

/// The user account program.
#[derive(Clone, Copy, Debug)]
pub struct UserAccount;

impl UserAccount {
    /// The identity of the user account program.
    pub fn id() -> (id: Identity)
        ensures
            id@ == USER_ACCOUNT_PROGRAM_ID@,
    {
        Identity::new_from_array(USER_ACCOUNT_PROGRAM_ID)
    }
}

/// The accounts of a call of the user account program that names none.
#[derive(Clone, Copy, Debug)]
pub struct UserAccountProgram {
    pub dummy: u8,
}

impl UserAccountProgram {
    /// The accounts that the call names: none.
    pub fn to_account_metas(&self, _is_signer: Option<bool>) -> (metas: Vec<AccountMeta>)
        ensures
            metas@.len() == 0,
    {
        Vec::new()
    }
}

/// The program address that `anchor_lang`'s `Pubkey::try_find_program_address`
/// finds for the two seeds and the program, or `None` where it finds none.
pub uninterp spec fn program_address(
    first_seed: Seq<u8>,
    second_seed: Seq<u8>,
    program_id: Seq<u8>,
) -> Option<Seq<u8>>;

/// Calls `Pubkey::try_find_program_address` of `anchor_lang` with the two
/// seeds, in this order, and the program.
///
/// Trusted: the search tries the bump seeds from 255 down and depends on
/// nothing but the seeds and the program, so the same arguments always give
/// the same answer, which [`program_address`] names. The answer is `None`
/// where a seed is longer than 32 bytes, and in the improbable case that no
/// bump seed gives an address off the curve; the function does not panic.
#[verifier::external_body]
fn try_find_program_address(first_seed: &[u8], second_seed: &[u8], program_id: &Identity) -> (r:
    Option<Identity>)
    ensures
        match r {
            Some(address) => program_address(first_seed@, second_seed@, program_id@) == Some(
                address@,
            ),
            None => program_address(first_seed@, second_seed@, program_id@) is None,
        },
        first_seed@.len() > MAX_SEED_LEN || second_seed@.len() > MAX_SEED_LEN ==> r is None,
{
    let program = anchor_lang::prelude::Pubkey::new_from_array(program_id.bytes);
    let seeds: [&[u8]; 2] = [first_seed, second_seed];
    match anchor_lang::prelude::Pubkey::try_find_program_address(&seeds, &program) {
        Some((address, _)) => Some(Identity { bytes: address.to_bytes() }),
        None => None,
    }
}

/// The address of the account of the user `user_id` in the user account
/// program, where the user has one: [`program_address`] of the namespace tag,
/// the UTF-8 bytes of the user id and the program.
pub open spec fn user_account_address(user_id: Seq<char>) -> Option<Seq<u8>> {
    program_address(USER_ACCOUNT_SEED@, encode_utf8(user_id), USER_ACCOUNT_PROGRAM_ID@)
}

/// Derives [`user_account_address`]. A user id of more than 32 bytes has no
/// address.
pub fn derive_user_account_address(user_id: &str) -> (r: Option<Identity>)
    ensures
        match r {
            Some(address) => user_account_address(user_id@) == Some(address@),
            None => user_account_address(user_id@) is None,
        },
        encode_utf8(user_id@).len() > MAX_SEED_LEN ==> r is None,
{
    let program = UserAccount::id();
    try_find_program_address(USER_ACCOUNT_SEED.as_slice(), user_id.as_bytes(), &program)
}

} // verus!
