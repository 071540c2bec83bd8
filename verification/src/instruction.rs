//! The calls that an authorised action results in, as plain values: the
//! forwarded instruction of a relay and the token transfers of a settlement.

use vstd::prelude::*;
use crate::identity::Identity;

verus! {

/// The first byte of a relay payload, reserved for routing.
pub const ROUTING_SELECTOR: u8 = 0;

/// One account that an instruction names.
#[derive(Clone, Copy, Debug, PartialEq, Eq)]
pub struct AccountMeta {
    /// The account.
    pub pubkey: Identity,
    /// Whether the account signs the instruction.
    pub is_signer: bool,
    /// Whether the instruction may write to the account.
    pub is_writable: bool,
}

/// What an [`AccountMeta`] holds.
pub struct AccountMetaView {
    pub pubkey: Seq<u8>,
    pub is_signer: bool,
    pub is_writable: bool,
}

impl View for AccountMeta {
    type V = AccountMetaView;

    open spec fn view(&self) -> AccountMetaView {
        AccountMetaView {
            pubkey: self.pubkey@,
            is_signer: self.is_signer,
            is_writable: self.is_writable,
        }
    }
}

impl AccountMeta {
    /// An account that the instruction may write to.
    pub fn new(pubkey: Identity, is_signer: bool) -> (meta: AccountMeta)
        ensures
            meta@ == (AccountMetaView { pubkey: pubkey@, is_signer, is_writable: true }),
    {
        AccountMeta { pubkey, is_signer, is_writable: true }
    }

    /// An account that the instruction only reads.
    pub fn new_readonly(pubkey: Identity, is_signer: bool) -> (meta: AccountMeta)
        ensures
            meta@ == (AccountMetaView { pubkey: pubkey@, is_signer, is_writable: false }),
    {
        AccountMeta { pubkey, is_signer, is_writable: false }
    }
}

/// A call of a program.
#[derive(Clone, Debug, PartialEq, Eq)]
pub struct Instruction {
    /// The program that is called.
    pub program_id: Identity,
    /// The accounts that the call names, in order.
    pub accounts: Vec<AccountMeta>,
    /// The payload of the call.
    pub data: Vec<u8>,
}

/// What an [`Instruction`] holds.
pub struct InstructionView {
    pub program_id: Seq<u8>,
    pub accounts: Seq<AccountMetaView>,
    pub data: Seq<u8>,
}

impl View for Instruction {
    type V = InstructionView;

    open spec fn view(&self) -> InstructionView {
        InstructionView {
            program_id: self.program_id@,
            accounts: self.accounts@.map_values(|meta: AccountMeta| meta@),
            data: self.data@,
        }
    }
}

/// One transfer of tokens between two token accounts.
#[derive(Clone, Copy, Debug, PartialEq, Eq)]
pub struct TokenTransfer {
    /// The token account that pays.
    pub from: Identity,
    /// The token account that receives.
    pub to: Identity,
    /// The identity that authorises the transfer.
    pub authority: Identity,
    /// How much is moved.
    pub amount: u64,
}

/// What a [`TokenTransfer`] holds.
pub struct TokenTransferView {
    pub from: Seq<u8>,
    pub to: Seq<u8>,
    pub authority: Seq<u8>,
    pub amount: nat,
}

impl View for TokenTransfer {
    type V = TokenTransferView;

    open spec fn view(&self) -> TokenTransferView {
        TokenTransferView {
            from: self.from@,
            to: self.to@,
            authority: self.authority@,
            amount: self.amount as nat,
        }
    }
}

/// The views of a list of transfers, in order.
pub open spec fn transfers_view(transfers: Seq<TokenTransfer>) -> Seq<TokenTransferView> {
    transfers.map_values(|t: TokenTransfer| t@)
}

/// The four bytes of `n`, lowest first.
pub open spec fn le_bytes4(n: nat) -> Seq<u8> {
    seq![
        (n % 256) as u8,
        (n / 256 % 256) as u8,
        (n / 65536 % 256) as u8,
        (n / 16777216 % 256) as u8,
    ]
}

/// The payload of a relayed call: the routing byte, the function, the length
/// of the parameters in four bytes, lowest first, and the parameters as they
/// are. A length that four bytes cannot hold is cut to its low 32 bits.
pub open spec fn relay_payload(function_id: u8, params: Seq<u8>) -> Seq<u8> {
    seq![ROUTING_SELECTOR, function_id] + le_bytes4(params.len() % 0x1_0000_0000) + params
}

/// Computes [`le_bytes4`].
pub fn u32_to_le_bytes(n: u32) -> (bytes: [u8; 4])
    ensures
        bytes@ == le_bytes4(n as nat),
{
    let bytes = [
        (n % 256) as u8,
        (n / 256 % 256) as u8,
        (n / 65536 % 256) as u8,
        (n / 16777216 % 256) as u8,
    ];
    assert(bytes@ =~= le_bytes4(n as nat));
    bytes
}

/// Computes [`relay_payload`].
pub fn encode_relay_payload(function_id: u8, params: &Vec<u8>) -> (data: Vec<u8>)
    ensures
        data@ == relay_payload(function_id, params@),
{
    let length: u32 = ((params.len() as u64) % 0x1_0000_0000) as u32;
    let prefix = u32_to_le_bytes(length);
    let mut data: Vec<u8> = Vec::new();
    data.push(ROUTING_SELECTOR);
    data.push(function_id);
    data.push(prefix[0]);
    data.push(prefix[1]);
    data.push(prefix[2]);
    data.push(prefix[3]);
    assert(data@ =~= seq![ROUTING_SELECTOR, function_id] + le_bytes4(
        params@.len() % 0x1_0000_0000,
    ));
    let ghost head = data@;
    let mut i: usize = 0;
    while i < params.len()
        invariant
            i <= params@.len(),
            data@ == head + params@.subrange(0, i as int),
        decreases params@.len() - i,
    {
        data.push(params[i]);
        assert(params@.subrange(0, i as int).push(params@[i as int]) =~= params@.subrange(
            0,
            i + 1,
        ));
        i += 1;
    }
    assert(params@.subrange(0, params@.len() as int) =~= params@);
    data
}

} // verus!
