//! The outside services as this library sees them: the token-balance service,
//! the native-currency transfer and the metadata registrar. An operation that
//! needs them hands back the requests to make, in order, with the notification
//! to emit once all of them were honoured. Until then what the operation did
//! to its records is provisional: [`settle`] keeps it where every request was
//! carried out and puts the records from before the operation back otherwise.

use vstd::prelude::*;
use vstd::bytes::{spec_u16_to_le_bytes, spec_u32_to_le_bytes, spec_u64_to_le_bytes};
use vstd::utf8::encode_utf8;
use crate::pubkey::Pubkey;
use crate::text::byte_len;

verus! {

/// One account of a request to a program, with what the request may do to it.
#[derive(Clone, Copy, Debug)]
pub struct AccountMeta {
    pub pubkey: Pubkey,
    pub is_signer: bool,
    pub is_writable: bool,
}

impl AccountMeta {
    /// The account with the given address and rights.
    pub fn from_parts(pubkey: [u8; 32], is_signer: bool, is_writable: bool) -> (meta: AccountMeta)
        ensures
            meta == (AccountMeta { pubkey: Pubkey { bytes: pubkey }, is_signer, is_writable }),
    {
        AccountMeta { pubkey: Pubkey { bytes: pubkey }, is_signer, is_writable }
    }
}

/// A request to a program: the program, the accounts it works on, its payload.
#[derive(Debug)]
pub struct Instruction {
    pub program_id: Pubkey,
    pub accounts: Vec<AccountMeta>,
    pub data: Vec<u8>,
}

/// An [`Instruction`] as a mathematical value.
pub struct InstructionView {
    pub program_id: Pubkey,
    pub accounts: Seq<AccountMeta>,
    pub data: Seq<u8>,
}

impl View for Instruction {
    type V = InstructionView;

    open spec fn view(&self) -> InstructionView {
        InstructionView { program_id: self.program_id, accounts: self.accounts@, data: self.data@ }
    }
}

impl Instruction {
    /// The request to the program with the given address.
    pub fn from_parts(program_id: [u8; 32], accounts: Vec<AccountMeta>, data: Vec<u8>) -> (ix:
        Instruction)
        ensures
            ix == (Instruction { program_id: Pubkey { bytes: program_id }, accounts, data }),
    {
        Instruction { program_id: Pubkey { bytes: program_id }, accounts, data }
    }
}

/// A request to an outside service.
#[derive(Debug)]
pub enum ServiceCall {
    /// Move `lamports` of the native currency from one identity to another.
    Transfer { from: Pubkey, to: Pubkey, lamports: u64 },
    /// Mint `amount` units of the token `mint` to the token account `to`. The
    /// authority is a record of this program, which signs with its seeds.
    MintTo { mint: Pubkey, to: Pubkey, authority: Pubkey, amount: u64, signer_seeds: Vec<Vec<u8>> },
    /// Burn `amount` units of the token `mint` held by the token account `from`.
    Burn { mint: Pubkey, from: Pubkey, authority: Pubkey, amount: u64 },
    /// Close a token account and refund its storage deposit to `destination`.
    CloseAccount { account: Pubkey, destination: Pubkey, authority: Pubkey },
    /// Hand an instruction to its program, over the accounts listed, signed
    /// with the seeds of a record of this program.
    InvokeSigned { instruction: Instruction, accounts: Vec<Pubkey>, signer_seeds: Vec<Vec<u8>> },
}

/// A [`ServiceCall`] as a mathematical value.
pub enum ServiceCallView {
    Transfer { from: Pubkey, to: Pubkey, lamports: u64 },
    MintTo { mint: Pubkey, to: Pubkey, authority: Pubkey, amount: u64, signer_seeds: Seq<Seq<u8>> },
    Burn { mint: Pubkey, from: Pubkey, authority: Pubkey, amount: u64 },
    CloseAccount { account: Pubkey, destination: Pubkey, authority: Pubkey },
    InvokeSigned { instruction: InstructionView, accounts: Seq<Pubkey>, signer_seeds: Seq<Seq<u8>> },
}

impl View for ServiceCall {
    type V = ServiceCallView;

    open spec fn view(&self) -> ServiceCallView {
        match *self {
            ServiceCall::Transfer { from, to, lamports } => ServiceCallView::Transfer {
                from,
                to,
                lamports,
            },
            ServiceCall::MintTo {
                mint,
                to,
                authority,
                amount,
                signer_seeds,
            } => ServiceCallView::MintTo {
                mint,
                to,
                authority,
                amount,
                signer_seeds: signer_seeds.deep_view(),
            },
            ServiceCall::Burn { mint, from, authority, amount } => ServiceCallView::Burn {
                mint,
                from,
                authority,
                amount,
            },
            ServiceCall::CloseAccount {
                account,
                destination,
                authority,
            } => ServiceCallView::CloseAccount { account, destination, authority },
            ServiceCall::InvokeSigned {
                instruction,
                accounts,
                signer_seeds,
            } => ServiceCallView::InvokeSigned {
                instruction: instruction@,
                accounts: accounts@,
                signer_seeds: signer_seeds.deep_view(),
            },
        }
    }
}

/// The requests of a sequence, each as a mathematical value.
pub open spec fn calls_view(calls: Seq<ServiceCall>) -> Seq<ServiceCallView> {
    calls.map_values(|call: ServiceCall| call@)
}

/// How an outside service answered one request.
#[derive(Clone, Copy, Debug, PartialEq, Eq, Structural)]
pub enum ServiceReply {
    /// The request was carried out.
    Done,
    /// The request was refused; nothing of it took effect.
    Failed,
}

/// What an operation leaves to do outside: the requests to make, in order,
/// and the notification to emit when every one of them was carried out.
#[derive(Debug)]
pub struct Receipt<E> {
    pub calls: Vec<ServiceCall>,
    pub event: E,
}

/// An operation was abandoned because an outside service refused a request,
/// or because not every request was answered.
#[derive(Clone, Copy, Debug, PartialEq, Eq, Structural)]
pub struct ServiceFailed;

/// Every one of `count` requests was answered, and with [`ServiceReply::Done`].
pub open spec fn all_done(count: nat, replies: Seq<ServiceReply>) -> bool {
    &&& replies.len() == count
    &&& forall|i: int| 0 <= i < replies.len() ==> replies[i] == ServiceReply::Done
}

/// How an operation ends, as one unit: where every request of the receipt
/// was carried out the state that the operation produced stands and its
/// notification is emitted; otherwise the state from before the operation
/// stands and nothing is emitted.
pub open spec fn spec_settle<S, E>(
    before: S,
    after: S,
    receipt: Receipt<E>,
    replies: Seq<ServiceReply>,
) -> (S, Result<E, ServiceFailed>) {
    if all_done(receipt.calls@.len(), replies) {
        (after, Ok(receipt.event))
    } else {
        (before, Err(ServiceFailed))
    }
}

/// Closes an operation as one unit: hands back the state that stands, the
/// one from after the operation or the one from before it, and the
/// notification to emit if the operation stands.
pub fn settle<S, E>(before: S, after: S, receipt: Receipt<E>, replies: &Vec<ServiceReply>) -> (outcome:
    (S, Result<E, ServiceFailed>))
    ensures
        outcome == spec_settle(before, after, receipt, replies@),
{
    if replies.len() != receipt.calls.len() {
        return (before, Err(ServiceFailed));
    }
    let mut i: usize = 0;
    while i < replies.len()
        invariant
            i <= replies.len(),
            forall|j: int| 0 <= j < i ==> replies@[j] == ServiceReply::Done,
        decreases replies.len() - i,
    {
        if replies[i] != ServiceReply::Done {
            return (before, Err(ServiceFailed));
        }
        i = i + 1;
    }
    (after, Ok(receipt.event))
}

/// Identity of the metadata registrar.
pub open spec fn spec_token_metadata_program() -> Pubkey {
    Pubkey {
        bytes: [
            11u8, 112, 101, 177, 227, 209, 124, 69, 56, 157, 82, 127, 107, 4, 195, 205, 88, 184,
            108, 115, 26, 160, 253, 181, 73, 182, 209, 188, 3, 248, 41, 70,
        ],
    }
}

/// Identity of the token-balance service.
pub open spec fn spec_token_program() -> Pubkey {
    Pubkey {
        bytes: [
            6u8, 221, 246, 225, 215, 101, 161, 147, 217, 203, 225, 70, 206, 235, 121, 172, 28,
            180, 133, 237, 95, 91, 55, 145, 58, 140, 245, 133, 126, 255, 0, 169,
        ],
    }
}

/// Identity of the token-balance service.
pub fn token_program() -> (key: Pubkey)
    ensures
        key == spec_token_program(),
{
    Pubkey {
        bytes: [
            6u8, 221, 246, 225, 215, 101, 161, 147, 217, 203, 225, 70, 206, 235, 121, 172, 28,
            180, 133, 237, 95, 91, 55, 145, 58, 140, 245, 133, 126, 255, 0, 169,
        ],
    }
}

/// A string as the registrar reads it: its length in bytes as four
/// little-endian bytes, then the bytes.
pub open spec fn spec_prefixed_string(s: Seq<char>) -> Seq<u8> {
    spec_u32_to_le_bytes(byte_len(s) as u32) + encode_utf8(s)
}

/// Payload of the request that records name, symbol and URI of a token: the
/// request's number, the three strings, the royalty, no creators, no
/// collection, no uses, whether the record may change later, no collection
/// details.
pub open spec fn spec_metadata_data(
    name: Seq<char>,
    symbol: Seq<char>,
    uri: Seq<char>,
    seller_fee_basis_points: u16,
    is_mutable: bool,
) -> Seq<u8> {
    seq![33u8] + spec_prefixed_string(name) + spec_prefixed_string(symbol) + spec_prefixed_string(
        uri,
    ) + spec_u16_to_le_bytes(seller_fee_basis_points) + seq![0u8, 0u8, 0u8] + seq![
        if is_mutable {
            1u8
        } else {
            0u8
        },
    ] + seq![0u8]
}

/// Payload of the request that makes a token the only one of its kind: the
/// request's number, then the number of further prints allowed, if any limit
/// is given.
pub open spec fn spec_master_edition_data(max_supply: Option<u64>) -> Seq<u8> {
    match max_supply {
        Some(supply) => seq![17u8, 1u8] + spec_u64_to_le_bytes(supply),
        None => seq![17u8, 0u8],
    }
}

/// The accounts of a request to record the metadata of a token.
#[derive(Clone, Copy, Debug)]
pub struct MetadataAccounts {
    pub metadata: Pubkey,
    pub mint: Pubkey,
    pub mint_authority: Pubkey,
    pub payer: Pubkey,
    pub update_authority: Pubkey,
    pub update_authority_is_signer: bool,
    pub system_program: Pubkey,
    pub rent: Pubkey,
}

/// The accounts of a request to make a token the only one of its kind.
#[derive(Clone, Copy, Debug)]
pub struct MasterEditionAccounts {
    pub edition: Pubkey,
    pub mint: Pubkey,
    pub update_authority: Pubkey,
    pub mint_authority: Pubkey,
    pub payer: Pubkey,
    pub metadata: Pubkey,
    pub token_program: Pubkey,
    pub system_program: Pubkey,
    pub rent: Pubkey,
}

/// The request that `CreateMetadataAccountV3::instruction` builds.
pub open spec fn spec_metadata_instruction(
    a: MetadataAccounts,
    name: Seq<char>,
    symbol: Seq<char>,
    uri: Seq<char>,
    seller_fee_basis_points: u16,
    is_mutable: bool,
) -> InstructionView {
    InstructionView {
        program_id: spec_token_metadata_program(),
        accounts: seq![
            AccountMeta { pubkey: a.metadata, is_signer: false, is_writable: true },
            AccountMeta { pubkey: a.mint, is_signer: false, is_writable: false },
            AccountMeta { pubkey: a.mint_authority, is_signer: true, is_writable: false },
            AccountMeta { pubkey: a.payer, is_signer: true, is_writable: true },
            AccountMeta {
                pubkey: a.update_authority,
                is_signer: a.update_authority_is_signer,
                is_writable: false,
            },
            AccountMeta { pubkey: a.system_program, is_signer: false, is_writable: false },
            AccountMeta { pubkey: a.rent, is_signer: false, is_writable: false },
        ],
        data: spec_metadata_data(name, symbol, uri, seller_fee_basis_points, is_mutable),
    }
}

/// The request that `CreateMasterEditionV3::instruction` builds.
pub open spec fn spec_master_edition_instruction(
    a: MasterEditionAccounts,
    max_supply: Option<u64>,
) -> InstructionView {
    InstructionView {
        program_id: spec_token_metadata_program(),
        accounts: seq![
            AccountMeta { pubkey: a.edition, is_signer: false, is_writable: true },
            AccountMeta { pubkey: a.mint, is_signer: false, is_writable: true },
            AccountMeta { pubkey: a.update_authority, is_signer: true, is_writable: false },
            AccountMeta { pubkey: a.mint_authority, is_signer: true, is_writable: false },
            AccountMeta { pubkey: a.payer, is_signer: true, is_writable: true },
            AccountMeta { pubkey: a.metadata, is_signer: false, is_writable: true },
            AccountMeta { pubkey: a.token_program, is_signer: false, is_writable: false },
            AccountMeta { pubkey: a.system_program, is_signer: false, is_writable: false },
            AccountMeta { pubkey: a.rent, is_signer: false, is_writable: false },
        ],
        data: spec_master_edition_data(max_supply),
    }
}

} // verus!
