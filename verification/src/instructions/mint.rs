//! Issuance: the plain mint and the premium mint, which costs a fee.

use vstd::prelude::*;
use mpl_token_metadata::instructions::{
    CreateMasterEditionV3, CreateMasterEditionV3InstructionArgs, CreateMetadataAccountV3,
    CreateMetadataAccountV3InstructionArgs,
};
use mpl_token_metadata::types::DataV2;
use crate::address::{collection_config_seeds, seeds_with_bump, spec_collection_config_seeds};
use crate::pubkey::Pubkey;
use crate::service::{
    calls_view, spec_master_edition_instruction, spec_metadata_instruction, spec_token_program,
    token_program,
    AccountMeta, Instruction, MasterEditionAccounts, MetadataAccounts, Receipt, ServiceCall,
    ServiceCallView,
};
use crate::state::CollectionConfig;
use crate::text::{byte_len, lemma_token_name_len, spec_token_name, token_name};

verus! {

/// The identities that a mint names, the same for both kinds of mint.
#[derive(Clone, Copy, Debug)]
pub struct MintAccounts {
    /// The caller, who pays and receives the token.
    pub minter: Pubkey,
    /// Address of the collection registry, which is the mint authority.
    pub collection_config: Pubkey,
    /// The new token.
    pub mint: Pubkey,
    /// The caller's token account for the new token.
    pub token_account: Pubkey,
    /// Where the registrar keeps the token's metadata.
    pub metadata: Pubkey,
    /// Where the registrar keeps the token's edition.
    pub master_edition: Pubkey,
    /// The native system program.
    pub system_program: Pubkey,
    /// The rent parameters.
    pub rent: Pubkey,
}

/// What a plain mint works on.
#[derive(Clone, Debug)]
pub struct MintNft {
    pub accounts: MintAccounts,
    pub collection_config: CollectionConfig,
}

/// What a premium mint works on.
#[derive(Clone, Debug)]
pub struct MintNftWithPremium {
    pub accounts: MintAccounts,
    pub collection_config: CollectionConfig,
}

/// Notification of a mint.
#[derive(Clone, Debug, PartialEq, Eq)]
pub struct ArtMinted {
    /// Sequence id of the new token.
    pub token_id: u64,
    /// The caller who minted it.
    pub artist: Pubkey,
    /// URI of its metadata.
    pub token_uri: String,
    /// Whether the premium fee was paid for it.
    pub premium: bool,
}

/// Why a mint was refused.
#[derive(Clone, Copy, Debug, PartialEq, Eq, Structural)]
pub enum MintError {
    /// The counter of issued tokens cannot take one more.
    MathOverflow,
}

/// Calls `CreateMetadataAccountV3::instruction` of mpl-token-metadata, with
/// no creators, collection, uses or collection details. Trusted: the request
/// goes to the registrar, names the seven accounts in the order and with the
/// rights that the crate's source gives, and carries the payload in the
/// layout of [`crate::service::spec_metadata_data`].
#[verifier::external_body]
fn metadata_instruction(
    a: &MetadataAccounts,
    name: String,
    symbol: String,
    uri: String,
    seller_fee_basis_points: u16,
    is_mutable: bool,
) -> (ix: Instruction)
    requires
        byte_len(name@) <= u32::MAX,
        byte_len(symbol@) <= u32::MAX,
        byte_len(uri@) <= u32::MAX,
    ensures
        ix@ == spec_metadata_instruction(
            *a,
            name@,
            symbol@,
            uri@,
            seller_fee_basis_points,
            is_mutable,
        ),
{
    let data = DataV2 { name, symbol, uri, seller_fee_basis_points, creators: None, collection: None, uses: None };
    let ix = CreateMetadataAccountV3 {
        metadata: a.metadata.bytes.into(),
        mint: a.mint.bytes.into(),
        mint_authority: a.mint_authority.bytes.into(),
        payer: a.payer.bytes.into(),
        update_authority: (a.update_authority.bytes.into(), a.update_authority_is_signer),
        system_program: a.system_program.bytes.into(),
        rent: Some(a.rent.bytes.into()),
    }.instruction(CreateMetadataAccountV3InstructionArgs { data, is_mutable, collection_details: None });
    let accounts = ix.accounts.iter().map(|m| AccountMeta::from_parts(m.pubkey.to_bytes(), m.is_signer, m.is_writable));
    Instruction::from_parts(ix.program_id.to_bytes(), accounts.collect(), ix.data)
}

/// Calls `CreateMasterEditionV3::instruction` of mpl-token-metadata. Trusted:
/// the request goes to the registrar, names the nine accounts in the order and
/// with the rights that the crate's source gives, and carries the payload in
/// the layout of [`crate::service::spec_master_edition_data`].
#[verifier::external_body]
fn master_edition_instruction(a: &MasterEditionAccounts, max_supply: Option<u64>) -> (ix: Instruction)
    ensures
        ix@ == spec_master_edition_instruction(*a, max_supply),
{
    let ix = CreateMasterEditionV3 {
        edition: a.edition.bytes.into(),
        mint: a.mint.bytes.into(),
        update_authority: a.update_authority.bytes.into(),
        mint_authority: a.mint_authority.bytes.into(),
        payer: a.payer.bytes.into(),
        metadata: a.metadata.bytes.into(),
        token_program: a.token_program.bytes.into(),
        system_program: a.system_program.bytes.into(),
        rent: Some(a.rent.bytes.into()),
    }.instruction(CreateMasterEditionV3InstructionArgs { max_supply });
    let accounts = ix.accounts.iter().map(|m| AccountMeta::from_parts(m.pubkey.to_bytes(), m.is_signer, m.is_writable));
    Instruction::from_parts(ix.program_id.to_bytes(), accounts.collect(), ix.data)
}

/// What the collection registry signs with.
pub open spec fn spec_registry_signer_seeds(bump: u8) -> Seq<Seq<u8>> {
    spec_collection_config_seeds().push(seq![bump])
}

/// The request to the registrar to record name, symbol and URI of a token:
/// the registry is mint authority and update authority and signs, the record
/// stays mutable, and no royalty is asked.
pub open spec fn spec_create_metadata_account(
    metadata: Pubkey,
    mint: Pubkey,
    mint_authority: Pubkey,
    payer: Pubkey,
    system_program: Pubkey,
    rent: Pubkey,
    name: Seq<char>,
    symbol: Seq<char>,
    uri: Seq<char>,
    signer_seeds: Seq<Seq<u8>>,
) -> ServiceCallView {
    ServiceCallView::InvokeSigned {
        instruction: spec_metadata_instruction(
            MetadataAccounts {
                metadata,
                mint,
                mint_authority,
                payer,
                update_authority: mint_authority,
                update_authority_is_signer: true,
                system_program,
                rent,
            },
            name,
            symbol,
            uri,
            0,
            true,
        ),
        accounts: seq![metadata, mint, mint_authority, payer, mint_authority, system_program, rent],
        signer_seeds,
    }
}

/// The request to the registrar to make a token the only one of its kind: no
/// further print of it is allowed.
pub open spec fn spec_create_master_edition(
    master_edition: Pubkey,
    mint: Pubkey,
    mint_authority: Pubkey,
    metadata: Pubkey,
    payer: Pubkey,
    system_program: Pubkey,
    rent: Pubkey,
    token_program: Pubkey,
    signer_seeds: Seq<Seq<u8>>,
) -> ServiceCallView {
    ServiceCallView::InvokeSigned {
        instruction: spec_master_edition_instruction(
            MasterEditionAccounts {
                edition: master_edition,
                mint,
                update_authority: mint_authority,
                mint_authority,
                payer,
                metadata,
                token_program,
                system_program,
                rent,
            },
            Some(0u64),
        ),
        accounts: seq![
            master_edition,
            mint,
            mint_authority,
            mint_authority,
            payer,
            metadata,
            token_program,
            system_program,
            rent,
        ],
        signer_seeds,
    }
}

/// Builds the request to the registrar to record name, symbol and URI of a
/// token.
pub fn create_metadata_account(
    metadata: &Pubkey,
    mint: &Pubkey,
    mint_authority: &Pubkey,
    payer: &Pubkey,
    system_program: &Pubkey,
    rent: &Pubkey,
    name: String,
    symbol: String,
    uri: String,
    signer_seeds: Vec<Vec<u8>>,
) -> (call: ServiceCall)
    requires
        byte_len(name@) <= u32::MAX,
        byte_len(symbol@) <= u32::MAX,
        byte_len(uri@) <= u32::MAX,
    ensures
        call@ == spec_create_metadata_account(
            *metadata,
            *mint,
            *mint_authority,
            *payer,
            *system_program,
            *rent,
            name@,
            symbol@,
            uri@,
            signer_seeds.deep_view(),
        ),
{
    let accounts = MetadataAccounts {
        metadata: *metadata,
        mint: *mint,
        mint_authority: *mint_authority,
        payer: *payer,
        update_authority: *mint_authority,
        update_authority_is_signer: true,
        system_program: *system_program,
        rent: *rent,
    };
    let instruction = metadata_instruction(&accounts, name, symbol, uri, 0, true);
    let mut infos: Vec<Pubkey> = Vec::new();
    infos.push(*metadata);
    infos.push(*mint);
    infos.push(*mint_authority);
    infos.push(*payer);
    infos.push(*mint_authority);
    infos.push(*system_program);
    infos.push(*rent);
    assert(infos@ =~= seq![
        *metadata,
        *mint,
        *mint_authority,
        *payer,
        *mint_authority,
        *system_program,
        *rent,
    ]);
    ServiceCall::InvokeSigned { instruction, accounts: infos, signer_seeds }
}

/// Builds the request to the registrar to make a token the only one of its
/// kind.
pub fn create_master_edition(
    master_edition: &Pubkey,
    mint: &Pubkey,
    mint_authority: &Pubkey,
    metadata: &Pubkey,
    payer: &Pubkey,
    system_program: &Pubkey,
    rent: &Pubkey,
    token_program: &Pubkey,
    signer_seeds: Vec<Vec<u8>>,
) -> (call: ServiceCall)
    ensures
        call@ == spec_create_master_edition(
            *master_edition,
            *mint,
            *mint_authority,
            *metadata,
            *payer,
            *system_program,
            *rent,
            *token_program,
            signer_seeds.deep_view(),
        ),
{
    let accounts = MasterEditionAccounts {
        edition: *master_edition,
        mint: *mint,
        update_authority: *mint_authority,
        mint_authority: *mint_authority,
        payer: *payer,
        metadata: *metadata,
        token_program: *token_program,
        system_program: *system_program,
        rent: *rent,
    };
    let instruction = master_edition_instruction(&accounts, Some(0));
    let mut infos: Vec<Pubkey> = Vec::new();
    infos.push(*master_edition);
    infos.push(*mint);
    infos.push(*mint_authority);
    infos.push(*mint_authority);
    infos.push(*payer);
    infos.push(*metadata);
    infos.push(*token_program);
    infos.push(*system_program);
    infos.push(*rent);
    assert(infos@ =~= seq![
        *master_edition,
        *mint,
        *mint_authority,
        *mint_authority,
        *payer,
        *metadata,
        *token_program,
        *system_program,
        *rent,
    ]);
    ServiceCall::InvokeSigned { instruction, accounts: infos, signer_seeds }
}

/// The request to move the premium fee from the caller to the treasury.
pub open spec fn spec_fee_transfer(accounts: MintAccounts, config: CollectionConfig) -> ServiceCallView {
    ServiceCallView::Transfer {
        from: accounts.minter,
        to: config.treasury,
        lamports: config.premium_fee,
    }
}

/// The requests that issue the next token of the collection, in order: mint
/// one unit to the caller's token account under the registry's authority,
/// record the token's name, symbol and URI, and make it the only one of its
/// kind. The token is named after the collection and its sequence id, which
/// is the number of tokens issued before it.
pub open spec fn spec_mint_calls(
    accounts: MintAccounts,
    config: CollectionConfig,
    uri: Seq<char>,
) -> Seq<ServiceCallView> {
    let seeds = spec_registry_signer_seeds(config.bump);
    seq![
        ServiceCallView::MintTo {
            mint: accounts.mint,
            to: accounts.token_account,
            authority: accounts.collection_config,
            amount: 1,
            signer_seeds: seeds,
        },
        spec_create_metadata_account(
            accounts.metadata,
            accounts.mint,
            accounts.collection_config,
            accounts.minter,
            accounts.system_program,
            accounts.rent,
            spec_token_name(config.name@, config.total_minted),
            config.symbol@,
            uri,
            seeds,
        ),
        spec_create_master_edition(
            accounts.master_edition,
            accounts.mint,
            accounts.collection_config,
            accounts.metadata,
            accounts.minter,
            accounts.system_program,
            accounts.rent,
            spec_token_program(),
            seeds,
        ),
    ]
}

/// The requests of a mint: those of [`spec_mint_calls`], after the transfer
/// of the fee where the mint is a premium one.
pub open spec fn spec_mint_requests(
    accounts: MintAccounts,
    config: CollectionConfig,
    uri: Seq<char>,
    premium: bool,
) -> Seq<ServiceCallView> {
    if premium {
        seq![spec_fee_transfer(accounts, config)] + spec_mint_calls(accounts, config, uri)
    } else {
        spec_mint_calls(accounts, config, uri)
    }
}

/// What a mint does to the registry and hands back, for the registry and
/// accounts as they were before it.
pub open spec fn mint_outcome(
    accounts: MintAccounts,
    before: CollectionConfig,
    uri: String,
    premium: bool,
    after: CollectionConfig,
    result: Result<Receipt<ArtMinted>, MintError>,
) -> bool {
    if before.total_minted == u64::MAX {
        &&& result == Err::<Receipt<ArtMinted>, MintError>(MintError::MathOverflow)
        &&& after == before
    } else {
        &&& result matches Ok(receipt)
        &&& after == before.minted()
        &&& receipt.event == (ArtMinted {
            token_id: before.total_minted,
            artist: accounts.minter,
            token_uri: uri,
            premium,
        })
        &&& calls_view(receipt.calls@) == spec_mint_requests(accounts, before, uri@, premium)
    }
}

fn registry_signer_seeds(bump: u8) -> (seeds: Vec<Vec<u8>>)
    ensures
        seeds.deep_view() == spec_registry_signer_seeds(bump),
{
    seeds_with_bump(collection_config_seeds(), bump)
}

fn issue(accounts: &MintAccounts, config: &mut CollectionConfig, uri: String, premium: bool) -> (result:
    Result<Receipt<ArtMinted>, MintError>)
    requires
        old(config).wf(),
        byte_len(uri@) <= u32::MAX,
    ensures
        mint_outcome(*accounts, *old(config), uri, premium, *final(config), result),
{
    let mut calls: Vec<ServiceCall> = Vec::new();
    if premium {
        calls.push(
            ServiceCall::Transfer {
                from: accounts.minter,
                to: config.treasury,
                lamports: config.premium_fee,
            },
        );
    }
    let token_id = config.total_minted;
    let next = match token_id.checked_add(1) {
        Some(next) => next,
        None => {
            return Err(MintError::MathOverflow);
        },
    };
    calls.push(
        ServiceCall::MintTo {
            mint: accounts.mint,
            to: accounts.token_account,
            authority: accounts.collection_config,
            amount: 1,
            signer_seeds: registry_signer_seeds(config.bump),
        },
    );
    let name = token_name(&config.name, token_id);
    proof {
        lemma_token_name_len(config.name@, token_id);
    }
    calls.push(
        create_metadata_account(
            &accounts.metadata,
            &accounts.mint,
            &accounts.collection_config,
            &accounts.minter,
            &accounts.system_program,
            &accounts.rent,
            name,
            config.symbol.clone(),
            uri.clone(),
            registry_signer_seeds(config.bump),
        ),
    );
    let token_program = token_program();
    calls.push(
        create_master_edition(
            &accounts.master_edition,
            &accounts.mint,
            &accounts.collection_config,
            &accounts.metadata,
            &accounts.minter,
            &accounts.system_program,
            &accounts.rent,
            &token_program,
            registry_signer_seeds(config.bump),
        ),
    );
    assert(calls_view(calls@) =~= spec_mint_requests(*accounts, *config, uri@, premium));
    config.total_minted = next;
    Ok(
        Receipt {
            calls,
            event: ArtMinted { token_id, artist: accounts.minter, token_uri: uri, premium },
        },
    )
}

/// Plain mint: issues the next token of the collection to the caller.
///
/// The token's sequence id is the number of tokens issued before it, and the
/// counter goes up by one. The receipt lists the requests to the
/// token-balance service and to the registrar; the mint stands once all of
/// them were carried out, see [`crate::service::settle`]. Where the counter is
/// at its maximum the mint is refused and nothing changes.
pub fn handler(ctx: &mut MintNft, uri: String) -> (result: Result<Receipt<ArtMinted>, MintError>)
    requires
        old(ctx).collection_config.wf(),
        byte_len(uri@) <= u32::MAX,
    ensures
        final(ctx).accounts == old(ctx).accounts,
        mint_outcome(
            old(ctx).accounts,
            old(ctx).collection_config,
            uri,
            false,
            final(ctx).collection_config,
            result,
        ),
{
    let accounts = ctx.accounts;
    issue(&accounts, &mut ctx.collection_config, uri, false)
}

/// Premium mint: as the plain mint, after the configured fee went from the
/// caller to the treasury.
///
/// The transfer of the fee is the first request of the receipt: where it is
/// refused the whole mint is to be abandoned, see [`crate::service::settle`].
pub fn handler_with_premium(ctx: &mut MintNftWithPremium, uri: String) -> (result: Result<
    Receipt<ArtMinted>,
    MintError,
>)
    requires
        old(ctx).collection_config.wf(),
        byte_len(uri@) <= u32::MAX,
    ensures
        final(ctx).accounts == old(ctx).accounts,
        mint_outcome(
            old(ctx).accounts,
            old(ctx).collection_config,
            uri,
            true,
            final(ctx).collection_config,
            result,
        ),
{
    let accounts = ctx.accounts;
    issue(&accounts, &mut ctx.collection_config, uri, true)
}

} // verus!
