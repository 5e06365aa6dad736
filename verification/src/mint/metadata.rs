//! The descriptive record and the supply-cap marker that may accompany a
//! mint. Both live in accounts of their own, at addresses derived from the
//! mint's address.

use crate::address::Address;
use crate::text::trim_trailing_nuls;
use crate::text::without_trailing_nuls;
use spl_pod::solana_pubkey::Pubkey;
use vstd::prelude::*;

verus! {

/// The descriptive record of a mint.
#[derive(Clone, Debug, PartialEq, Eq)]
pub struct Metadata {
    pub update_authority: Address,
    pub mint: Address,
    pub name: String,
    pub symbol: String,
    pub uri: String,
    pub seller_fee_basis_points: u16,
    pub primary_sale_happened: bool,
    pub is_mutable: bool,
}

/// What a descriptive record holds, with character sequences for its texts.
pub struct MetadataModel {
    pub update_authority: Address,
    pub mint: Address,
    pub name: Seq<char>,
    pub symbol: Seq<char>,
    pub uri: Seq<char>,
    pub seller_fee_basis_points: u16,
    pub primary_sale_happened: bool,
    pub is_mutable: bool,
}

impl View for Metadata {
    type V = MetadataModel;

    open spec fn view(&self) -> MetadataModel {
        MetadataModel {
            update_authority: self.update_authority,
            mint: self.mint,
            name: self.name@,
            symbol: self.symbol@,
            uri: self.uri@,
            seller_fee_basis_points: self.seller_fee_basis_points,
            primary_sale_happened: self.primary_sale_happened,
            is_mutable: self.is_mutable,
        }
    }
}

impl MetadataModel {
    /// The record with the NUL padding taken off the end of its three texts,
    /// which are stored in buffers of fixed size.
    pub open spec fn trimmed(self) -> MetadataModel {
        MetadataModel {
            name: without_trailing_nuls(self.name),
            symbol: without_trailing_nuls(self.symbol),
            uri: without_trailing_nuls(self.uri),
            ..self
        }
    }
}

/// The supply-cap marker of a mint.
#[derive(Clone, Copy, Debug, PartialEq, Eq)]
pub struct MasterEdition {
    pub supply: u64,
    pub max_supply: Option<u64>,
}

/// What is known of a mint beyond its own account.
#[derive(Clone, Debug, PartialEq, Eq)]
pub struct TokenMetadata {
    pub metadata: Option<Metadata>,
    pub master_edition: Option<MasterEdition>,
}

/// What the records that accompany a mint hold.
pub struct TokenMetadataModel {
    pub metadata: Option<MetadataModel>,
    pub master_edition: Option<MasterEdition>,
}

/// What an optional descriptive record holds.
pub open spec fn metadata_view(record: Option<Metadata>) -> Option<MetadataModel> {
    match record {
        Some(m) => Some(m@),
        None => None,
    }
}

impl View for TokenMetadata {
    type V = TokenMetadataModel;

    open spec fn view(&self) -> TokenMetadataModel {
        TokenMetadataModel {
            metadata: metadata_view(self.metadata),
            master_edition: self.master_edition,
        }
    }
}

/// What optional accompanying records hold.
pub open spec fn token_metadata_view(records: Option<TokenMetadata>) -> Option<
    TokenMetadataModel,
> {
    match records {
        Some(t) => Some(t@),
        None => None,
    }
}

/// What `Metadata::from_bytes` of `mpl_token_metadata` reads from the data of
/// a metadata account, with the fields that this library keeps; `None` where
/// it fails.
pub uninterp spec fn metadata_account(data: Seq<u8>) -> Option<MetadataModel>;

/// What `MasterEdition::from_bytes` of `mpl_token_metadata` reads from the
/// data of a master-edition account; `None` where it fails.
pub uninterp spec fn master_edition_account(data: Seq<u8>) -> Option<MasterEdition>;

/// The address at which the metadata program keeps the descriptive record of
/// the mint with the given address bytes, if the search for it ends.
pub uninterp spec fn metadata_address_of(mint: Seq<u8>) -> Option<Address>;

/// The address at which the metadata program keeps the supply-cap marker of
/// the mint with the given address bytes, if the search for it ends.
pub uninterp spec fn master_edition_address_of(mint: Seq<u8>) -> Option<Address>;

/// Calls `Metadata::from_bytes` of `mpl_token_metadata`, which deserializes
/// the account data field by field. The contract names the result, which
/// depends on the data alone, and claims nothing else of it.
#[verifier::external_body]
fn metadata_from_bytes(data: &[u8]) -> (r: Option<Metadata>)
    ensures
        metadata_view(r) == metadata_account(data@),
{
    match mpl_token_metadata::accounts::Metadata::from_bytes(data) {
        Ok(m) => Some(
            Metadata {
                update_authority: Address { bytes: m.update_authority.to_bytes() },
                mint: Address { bytes: m.mint.to_bytes() },
                name: m.name,
                symbol: m.symbol,
                uri: m.uri,
                seller_fee_basis_points: m.seller_fee_basis_points,
                primary_sale_happened: m.primary_sale_happened,
                is_mutable: m.is_mutable,
            },
        ),
        Err(_) => None,
    }
}

/// Calls `MasterEdition::from_bytes` of `mpl_token_metadata`. The contract
/// names the result, which depends on the data alone.
#[verifier::external_body]
fn master_edition_from_bytes(data: &[u8]) -> (r: Option<MasterEdition>)
    ensures
        r == master_edition_account(data@),
{
    match mpl_token_metadata::accounts::MasterEdition::from_bytes(data) {
        Ok(e) => Some(MasterEdition { supply: e.supply, max_supply: e.max_supply }),
        Err(_) => None,
    }
}

/// Calls `Pubkey::try_find_program_address` of `solana_pubkey` with the seeds
/// of a metadata account: the prefix of `mpl_token_metadata`, the address of
/// the metadata program, and the mint. The contract names the address found,
/// which depends on the mint alone.
#[verifier::external_body]
fn find_metadata_address(mint: &Address) -> (r: Option<Address>)
    ensures
        r == metadata_address_of(mint@),
{
    let program = mpl_token_metadata::ID;
    let prefix = mpl_token_metadata::accounts::Metadata::PREFIX;
    let seeds: [&[u8]; 3] = [prefix, program.as_ref(), &mint.bytes];
    match Pubkey::try_find_program_address(&seeds, &program) {
        Some(found) => Some(Address { bytes: found.0.to_bytes() }),
        None => None,
    }
}

/// Calls `Pubkey::try_find_program_address` of `solana_pubkey` with the seeds
/// of a master-edition account: the two prefixes of `mpl_token_metadata`
/// around the address of the metadata program and the mint. The contract
/// names the address found, which depends on the mint alone.
#[verifier::external_body]
fn find_master_edition_address(mint: &Address) -> (r: Option<Address>)
    ensures
        r == master_edition_address_of(mint@),
{
    let program = mpl_token_metadata::ID;
    let prefix = mpl_token_metadata::accounts::MasterEdition::PREFIX;
    let seeds: [&[u8]; 4] = [prefix.0, program.as_ref(), &mint.bytes, prefix.1];
    match Pubkey::try_find_program_address(&seeds, &program) {
        Some(found) => Some(Address { bytes: found.0.to_bytes() }),
        None => None,
    }
}

impl Metadata {
    /// The address of the account that holds the descriptive record of
    /// `mint`, if the search for it ends.
    pub fn find_address(mint: &Address) -> (r: Option<Address>)
        ensures
            r == metadata_address_of(mint@),
    {
        find_metadata_address(mint)
    }

    /// Reads a descriptive record from the data of its account; nothing
    /// where the data does not parse. The texts keep their padding.
    pub fn from_bytes(data: &[u8]) -> (r: Option<Metadata>)
        ensures
            metadata_view(r) == metadata_account(data@),
    {
        metadata_from_bytes(data)
    }

    /// Takes the NUL padding off the end of the name, the symbol and the URI.
    pub fn trim(self) -> (trimmed: Metadata)
        ensures
            trimmed@ == self@.trimmed(),
    {
        Metadata {
            update_authority: self.update_authority,
            mint: self.mint,
            name: trim_trailing_nuls(self.name.as_str()),
            symbol: trim_trailing_nuls(self.symbol.as_str()),
            uri: trim_trailing_nuls(self.uri.as_str()),
            seller_fee_basis_points: self.seller_fee_basis_points,
            primary_sale_happened: self.primary_sale_happened,
            is_mutable: self.is_mutable,
        }
    }
}

impl MasterEdition {
    /// The address of the account that holds the supply-cap marker of
    /// `mint`, if the search for it ends.
    pub fn find_address(mint: &Address) -> (r: Option<Address>)
        ensures
            r == master_edition_address_of(mint@),
    {
        find_master_edition_address(mint)
    }

    /// Reads a supply-cap marker from the data of its account; nothing where
    /// the data does not parse.
    pub fn from_bytes(data: &[u8]) -> (r: Option<MasterEdition>)
        ensures
            r == master_edition_account(data@),
    {
        master_edition_from_bytes(data)
    }
}

/// What the accompanying records hold once the descriptive record has been
/// trimmed.
pub open spec fn assembled(metadata: Option<MetadataModel>, master_edition: Option<MasterEdition>)
    -> TokenMetadataModel {
    TokenMetadataModel {
        metadata: match metadata {
            Some(m) => Some(m.trimmed()),
            None => None,
        },
        master_edition,
    }
}

impl TokenMetadata {
    /// Puts the two records together, the texts of the descriptive record
    /// trimmed. There is always a result, even where both records are
    /// missing.
    pub fn assemble(metadata: Option<Metadata>, master_edition: Option<MasterEdition>) -> (r:
        Option<TokenMetadata>)
        ensures
            token_metadata_view(r) == Some(assembled(metadata_view(metadata), master_edition)),
    {
        let metadata = match metadata {
            Some(m) => Some(m.trim()),
            None => None,
        };
        Some(TokenMetadata { metadata, master_edition })
    }
}

} // verus!
