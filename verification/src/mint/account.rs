//! The fixed fields of a mint account.

use crate::address::tag_in_domain;
use crate::address::tagged_address_at;
use crate::address::lemma_tagged_roundtrip;
use crate::address::OptionalAddress;
use crate::bytes::lemma_u64_roundtrip;
use crate::bytes::read_u64_le;
use crate::bytes::u64_bytes;
use crate::bytes::u64_le;
use crate::bytes::write_u64_le;
use crate::address::Address;
use crate::cli::resolved;
use crate::cli::TokenProgram;
use crate::error::DecodeError;
use crate::extension::list::decode_extensions;
use crate::extension::list::extensions_after;
use crate::extension::list::models;
use crate::extension::record::ExtensionHost;
use crate::extension::record::ExtensionModel;
use crate::extension::record::ExtensionRecord;
use crate::mint::metadata::token_metadata_view;
use crate::mint::metadata::TokenMetadata;
use crate::mint::metadata::TokenMetadataModel;
use vstd::prelude::*;

verus! {

/// Length of the fixed mint layout: a tagged mint authority, the supply, the
/// decimals, the initialized flag and a tagged freeze authority.
pub const MINT_LEN: usize = 82;

/// The fixed fields of a mint.
#[derive(Clone, Copy, Debug, PartialEq, Eq)]
pub struct MintBase {
    pub mint_authority: OptionalAddress,
    pub supply: u64,
    pub decimals: u8,
    pub is_initialized: bool,
    pub freeze_authority: OptionalAddress,
}

/// What the first 82 bytes of a buffer hold when read as the fixed mint
/// layout. The first field that is out of its domain decides the error.
pub open spec fn mint_base_of(s: Seq<u8>) -> Result<MintBase, DecodeError> {
    if s.len() < 82 {
        Err(DecodeError::TruncatedBuffer { required: 82, actual: s.len() as usize })
    } else if !tag_in_domain(s, 0) {
        Err(DecodeError::MalformedField { offset: 0 })
    } else if !tag_in_domain(s, 46) {
        Err(DecodeError::MalformedField { offset: 46 })
    } else {
        Ok(
            MintBase {
                mint_authority: tagged_address_at(s, 0),
                supply: u64_le(s, 36) as u64,
                decimals: s[44],
                is_initialized: s[45] != 0,
                freeze_authority: tagged_address_at(s, 46),
            },
        )
    }
}

/// Decodes the fixed mint layout from the start of `bytes`. Bytes after the
/// first 82 are not looked at.
pub fn decode_mint(bytes: &[u8]) -> (r: Result<MintBase, DecodeError>)
    ensures
        r == mint_base_of(bytes@),
        bytes@.len() < 82 ==> r == Err::<MintBase, DecodeError>(
            DecodeError::TruncatedBuffer { required: 82, actual: bytes@.len() as usize },
        ),
        bytes@.len() >= 82 && tag_in_domain(bytes@, 0) && tag_in_domain(bytes@, 46) ==> r is Ok,
        r matches Ok(base) ==> {
            &&& base.mint_authority == tagged_address_at(bytes@, 0)
            &&& base.supply == u64_le(bytes@, 36)
            &&& base.decimals == bytes@[44]
            &&& base.is_initialized == (bytes@[45] != 0)
            &&& base.freeze_authority == tagged_address_at(bytes@, 46)
        },
{
    if bytes.len() < MINT_LEN {
        return Err(DecodeError::TruncatedBuffer { required: MINT_LEN, actual: bytes.len() });
    }
    let mint_authority = match OptionalAddress::read_tagged(bytes, 0) {
        Ok(a) => a,
        Err(e) => {
            return Err(e);
        },
    };
    let supply = read_u64_le(bytes, 36);
    let decimals = bytes[44];
    let is_initialized = bytes[45] != 0;
    let freeze_authority = match OptionalAddress::read_tagged(bytes, 46) {
        Ok(a) => a,
        Err(e) => {
            return Err(e);
        },
    };
    Ok(MintBase { mint_authority, supply, decimals, is_initialized, freeze_authority })
}

impl MintBase {
    /// The 82 bytes of the fixed layout that hold these fields.
    pub open spec fn layout_bytes(self) -> Seq<u8> {
        self.mint_authority.tagged_bytes() + u64_bytes(self.supply as int) + seq![
            self.decimals,
            if self.is_initialized {
                1u8
            } else {
                0u8
            },
        ] + self.freeze_authority.tagged_bytes()
    }

    /// Encodes the fields into the fixed 82-byte layout.
    pub fn encode(&self) -> (out: Vec<u8>)
        ensures
            out@ == self.layout_bytes(),
            out@.len() == 82,
    {
        let mut out: Vec<u8> = Vec::new();
        self.mint_authority.write_tagged(&mut out);
        write_u64_le(self.supply, &mut out);
        out.push(self.decimals);
        out.push(
            if self.is_initialized {
                1u8
            } else {
                0u8
            },
        );
        self.freeze_authority.write_tagged(&mut out);
        assert(out@ =~= self.layout_bytes());
        out
    }

    /// The number of decimal places in which amounts of this mint are shown.
    pub fn get_decimals(&self) -> (d: u8)
        ensures
            d == self.decimals,
    {
        self.decimals
    }
}

/// Encoding the fixed mint fields and decoding the result gives the fields
/// back, whatever bytes follow the encoding.
pub proof fn lemma_mint_base_roundtrip(m: MintBase, tail: Seq<u8>)
    ensures
        m.layout_bytes().len() == 82,
        mint_base_of(m.layout_bytes() + tail) == Ok::<MintBase, DecodeError>(m),
{
    let s = m.layout_bytes() + tail;
    assert(s.subrange(0, 36) =~= m.mint_authority.tagged_bytes());
    assert(s.subrange(36, 44) =~= u64_bytes(m.supply as int));
    assert(s.subrange(46, 82) =~= m.freeze_authority.tagged_bytes());
    lemma_tagged_roundtrip(m.mint_authority, s, 0);
    lemma_u64_roundtrip(m.supply as int, s, 36);
    lemma_tagged_roundtrip(m.freeze_authority, s, 46);
    assert(s[44] == m.decimals);
    assert(s[45] == if m.is_initialized {
        1u8
    } else {
        0u8
    });
}

/// A mint that is encoded into its fixed layout and decoded again is the
/// same mint, under either program. The fixed layout has no room for
/// extension records, so this is stated of mints that carry none; what
/// accompanies the mint is attached again as it was.
pub proof fn lemma_mint_state_roundtrip(program: TokenProgram, state: MintStateModel)
    requires
        state.extensions.len() == 0,
    ensures
        state.base.layout_bytes().len() == 82,
        mint_state_of(program, state.base.layout_bytes(), state.metadata) == Ok::<
            MintStateModel,
            DecodeError,
        >(state),
{
    lemma_mint_base_roundtrip(state.base, Seq::empty());
    assert(state.base.layout_bytes() + Seq::<u8>::empty() =~= state.base.layout_bytes());
    assert(state.extensions =~= Seq::<ExtensionModel>::empty());
}

/// Decoding the same account twice gives the same mint: the same fixed
/// fields, and the same extension records in the same order.
pub proof fn lemma_mint_decoding_repeats(
    owner: Address,
    data: Seq<u8>,
    metadata: Option<TokenMetadataModel>,
    first: Result<MintState, DecodeError>,
    second: Result<MintState, DecodeError>,
)
    requires
        mint_outcome_view(first) == mint_account_of(owner, data, metadata),
        mint_outcome_view(second) == mint_account_of(owner, data, metadata),
    ensures
        mint_outcome_view(first) == mint_outcome_view(second),
        first is Ok == second is Ok,
        first is Ok && second is Ok ==> first->Ok_0@.extensions == second->Ok_0@.extensions,
{
}

/// A mint as decoded from its account: the fixed fields, the extension
/// records in the order of the buffer, and the records that accompany the
/// mint where the caller supplied them.
#[derive(Clone, Debug, PartialEq, Eq)]
pub struct MintState {
    pub base: MintBase,
    pub extensions: Vec<ExtensionRecord>,
    pub metadata: Option<TokenMetadata>,
}

/// What a decoded mint holds.
pub struct MintStateModel {
    pub base: MintBase,
    pub extensions: Seq<ExtensionModel>,
    pub metadata: Option<TokenMetadataModel>,
}

impl View for MintState {
    type V = MintStateModel;

    open spec fn view(&self) -> MintStateModel {
        MintStateModel {
            base: self.base,
            extensions: models(self.extensions@),
            metadata: token_metadata_view(self.metadata),
        }
    }
}

/// What the data of a mint account holds under the given program. The fixed
/// fields are decoded first. Under the legacy program nothing else is looked
/// at; under the extensible program the extension records follow.
pub open spec fn mint_state_of(
    program: TokenProgram,
    s: Seq<u8>,
    metadata: Option<TokenMetadataModel>,
) -> Result<MintStateModel, DecodeError> {
    match mint_base_of(s) {
        Err(error) => Err(error),
        Ok(base) => match program {
            TokenProgram::LegacyToken => Ok(
                MintStateModel { base, extensions: Seq::empty(), metadata },
            ),
            TokenProgram::Token2022 => match extensions_after(ExtensionHost::Mint, s, 82) {
                Err(error) => Err(error),
                Ok(extensions) => Ok(MintStateModel { base, extensions, metadata }),
            },
        },
    }
}

/// What the data of a mint account holds, the layout chosen by the owner of
/// the account. An owner that is neither token program is refused before any
/// byte is read.
pub open spec fn mint_account_of(
    owner: Address,
    s: Seq<u8>,
    metadata: Option<TokenMetadataModel>,
) -> Result<MintStateModel, DecodeError> {
    match resolved(owner) {
        Err(error) => Err(error),
        Ok(program) => mint_state_of(program, s, metadata),
    }
}

/// The outcome of decoding a mint, with the record replaced by what it holds.
pub open spec fn mint_outcome_view(r: Result<MintState, DecodeError>) -> Result<
    MintStateModel,
    DecodeError,
> {
    match r {
        Ok(state) => Ok(state@),
        Err(error) => Err(error),
    }
}

impl MintState {
    pub fn mint_authority(&self) -> (authority: OptionalAddress)
        ensures
            authority == self.base.mint_authority,
    {
        self.base.mint_authority
    }

    pub fn supply(&self) -> (supply: u64)
        ensures
            supply == self.base.supply,
    {
        self.base.supply
    }

    pub fn decimals(&self) -> (decimals: u8)
        ensures
            decimals == self.base.decimals,
    {
        self.base.decimals
    }

    pub fn is_initialized(&self) -> (initialized: bool)
        ensures
            initialized == self.base.is_initialized,
    {
        self.base.is_initialized
    }

    pub fn freeze_authority(&self) -> (authority: OptionalAddress)
        ensures
            authority == self.base.freeze_authority,
    {
        self.base.freeze_authority
    }

    /// Decodes the data of a mint account under the given program and
    /// attaches `metadata` as it is.
    pub fn decode(program: TokenProgram, data: &[u8], metadata: Option<TokenMetadata>) -> (r:
        Result<MintState, DecodeError>)
        ensures
            mint_outcome_view(r) == mint_state_of(program, data@, token_metadata_view(metadata)),
    {
        let base = match decode_mint(data) {
            Ok(base) => base,
            Err(error) => {
                return Err(error);
            },
        };
        let none: Vec<ExtensionRecord> = Vec::new();
        assert(models(none@) =~= Seq::<ExtensionModel>::empty());
        let extensions = match program {
            TokenProgram::LegacyToken => none,
            TokenProgram::Token2022 => match decode_extensions(
                ExtensionHost::Mint,
                data,
                MINT_LEN,
            ) {
                Ok(extensions) => extensions,
                Err(error) => {
                    return Err(error);
                },
            },
        };
        Ok(MintState { base, extensions, metadata })
    }

    /// Decodes the data of a mint account, the layout chosen by the owner of
    /// the account, and attaches `metadata` as it is.
    pub fn from_account(owner: &Address, data: &[u8], metadata: Option<TokenMetadata>) -> (r:
        Result<MintState, DecodeError>)
        ensures
            mint_outcome_view(r) == mint_account_of(
                *owner,
                data@,
                token_metadata_view(metadata),
            ),
    {
        match TokenProgram::resolve(owner) {
            Ok(program) => MintState::decode(program, data, metadata),
            Err(error) => Err(error),
        }
    }
}

} // verus!
