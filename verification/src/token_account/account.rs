//! The fixed fields of a token account.

use crate::address::address_at;
use crate::address::lemma_address_at_own_bytes;
use crate::address::lemma_tagged_roundtrip;
use crate::address::tag_in_domain;
use crate::address::tagged_address_at;
use crate::address::Address;
use crate::address::OptionalAddress;
use crate::bytes::lemma_u32_roundtrip;
use crate::bytes::lemma_u64_roundtrip;
use crate::bytes::read_u32_le;
use crate::bytes::read_u64_le;
use crate::bytes::u32_bytes;
use crate::bytes::u32_le;
use crate::bytes::u64_bytes;
use crate::bytes::u64_le;
use crate::bytes::write_u32_le;
use crate::bytes::write_u64_le;
use crate::cli::resolved;
use crate::cli::TokenProgram;
use crate::error::DecodeError;
use crate::extension::list::decode_extensions;
use crate::extension::list::extensions_after;
use crate::extension::list::models;
use crate::extension::record::ExtensionHost;
use crate::extension::record::ExtensionModel;
use crate::extension::record::ExtensionRecord;
use vstd::prelude::*;

verus! {

/// Length of the fixed token-account layout.
pub const ACCOUNT_LEN: usize = 165;

/// Whether an account can be used.
#[derive(Clone, Copy, Debug, PartialEq, Eq, Structural)]
pub enum AccountState {
    Uninitialized,
    Initialized,
    Frozen,
}

/// Whether `byte` names an account state.
pub open spec fn state_in_domain(byte: u8) -> bool {
    byte <= 2
}

/// The account state that `byte` names: 0, 1 and 2 in the order of the
/// variants.
pub open spec fn state_of(byte: u8) -> AccountState {
    if byte == 0 {
        AccountState::Uninitialized
    } else if byte == 1 {
        AccountState::Initialized
    } else {
        AccountState::Frozen
    }
}

impl AccountState {
    /// The byte that names this state.
    pub open spec fn spec_code(self) -> u8 {
        match self {
            AccountState::Uninitialized => 0,
            AccountState::Initialized => 1,
            AccountState::Frozen => 2,
        }
    }

    /// The state that `byte` names, if it names one.
    pub fn from_code(byte: u8) -> (state: Option<AccountState>)
        ensures
            state == if state_in_domain(byte) {
                Some(state_of(byte))
            } else {
                None
            },
    {
        if byte == 0 {
            Some(AccountState::Uninitialized)
        } else if byte == 1 {
            Some(AccountState::Initialized)
        } else if byte == 2 {
            Some(AccountState::Frozen)
        } else {
            None
        }
    }

    /// The byte that names this state.
    #[verifier::when_used_as_spec(spec_code)]
    pub fn code(self) -> (byte: u8)
        ensures
            byte == self.spec_code(),
    {
        match self {
            AccountState::Uninitialized => 0,
            AccountState::Initialized => 1,
            AccountState::Frozen => 2,
        }
    }
}

/// The fixed fields of a token account.
#[derive(Clone, Copy, Debug, PartialEq, Eq)]
pub struct TokenAccountBase {
    pub mint: Address,
    pub owner: Address,
    pub amount: u64,
    pub delegate: OptionalAddress,
    pub state: AccountState,
    /// The rent-exempt reserve, held where the account wraps the native token.
    pub is_native: Option<u64>,
    pub delegated_amount: u64,
    pub close_authority: OptionalAddress,
}

/// What the tagged 64-bit field at `at` holds: tag 0 is nothing, whatever the
/// eight bytes after the tag, tag 1 is their value.
pub open spec fn tagged_u64_at(s: Seq<u8>, at: int) -> Option<u64> {
    if u32_le(s, at) == 1 {
        Some(u64_le(s, at + 4) as u64)
    } else {
        None
    }
}

/// The twelve bytes of a tagged 64-bit field.
pub open spec fn tagged_u64_bytes(value: Option<u64>) -> Seq<u8> {
    match value {
        None => u32_bytes(0) + u64_bytes(0),
        Some(v) => u32_bytes(1) + u64_bytes(v as int),
    }
}

/// What the first 165 bytes of a buffer hold when read as the fixed
/// token-account layout. The first field that is out of its domain decides
/// the error.
pub open spec fn account_base_of(s: Seq<u8>) -> Result<TokenAccountBase, DecodeError> {
    if s.len() < 165 {
        Err(DecodeError::TruncatedBuffer { required: 165, actual: s.len() as usize })
    } else if !tag_in_domain(s, 72) {
        Err(DecodeError::MalformedField { offset: 72 })
    } else if !state_in_domain(s[108]) {
        Err(DecodeError::MalformedField { offset: 108 })
    } else if !tag_in_domain(s, 109) {
        Err(DecodeError::MalformedField { offset: 109 })
    } else if !tag_in_domain(s, 129) {
        Err(DecodeError::MalformedField { offset: 129 })
    } else {
        Ok(
            TokenAccountBase {
                mint: address_at(s, 0),
                owner: address_at(s, 32),
                amount: u64_le(s, 64) as u64,
                delegate: tagged_address_at(s, 72),
                state: state_of(s[108]),
                is_native: tagged_u64_at(s, 109),
                delegated_amount: u64_le(s, 121) as u64,
                close_authority: tagged_address_at(s, 129),
            },
        )
    }
}

/// Decodes the fixed token-account layout from the start of `bytes`. Bytes
/// after the first 165 are not looked at.
pub fn decode_account(bytes: &[u8]) -> (r: Result<TokenAccountBase, DecodeError>)
    ensures
        r == account_base_of(bytes@),
{
    if bytes.len() < ACCOUNT_LEN {
        return Err(
            DecodeError::TruncatedBuffer { required: ACCOUNT_LEN, actual: bytes.len() },
        );
    }
    let mint = Address::read(bytes, 0);
    let owner = Address::read(bytes, 32);
    let amount = read_u64_le(bytes, 64);
    let delegate = match OptionalAddress::read_tagged(bytes, 72) {
        Ok(a) => a,
        Err(e) => {
            return Err(e);
        },
    };
    let state = match AccountState::from_code(bytes[108]) {
        Some(state) => state,
        None => {
            return Err(DecodeError::MalformedField { offset: 108 });
        },
    };
    let native_tag = read_u32_le(bytes, 109);
    if native_tag > 1 {
        return Err(DecodeError::MalformedField { offset: 109 });
    }
    let is_native = if native_tag == 1 {
        Some(read_u64_le(bytes, 113))
    } else {
        None
    };
    let delegated_amount = read_u64_le(bytes, 121);
    let close_authority = match OptionalAddress::read_tagged(bytes, 129) {
        Ok(a) => a,
        Err(e) => {
            return Err(e);
        },
    };
    Ok(
        TokenAccountBase {
            mint,
            owner,
            amount,
            delegate,
            state,
            is_native,
            delegated_amount,
            close_authority,
        },
    )
}

impl TokenAccountBase {
    /// The 165 bytes of the fixed layout that hold these fields.
    pub open spec fn layout_bytes(self) -> Seq<u8> {
        self.mint@ + self.owner@ + u64_bytes(self.amount as int) + self.delegate.tagged_bytes()
            + seq![self.state.spec_code()] + tagged_u64_bytes(self.is_native) + u64_bytes(
            self.delegated_amount as int,
        ) + self.close_authority.tagged_bytes()
    }

    /// Encodes the fields into the fixed 165-byte layout.
    pub fn encode(&self) -> (out: Vec<u8>)
        ensures
            out@ == self.layout_bytes(),
            out@.len() == 165,
    {
        let mut out: Vec<u8> = Vec::new();
        self.mint.write(&mut out);
        self.owner.write(&mut out);
        write_u64_le(self.amount, &mut out);
        self.delegate.write_tagged(&mut out);
        out.push(self.state.code());
        match self.is_native {
            None => {
                write_u32_le(0, &mut out);
                write_u64_le(0, &mut out);
            },
            Some(reserve) => {
                write_u32_le(1, &mut out);
                write_u64_le(reserve, &mut out);
            },
        }
        write_u64_le(self.delegated_amount, &mut out);
        self.close_authority.write_tagged(&mut out);
        assert(out@ =~= self.layout_bytes());
        out
    }
}

/// Where each field stands in the encoding of the fixed token-account fields.
proof fn lemma_account_layout_slices(a: TokenAccountBase, tail: Seq<u8>)
    ensures
        a.layout_bytes().len() == 165,
        ({
            let s = a.layout_bytes() + tail;
            &&& s.subrange(0, 32) == a.mint@
            &&& s.subrange(32, 64) == a.owner@
            &&& s.subrange(64, 72) == u64_bytes(a.amount as int)
            &&& s.subrange(72, 108) == a.delegate.tagged_bytes()
            &&& s[108] == a.state.spec_code()
            &&& s.subrange(109, 113) == tagged_u64_bytes(a.is_native).subrange(0, 4)
            &&& s.subrange(113, 121) == tagged_u64_bytes(a.is_native).subrange(4, 12)
            &&& s.subrange(121, 129) == u64_bytes(a.delegated_amount as int)
            &&& s.subrange(129, 165) == a.close_authority.tagged_bytes()
        }),
{
    let s = a.layout_bytes() + tail;
    assert(a.layout_bytes().len() == 165);
    assert(s.subrange(0, 32) =~= a.mint@);
    assert(s.subrange(32, 64) =~= a.owner@);
    assert(s.subrange(64, 72) =~= u64_bytes(a.amount as int));
    assert(s.subrange(72, 108) =~= a.delegate.tagged_bytes());
    assert(s[108] == a.state.spec_code());
    assert(s.subrange(109, 113) =~= tagged_u64_bytes(a.is_native).subrange(0, 4));
    assert(s.subrange(113, 121) =~= tagged_u64_bytes(a.is_native).subrange(4, 12));
    assert(s.subrange(121, 129) =~= u64_bytes(a.delegated_amount as int));
    assert(s.subrange(129, 165) =~= a.close_authority.tagged_bytes());
}

/// A tagged 64-bit field is read back from its twelve bytes, wherever they
/// stand.
proof fn lemma_tagged_u64_roundtrip(value: Option<u64>, s: Seq<u8>, at: int)
    requires
        0 <= at,
        at + 12 <= s.len(),
        s.subrange(at, at + 4) == tagged_u64_bytes(value).subrange(0, 4),
        s.subrange(at + 4, at + 12) == tagged_u64_bytes(value).subrange(4, 12),
    ensures
        tag_in_domain(s, at),
        tagged_u64_at(s, at) == value,
{
    let native = tagged_u64_bytes(value);
    match value {
        None => {
            assert(native.subrange(0, 4) =~= u32_bytes(0));
            lemma_u32_roundtrip(0, s, at);
        },
        Some(v) => {
            assert(native.subrange(0, 4) =~= u32_bytes(1));
            assert(native.subrange(4, 12) =~= u64_bytes(v as int));
            lemma_u32_roundtrip(1, s, at);
            lemma_u64_roundtrip(v as int, s, at + 4);
        },
    }
}

/// Encoding the fixed token-account fields and decoding the result gives the
/// fields back, whatever bytes follow the encoding.
pub proof fn lemma_account_base_roundtrip(a: TokenAccountBase, tail: Seq<u8>)
    ensures
        a.layout_bytes().len() == 165,
        account_base_of(a.layout_bytes() + tail) == Ok::<TokenAccountBase, DecodeError>(a),
{
    let s = a.layout_bytes() + tail;
    lemma_account_layout_slices(a, tail);
    lemma_address_at_own_bytes(a.mint, s, 0);
    lemma_address_at_own_bytes(a.owner, s, 32);
    lemma_u64_roundtrip(a.amount as int, s, 64);
    lemma_tagged_roundtrip(a.delegate, s, 72);
    lemma_tagged_u64_roundtrip(a.is_native, s, 109);
    lemma_u64_roundtrip(a.delegated_amount as int, s, 121);
    lemma_tagged_roundtrip(a.close_authority, s, 129);
}

/// A token account that is encoded into its fixed layout and decoded again
/// is the same token account, under either program. The fixed layout has no
/// room for extension records, so this is stated of accounts that carry
/// none.
pub proof fn lemma_account_state_roundtrip(program: TokenProgram, state: TokenAccountStateModel)
    requires
        state.extensions.len() == 0,
    ensures
        state.base.layout_bytes().len() == 165,
        account_state_of(program, state.base.layout_bytes()) == Ok::<
            TokenAccountStateModel,
            DecodeError,
        >(state),
{
    lemma_account_base_roundtrip(state.base, Seq::empty());
    assert(state.base.layout_bytes() + Seq::<u8>::empty() =~= state.base.layout_bytes());
    assert(state.extensions =~= Seq::<ExtensionModel>::empty());
}

/// Decoding the same account twice gives the same token account: the same
/// fixed fields, and the same extension records in the same order.
pub proof fn lemma_account_decoding_repeats(
    owner: Address,
    data: Seq<u8>,
    first: Result<TokenAccountState, DecodeError>,
    second: Result<TokenAccountState, DecodeError>,
)
    requires
        account_outcome_view(first) == token_account_of(owner, data),
        account_outcome_view(second) == token_account_of(owner, data),
    ensures
        account_outcome_view(first) == account_outcome_view(second),
        first is Ok == second is Ok,
        first is Ok && second is Ok ==> first->Ok_0@.extensions == second->Ok_0@.extensions,
{
}

/// A token account as decoded from its account data: the fixed fields, and
/// the extension records in the order of the buffer.
#[derive(Clone, Debug, PartialEq, Eq)]
pub struct TokenAccountState {
    pub base: TokenAccountBase,
    pub extensions: Vec<ExtensionRecord>,
}

/// What a decoded token account holds.
pub struct TokenAccountStateModel {
    pub base: TokenAccountBase,
    pub extensions: Seq<ExtensionModel>,
}

impl View for TokenAccountState {
    type V = TokenAccountStateModel;

    open spec fn view(&self) -> TokenAccountStateModel {
        TokenAccountStateModel { base: self.base, extensions: models(self.extensions@) }
    }
}

/// What the data of a token account holds under the given program. The fixed
/// fields are decoded first. Under the legacy program nothing else is looked
/// at; under the extensible program the extension records follow.
pub open spec fn account_state_of(program: TokenProgram, s: Seq<u8>) -> Result<
    TokenAccountStateModel,
    DecodeError,
> {
    match account_base_of(s) {
        Err(error) => Err(error),
        Ok(base) => match program {
            TokenProgram::LegacyToken => Ok(
                TokenAccountStateModel { base, extensions: Seq::empty() },
            ),
            TokenProgram::Token2022 => match extensions_after(ExtensionHost::Account, s, 165) {
                Err(error) => Err(error),
                Ok(extensions) => Ok(TokenAccountStateModel { base, extensions }),
            },
        },
    }
}

/// What the data of a token account holds, the layout chosen by the owner of
/// the account. An owner that is neither token program is refused before any
/// byte is read.
pub open spec fn token_account_of(owner: Address, s: Seq<u8>) -> Result<
    TokenAccountStateModel,
    DecodeError,
> {
    match resolved(owner) {
        Err(error) => Err(error),
        Ok(program) => account_state_of(program, s),
    }
}

/// The outcome of decoding a token account, with the record replaced by what
/// it holds.
pub open spec fn account_outcome_view(r: Result<TokenAccountState, DecodeError>) -> Result<
    TokenAccountStateModel,
    DecodeError,
> {
    match r {
        Ok(state) => Ok(state@),
        Err(error) => Err(error),
    }
}

impl TokenAccountState {
    pub fn mint(&self) -> (mint: Address)
        ensures
            mint == self.base.mint,
    {
        self.base.mint
    }

    pub fn owner(&self) -> (owner: Address)
        ensures
            owner == self.base.owner,
    {
        self.base.owner
    }

    pub fn amount(&self) -> (amount: u64)
        ensures
            amount == self.base.amount,
    {
        self.base.amount
    }

    pub fn delegate(&self) -> (delegate: OptionalAddress)
        ensures
            delegate == self.base.delegate,
    {
        self.base.delegate
    }

    pub fn state(&self) -> (state: AccountState)
        ensures
            state == self.base.state,
    {
        self.base.state
    }

    pub fn is_native(&self) -> (reserve: Option<u64>)
        ensures
            reserve == self.base.is_native,
    {
        self.base.is_native
    }

    pub fn delegated_amount(&self) -> (amount: u64)
        ensures
            amount == self.base.delegated_amount,
    {
        self.base.delegated_amount
    }

    pub fn close_authority(&self) -> (authority: OptionalAddress)
        ensures
            authority == self.base.close_authority,
    {
        self.base.close_authority
    }

    /// Decodes the data of a token account under the given program.
    pub fn decode(program: TokenProgram, data: &[u8]) -> (r: Result<
        TokenAccountState,
        DecodeError,
    >)
        ensures
            account_outcome_view(r) == account_state_of(program, data@),
    {
        let base = match decode_account(data) {
            Ok(base) => base,
            Err(error) => {
                return Err(error);
            },
        };
        let none: Vec<ExtensionRecord> = Vec::new();
        assert(models(none@) =~= Seq::<ExtensionModel>::empty());
        let extensions = match program {
            TokenProgram::LegacyToken => none,
            TokenProgram::Token2022 => match decode_extensions(
                ExtensionHost::Account,
                data,
                ACCOUNT_LEN,
            ) {
                Ok(extensions) => extensions,
                Err(error) => {
                    return Err(error);
                },
            },
        };
        Ok(TokenAccountState { base, extensions })
    }

    /// Decodes the data of a token account, the layout chosen by the owner of
    /// the account.
    pub fn from_account(owner: &Address, data: &[u8]) -> (r: Result<
        TokenAccountState,
        DecodeError,
    >)
        ensures
            account_outcome_view(r) == token_account_of(*owner, data@),
    {
        match TokenProgram::resolve(owner) {
            Ok(program) => TokenAccountState::decode(program, data),
            Err(error) => Err(error),
        }
    }
}

} // verus!
