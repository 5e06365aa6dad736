//! Typed extension records and the table that maps type codes to them.

use crate::address::address_at;
use crate::address::nonzero_address_at;
use crate::address::Address;
use crate::address::OptionalAddress;
use crate::bytes::read_i16_le;
use crate::bytes::read_i64_le;
use crate::bytes::read_u16_le;
use crate::bytes::read_u64_le;
use crate::bytes::signed16;
use crate::bytes::signed64;
use crate::bytes::u16_le;
use crate::bytes::u64_le;
use crate::error::DecodeError;
use crate::extension::metadata::embedded_metadata_of;
use crate::extension::metadata::EmbeddedMetadata;
use crate::extension::metadata::EmbeddedMetadataModel;
use crate::token_account::account::state_in_domain;
use crate::token_account::account::state_of;
use crate::token_account::account::AccountState;
use vstd::prelude::*;
use vstd::slice::slice_to_vec;

verus! {

/// The kind of account that carries an extension. Every type code belongs to
/// one kind; on the other kind it is not a known code.
#[derive(Clone, Copy, Debug, PartialEq, Eq, Structural)]
pub enum ExtensionHost {
    Mint,
    Account,
}

// The type codes of the table. Codes 1, 3, 6, 9, 10, 12, 14 and 18 to 26 stand
// on mints, the others on token accounts.
pub const TRANSFER_FEE_CONFIG: u16 = 1;

pub const TRANSFER_FEE_AMOUNT: u16 = 2;

pub const MINT_CLOSE_AUTHORITY: u16 = 3;

pub const DEFAULT_ACCOUNT_STATE: u16 = 6;

pub const IMMUTABLE_OWNER: u16 = 7;

pub const MEMO_TRANSFER: u16 = 8;

pub const NON_TRANSFERABLE: u16 = 9;

pub const INTEREST_BEARING_CONFIG: u16 = 10;

pub const CPI_GUARD: u16 = 11;

pub const PERMANENT_DELEGATE: u16 = 12;

pub const NON_TRANSFERABLE_ACCOUNT: u16 = 13;

pub const TRANSFER_HOOK: u16 = 14;

pub const TRANSFER_HOOK_ACCOUNT: u16 = 15;

pub const METADATA_POINTER: u16 = 18;

pub const TOKEN_METADATA: u16 = 19;

pub const GROUP_POINTER: u16 = 20;

pub const TOKEN_GROUP: u16 = 21;

pub const GROUP_MEMBER_POINTER: u16 = 22;

pub const TOKEN_GROUP_MEMBER: u16 = 23;

pub const PAUSABLE: u16 = 26;

pub const PAUSABLE_ACCOUNT: u16 = 27;

/// One fee schedule of a mint that charges for transfers.
#[derive(Clone, Copy, Debug, PartialEq, Eq)]
pub struct TransferFee {
    /// First epoch in which the schedule applies.
    pub epoch: u64,
    pub maximum_fee: u64,
    /// The fee in hundredths of a percent of the amount moved.
    pub transfer_fee_basis_points: u16,
}

/// The fee settings of a mint that charges for transfers.
#[derive(Clone, Copy, Debug, PartialEq, Eq)]
pub struct TransferFeeConfig {
    pub transfer_fee_config_authority: OptionalAddress,
    pub withdraw_withheld_authority: OptionalAddress,
    pub withheld_amount: u64,
    pub older_transfer_fee: TransferFee,
    pub newer_transfer_fee: TransferFee,
}

/// The interest settings of a mint whose balances are shown with interest.
#[derive(Clone, Copy, Debug, PartialEq, Eq)]
pub struct InterestBearingConfig {
    pub rate_authority: OptionalAddress,
    pub initialization_timestamp: i64,
    pub pre_update_average_rate: i16,
    pub last_update_timestamp: i64,
    pub current_rate: i16,
}

/// An authority and the address that it may point elsewhere.
#[derive(Clone, Copy, Debug, PartialEq, Eq)]
pub struct Pointer {
    pub authority: OptionalAddress,
    pub target: OptionalAddress,
}

/// The group that a mint defines.
#[derive(Clone, Copy, Debug, PartialEq, Eq)]
pub struct TokenGroup {
    pub update_authority: OptionalAddress,
    pub mint: Address,
    pub size: u64,
    pub max_size: u64,
}

/// The membership of a mint in a group.
#[derive(Clone, Copy, Debug, PartialEq, Eq)]
pub struct TokenGroupMember {
    pub mint: Address,
    pub group: Address,
    pub member_number: u64,
}

/// A decoded extension record.
#[derive(Clone, Debug, PartialEq, Eq)]
pub enum ExtensionRecord {
    TransferFeeConfig(TransferFeeConfig),
    TransferFeeAmount { withheld_amount: u64 },
    MintCloseAuthority { close_authority: OptionalAddress },
    DefaultAccountState { state: AccountState },
    ImmutableOwner,
    MemoTransfer { require_incoming_transfer_memos: bool },
    NonTransferable,
    InterestBearingConfig(InterestBearingConfig),
    CpiGuard { lock_cpi: bool },
    PermanentDelegate { delegate: OptionalAddress },
    NonTransferableAccount,
    TransferHook(Pointer),
    TransferHookAccount { transferring: bool },
    MetadataPointer(Pointer),
    TokenMetadata(EmbeddedMetadata),
    GroupPointer(Pointer),
    TokenGroup(TokenGroup),
    GroupMemberPointer(Pointer),
    TokenGroupMember(TokenGroupMember),
    Pausable { authority: OptionalAddress, paused: bool },
    PausableAccount,
    /// A record whose type code the table does not hold, kept as it was
    /// found.
    Unknown { type_code: u16, payload: Vec<u8> },
}

/// What an extension record holds, with byte sequences in place of vectors.
pub enum ExtensionModel {
    TransferFeeConfig(TransferFeeConfig),
    TransferFeeAmount { withheld_amount: u64 },
    MintCloseAuthority { close_authority: OptionalAddress },
    DefaultAccountState { state: AccountState },
    ImmutableOwner,
    MemoTransfer { require_incoming_transfer_memos: bool },
    NonTransferable,
    InterestBearingConfig(InterestBearingConfig),
    CpiGuard { lock_cpi: bool },
    PermanentDelegate { delegate: OptionalAddress },
    NonTransferableAccount,
    TransferHook(Pointer),
    TransferHookAccount { transferring: bool },
    MetadataPointer(Pointer),
    TokenMetadata(EmbeddedMetadataModel),
    GroupPointer(Pointer),
    TokenGroup(TokenGroup),
    GroupMemberPointer(Pointer),
    TokenGroupMember(TokenGroupMember),
    Pausable { authority: OptionalAddress, paused: bool },
    PausableAccount,
    Unknown { type_code: u16, payload: Seq<u8> },
}

impl View for ExtensionRecord {
    type V = ExtensionModel;

    open spec fn view(&self) -> ExtensionModel {
        match *self {
            ExtensionRecord::TransferFeeConfig(c) => ExtensionModel::TransferFeeConfig(c),
            ExtensionRecord::TransferFeeAmount { withheld_amount } => {
                ExtensionModel::TransferFeeAmount { withheld_amount }
            },
            ExtensionRecord::MintCloseAuthority { close_authority } => {
                ExtensionModel::MintCloseAuthority { close_authority }
            },
            ExtensionRecord::DefaultAccountState { state } => ExtensionModel::DefaultAccountState {
                state,
            },
            ExtensionRecord::ImmutableOwner => ExtensionModel::ImmutableOwner,
            ExtensionRecord::MemoTransfer { require_incoming_transfer_memos } => {
                ExtensionModel::MemoTransfer { require_incoming_transfer_memos }
            },
            ExtensionRecord::NonTransferable => ExtensionModel::NonTransferable,
            ExtensionRecord::InterestBearingConfig(c) => ExtensionModel::InterestBearingConfig(c),
            ExtensionRecord::CpiGuard { lock_cpi } => ExtensionModel::CpiGuard { lock_cpi },
            ExtensionRecord::PermanentDelegate { delegate } => ExtensionModel::PermanentDelegate {
                delegate,
            },
            ExtensionRecord::NonTransferableAccount => ExtensionModel::NonTransferableAccount,
            ExtensionRecord::TransferHook(p) => ExtensionModel::TransferHook(p),
            ExtensionRecord::TransferHookAccount { transferring } => {
                ExtensionModel::TransferHookAccount { transferring }
            },
            ExtensionRecord::MetadataPointer(p) => ExtensionModel::MetadataPointer(p),
            ExtensionRecord::TokenMetadata(m) => ExtensionModel::TokenMetadata(m@),
            ExtensionRecord::GroupPointer(p) => ExtensionModel::GroupPointer(p),
            ExtensionRecord::TokenGroup(g) => ExtensionModel::TokenGroup(g),
            ExtensionRecord::GroupMemberPointer(p) => ExtensionModel::GroupMemberPointer(p),
            ExtensionRecord::TokenGroupMember(m) => ExtensionModel::TokenGroupMember(m),
            ExtensionRecord::Pausable { authority, paused } => ExtensionModel::Pausable {
                authority,
                paused,
            },
            ExtensionRecord::PausableAccount => ExtensionModel::PausableAccount,
            ExtensionRecord::Unknown { type_code, payload } => ExtensionModel::Unknown {
                type_code,
                payload: payload@,
            },
        }
    }
}

impl ExtensionModel {
    /// The type code under which the record stands in the stream.
    pub open spec fn type_code(self) -> u16 {
        match self {
            ExtensionModel::TransferFeeConfig(_) => TRANSFER_FEE_CONFIG,
            ExtensionModel::TransferFeeAmount { .. } => TRANSFER_FEE_AMOUNT,
            ExtensionModel::MintCloseAuthority { .. } => MINT_CLOSE_AUTHORITY,
            ExtensionModel::DefaultAccountState { .. } => DEFAULT_ACCOUNT_STATE,
            ExtensionModel::ImmutableOwner => IMMUTABLE_OWNER,
            ExtensionModel::MemoTransfer { .. } => MEMO_TRANSFER,
            ExtensionModel::NonTransferable => NON_TRANSFERABLE,
            ExtensionModel::InterestBearingConfig(_) => INTEREST_BEARING_CONFIG,
            ExtensionModel::CpiGuard { .. } => CPI_GUARD,
            ExtensionModel::PermanentDelegate { .. } => PERMANENT_DELEGATE,
            ExtensionModel::NonTransferableAccount => NON_TRANSFERABLE_ACCOUNT,
            ExtensionModel::TransferHook(_) => TRANSFER_HOOK,
            ExtensionModel::TransferHookAccount { .. } => TRANSFER_HOOK_ACCOUNT,
            ExtensionModel::MetadataPointer(_) => METADATA_POINTER,
            ExtensionModel::TokenMetadata(_) => TOKEN_METADATA,
            ExtensionModel::GroupPointer(_) => GROUP_POINTER,
            ExtensionModel::TokenGroup(_) => TOKEN_GROUP,
            ExtensionModel::GroupMemberPointer(_) => GROUP_MEMBER_POINTER,
            ExtensionModel::TokenGroupMember(_) => TOKEN_GROUP_MEMBER,
            ExtensionModel::Pausable { .. } => PAUSABLE,
            ExtensionModel::PausableAccount => PAUSABLE_ACCOUNT,
            ExtensionModel::Unknown { type_code, .. } => type_code,
        }
    }
}

/// The table of known type codes of fixed size: the payload size that each
/// such code of the given kind of account calls for.
pub open spec fn payload_len(host: ExtensionHost, type_code: u16) -> Option<int> {
    match host {
        ExtensionHost::Mint => {
            if type_code == TRANSFER_FEE_CONFIG {
                Some(108)
            } else if type_code == MINT_CLOSE_AUTHORITY {
                Some(32)
            } else if type_code == DEFAULT_ACCOUNT_STATE {
                Some(1)
            } else if type_code == NON_TRANSFERABLE {
                Some(0)
            } else if type_code == INTEREST_BEARING_CONFIG {
                Some(52)
            } else if type_code == PERMANENT_DELEGATE {
                Some(32)
            } else if type_code == TRANSFER_HOOK {
                Some(64)
            } else if type_code == METADATA_POINTER {
                Some(64)
            } else if type_code == GROUP_POINTER {
                Some(64)
            } else if type_code == TOKEN_GROUP {
                Some(80)
            } else if type_code == GROUP_MEMBER_POINTER {
                Some(64)
            } else if type_code == TOKEN_GROUP_MEMBER {
                Some(72)
            } else if type_code == PAUSABLE {
                Some(33)
            } else {
                None
            }
        },
        ExtensionHost::Account => {
            if type_code == TRANSFER_FEE_AMOUNT {
                Some(8)
            } else if type_code == IMMUTABLE_OWNER {
                Some(0)
            } else if type_code == MEMO_TRANSFER {
                Some(1)
            } else if type_code == CPI_GUARD {
                Some(1)
            } else if type_code == NON_TRANSFERABLE_ACCOUNT {
                Some(0)
            } else if type_code == TRANSFER_HOOK_ACCOUNT {
                Some(1)
            } else if type_code == PAUSABLE_ACCOUNT {
                Some(0)
            } else {
                None
            }
        },
    }
}

/// The fee schedule in the 18 bytes at `at`.
pub open spec fn transfer_fee_at(p: Seq<u8>, at: int) -> TransferFee {
    TransferFee {
        epoch: u64_le(p, at) as u64,
        maximum_fee: u64_le(p, at + 8) as u64,
        transfer_fee_basis_points: u16_le(p, at + 16) as u16,
    }
}

/// The two optional addresses in the 64 bytes at the start of `p`.
pub open spec fn pointer_of(p: Seq<u8>) -> Pointer {
    Pointer { authority: nonzero_address_at(p, 0), target: nonzero_address_at(p, 32) }
}

/// The fields that a payload of the right size holds under a known type
/// code. A byte outside its domain is reported at its offset in the payload.
pub open spec fn fields_of(type_code: u16, p: Seq<u8>) -> Result<ExtensionModel, DecodeError> {
    if type_code == TRANSFER_FEE_CONFIG {
        Ok(
            ExtensionModel::TransferFeeConfig(
                TransferFeeConfig {
                    transfer_fee_config_authority: nonzero_address_at(p, 0),
                    withdraw_withheld_authority: nonzero_address_at(p, 32),
                    withheld_amount: u64_le(p, 64) as u64,
                    older_transfer_fee: transfer_fee_at(p, 72),
                    newer_transfer_fee: transfer_fee_at(p, 90),
                },
            ),
        )
    } else if type_code == TRANSFER_FEE_AMOUNT {
        Ok(ExtensionModel::TransferFeeAmount { withheld_amount: u64_le(p, 0) as u64 })
    } else if type_code == MINT_CLOSE_AUTHORITY {
        Ok(ExtensionModel::MintCloseAuthority { close_authority: nonzero_address_at(p, 0) })
    } else if type_code == DEFAULT_ACCOUNT_STATE {
        if state_in_domain(p[0]) {
            Ok(ExtensionModel::DefaultAccountState { state: state_of(p[0]) })
        } else {
            Err(DecodeError::MalformedField { offset: 0 })
        }
    } else if type_code == IMMUTABLE_OWNER {
        Ok(ExtensionModel::ImmutableOwner)
    } else if type_code == MEMO_TRANSFER {
        Ok(ExtensionModel::MemoTransfer { require_incoming_transfer_memos: p[0] != 0 })
    } else if type_code == NON_TRANSFERABLE {
        Ok(ExtensionModel::NonTransferable)
    } else if type_code == INTEREST_BEARING_CONFIG {
        Ok(
            ExtensionModel::InterestBearingConfig(
                InterestBearingConfig {
                    rate_authority: nonzero_address_at(p, 0),
                    initialization_timestamp: signed64(u64_le(p, 32)) as i64,
                    pre_update_average_rate: signed16(u16_le(p, 40)) as i16,
                    last_update_timestamp: signed64(u64_le(p, 42)) as i64,
                    current_rate: signed16(u16_le(p, 50)) as i16,
                },
            ),
        )
    } else if type_code == CPI_GUARD {
        Ok(ExtensionModel::CpiGuard { lock_cpi: p[0] != 0 })
    } else if type_code == PERMANENT_DELEGATE {
        Ok(ExtensionModel::PermanentDelegate { delegate: nonzero_address_at(p, 0) })
    } else if type_code == NON_TRANSFERABLE_ACCOUNT {
        Ok(ExtensionModel::NonTransferableAccount)
    } else if type_code == TRANSFER_HOOK {
        Ok(ExtensionModel::TransferHook(pointer_of(p)))
    } else if type_code == TRANSFER_HOOK_ACCOUNT {
        Ok(ExtensionModel::TransferHookAccount { transferring: p[0] != 0 })
    } else if type_code == METADATA_POINTER {
        Ok(ExtensionModel::MetadataPointer(pointer_of(p)))
    } else if type_code == GROUP_POINTER {
        Ok(ExtensionModel::GroupPointer(pointer_of(p)))
    } else if type_code == TOKEN_GROUP {
        Ok(
            ExtensionModel::TokenGroup(
                TokenGroup {
                    update_authority: nonzero_address_at(p, 0),
                    mint: address_at(p, 32),
                    size: u64_le(p, 64) as u64,
                    max_size: u64_le(p, 72) as u64,
                },
            ),
        )
    } else if type_code == GROUP_MEMBER_POINTER {
        Ok(ExtensionModel::GroupMemberPointer(pointer_of(p)))
    } else if type_code == TOKEN_GROUP_MEMBER {
        Ok(
            ExtensionModel::TokenGroupMember(
                TokenGroupMember {
                    mint: address_at(p, 0),
                    group: address_at(p, 32),
                    member_number: u64_le(p, 64) as u64,
                },
            ),
        )
    } else if type_code == PAUSABLE {
        Ok(ExtensionModel::Pausable { authority: nonzero_address_at(p, 0), paused: p[32] != 0 })
    } else if type_code == PAUSABLE_ACCOUNT {
        Ok(ExtensionModel::PausableAccount)
    } else {
        Ok(ExtensionModel::Unknown { type_code, payload: p })
    }
}

/// Whether the payload of `type_code` on `host` has no fixed size: only the
/// embedded metadata of a mint has none.
pub open spec fn variable_len(host: ExtensionHost, type_code: u16) -> bool {
    host == ExtensionHost::Mint && type_code == TOKEN_METADATA
}

/// Whether `type_code` is a known code on the given kind of account. A code
/// that is known on one kind is unknown on the other.
pub open spec fn known(host: ExtensionHost, type_code: u16) -> bool {
    payload_len(host, type_code) is Some || variable_len(host, type_code)
}

/// What a record decodes to on the given kind of account. An unknown code
/// gives an `Unknown` record with the payload untouched. A known code with a
/// payload of another size than the table's, or of another shape than a
/// record of variable size has, is an error, and nothing of such a payload
/// is decoded.
pub open spec fn extension_of(host: ExtensionHost, type_code: u16, payload: Seq<u8>) -> Result<
    ExtensionModel,
    DecodeError,
> {
    match payload_len(host, type_code) {
        Some(len) => if payload.len() != len {
            Err(DecodeError::MalformedExtension { type_code })
        } else {
            fields_of(type_code, payload)
        },
        None => if variable_len(host, type_code) {
            match embedded_metadata_of(payload) {
                Some(metadata) => Ok(ExtensionModel::TokenMetadata(metadata)),
                None => Err(DecodeError::MalformedExtension { type_code }),
            }
        } else {
            Ok(ExtensionModel::Unknown { type_code, payload })
        },
    }
}

/// A type code that the table does not hold is no error: the record is kept
/// as `Unknown`, with its code and its payload as they were found.
pub proof fn lemma_unknown_is_kept(host: ExtensionHost, type_code: u16, payload: Seq<u8>)
    requires
        !known(host, type_code),
    ensures
        extension_of(host, type_code, payload) == Ok::<ExtensionModel, DecodeError>(
            ExtensionModel::Unknown { type_code, payload },
        ),
{
}

/// The code 0xFFFF is unknown on both kinds of account.
pub proof fn lemma_highest_code_is_unknown(host: ExtensionHost)
    ensures
        !known(host, 0xFFFF),
{
}

/// A record is decoded into the variant of its own type code: what comes
/// back stands under the code that went in.
pub proof fn lemma_decoded_under_its_code(host: ExtensionHost, type_code: u16, payload: Seq<u8>)
    ensures
        extension_of(host, type_code, payload) matches Ok(extension) ==> extension.type_code()
            == type_code,
{
}

/// A field that is reported as out of its domain lies inside the payload.
pub proof fn lemma_malformed_field_within(host: ExtensionHost, type_code: u16, payload: Seq<u8>)
    ensures
        extension_of(host, type_code, payload) matches Err(DecodeError::MalformedField { offset })
            ==> offset < payload.len(),
{
}

/// The outcome of a decoding, with the record replaced by what it holds.
pub open spec fn outcome_view(r: Result<ExtensionRecord, DecodeError>) -> Result<
    ExtensionModel,
    DecodeError,
> {
    match r {
        Ok(record) => Ok(record@),
        Err(error) => Err(error),
    }
}

fn read_transfer_fee(p: &[u8], at: usize) -> (fee: TransferFee)
    requires
        at + 18 <= p.len(),
    ensures
        fee == transfer_fee_at(p@, at as int),
{
    TransferFee {
        epoch: read_u64_le(p, at),
        maximum_fee: read_u64_le(p, at + 8),
        transfer_fee_basis_points: read_u16_le(p, at + 16),
    }
}

fn read_pointer(p: &[u8]) -> (pointer: Pointer)
    requires
        p.len() == 64,
    ensures
        pointer == pointer_of(p@),
{
    Pointer {
        authority: OptionalAddress::read_nonzero(p, 0),
        target: OptionalAddress::read_nonzero(p, 32),
    }
}

impl ExtensionHost {
    /// The payload size that the table holds for `type_code` on this kind of
    /// account, or `None` for a code that the table does not hold.
    pub fn expected_len(self, type_code: u16) -> (len: Option<usize>)
        ensures
            len is Some == payload_len(self, type_code) is Some,
            len matches Some(n) ==> payload_len(self, type_code) == Some(n as int),
    {
        match self {
            ExtensionHost::Mint => {
                if type_code == TRANSFER_FEE_CONFIG {
                    Some(108)
                } else if type_code == MINT_CLOSE_AUTHORITY || type_code == PERMANENT_DELEGATE {
                    Some(32)
                } else if type_code == DEFAULT_ACCOUNT_STATE {
                    Some(1)
                } else if type_code == NON_TRANSFERABLE {
                    Some(0)
                } else if type_code == INTEREST_BEARING_CONFIG {
                    Some(52)
                } else if type_code == TRANSFER_HOOK || type_code == METADATA_POINTER
                    || type_code == GROUP_POINTER || type_code == GROUP_MEMBER_POINTER {
                    Some(64)
                } else if type_code == TOKEN_GROUP {
                    Some(80)
                } else if type_code == TOKEN_GROUP_MEMBER {
                    Some(72)
                } else if type_code == PAUSABLE {
                    Some(33)
                } else {
                    None
                }
            },
            ExtensionHost::Account => {
                if type_code == TRANSFER_FEE_AMOUNT {
                    Some(8)
                } else if type_code == IMMUTABLE_OWNER || type_code == NON_TRANSFERABLE_ACCOUNT
                    || type_code == PAUSABLE_ACCOUNT {
                    Some(0)
                } else if type_code == MEMO_TRANSFER || type_code == CPI_GUARD || type_code
                    == TRANSFER_HOOK_ACCOUNT {
                    Some(1)
                } else {
                    None
                }
            },
        }
    }
}

impl ExtensionHost {
    /// Whether the payload of `type_code` on this kind of account has no
    /// fixed size.
    pub fn is_variable(self, type_code: u16) -> (variable: bool)
        ensures
            variable == variable_len(self, type_code),
    {
        match self {
            ExtensionHost::Mint => type_code == TOKEN_METADATA,
            ExtensionHost::Account => false,
        }
    }

    /// Whether `type_code` is a known code on this kind of account.
    pub fn knows(self, type_code: u16) -> (k: bool)
        ensures
            k == known(self, type_code),
    {
        self.expected_len(type_code).is_some() || self.is_variable(type_code)
    }
}

impl ExtensionRecord {
    /// The type code under which the record stands in the stream.
    pub fn type_code(&self) -> (code: u16)
        ensures
            code == self@.type_code(),
    {
        match self {
            ExtensionRecord::TransferFeeConfig(_) => TRANSFER_FEE_CONFIG,
            ExtensionRecord::TransferFeeAmount { .. } => TRANSFER_FEE_AMOUNT,
            ExtensionRecord::MintCloseAuthority { .. } => MINT_CLOSE_AUTHORITY,
            ExtensionRecord::DefaultAccountState { .. } => DEFAULT_ACCOUNT_STATE,
            ExtensionRecord::ImmutableOwner => IMMUTABLE_OWNER,
            ExtensionRecord::MemoTransfer { .. } => MEMO_TRANSFER,
            ExtensionRecord::NonTransferable => NON_TRANSFERABLE,
            ExtensionRecord::InterestBearingConfig(_) => INTEREST_BEARING_CONFIG,
            ExtensionRecord::CpiGuard { .. } => CPI_GUARD,
            ExtensionRecord::PermanentDelegate { .. } => PERMANENT_DELEGATE,
            ExtensionRecord::NonTransferableAccount => NON_TRANSFERABLE_ACCOUNT,
            ExtensionRecord::TransferHook(_) => TRANSFER_HOOK,
            ExtensionRecord::TransferHookAccount { .. } => TRANSFER_HOOK_ACCOUNT,
            ExtensionRecord::MetadataPointer(_) => METADATA_POINTER,
            ExtensionRecord::TokenMetadata(_) => TOKEN_METADATA,
            ExtensionRecord::GroupPointer(_) => GROUP_POINTER,
            ExtensionRecord::TokenGroup(_) => TOKEN_GROUP,
            ExtensionRecord::GroupMemberPointer(_) => GROUP_MEMBER_POINTER,
            ExtensionRecord::TokenGroupMember(_) => TOKEN_GROUP_MEMBER,
            ExtensionRecord::Pausable { .. } => PAUSABLE,
            ExtensionRecord::PausableAccount => PAUSABLE_ACCOUNT,
            ExtensionRecord::Unknown { type_code, .. } => *type_code,
        }
    }

    /// Decodes the payload of a known type code whose size the table has
    /// confirmed.
    fn decode_fields(host: ExtensionHost, type_code: u16, p: &[u8]) -> (r: Result<
        ExtensionRecord,
        DecodeError,
    >)
        requires
            payload_len(host, type_code) == Some(p@.len() as int),
        ensures
            outcome_view(r) == fields_of(type_code, p@),
    {
            if type_code == TRANSFER_FEE_CONFIG {
            Ok(
                ExtensionRecord::TransferFeeConfig(
                    TransferFeeConfig {
                        transfer_fee_config_authority: OptionalAddress::read_nonzero(p, 0),
                        withdraw_withheld_authority: OptionalAddress::read_nonzero(p, 32),
                        withheld_amount: read_u64_le(p, 64),
                        older_transfer_fee: read_transfer_fee(p, 72),
                        newer_transfer_fee: read_transfer_fee(p, 90),
                    },
                ),
            )
        } else if type_code == TRANSFER_FEE_AMOUNT {
            Ok(ExtensionRecord::TransferFeeAmount { withheld_amount: read_u64_le(p, 0) })
        } else if type_code == MINT_CLOSE_AUTHORITY {
            Ok(
                ExtensionRecord::MintCloseAuthority {
                    close_authority: OptionalAddress::read_nonzero(p, 0),
                },
            )
        } else if type_code == DEFAULT_ACCOUNT_STATE {
            match AccountState::from_code(p[0]) {
                Some(state) => Ok(ExtensionRecord::DefaultAccountState { state }),
                None => Err(DecodeError::MalformedField { offset: 0 }),
            }
        } else if type_code == IMMUTABLE_OWNER {
            Ok(ExtensionRecord::ImmutableOwner)
        } else if type_code == MEMO_TRANSFER {
            Ok(ExtensionRecord::MemoTransfer { require_incoming_transfer_memos: p[0] != 0 })
        } else if type_code == NON_TRANSFERABLE {
            Ok(ExtensionRecord::NonTransferable)
        } else if type_code == INTEREST_BEARING_CONFIG {
            Ok(
                ExtensionRecord::InterestBearingConfig(
                    InterestBearingConfig {
                        rate_authority: OptionalAddress::read_nonzero(p, 0),
                        initialization_timestamp: read_i64_le(p, 32),
                        pre_update_average_rate: read_i16_le(p, 40),
                        last_update_timestamp: read_i64_le(p, 42),
                        current_rate: read_i16_le(p, 50),
                    },
                ),
            )
        } else if type_code == CPI_GUARD {
            Ok(ExtensionRecord::CpiGuard { lock_cpi: p[0] != 0 })
        } else if type_code == PERMANENT_DELEGATE {
            Ok(ExtensionRecord::PermanentDelegate { delegate: OptionalAddress::read_nonzero(p, 0) })
        } else if type_code == NON_TRANSFERABLE_ACCOUNT {
            Ok(ExtensionRecord::NonTransferableAccount)
        } else if type_code == TRANSFER_HOOK {
            Ok(ExtensionRecord::TransferHook(read_pointer(p)))
        } else if type_code == TRANSFER_HOOK_ACCOUNT {
            Ok(ExtensionRecord::TransferHookAccount { transferring: p[0] != 0 })
        } else if type_code == METADATA_POINTER {
            Ok(ExtensionRecord::MetadataPointer(read_pointer(p)))
        } else if type_code == GROUP_POINTER {
            Ok(ExtensionRecord::GroupPointer(read_pointer(p)))
        } else if type_code == TOKEN_GROUP {
            Ok(
                ExtensionRecord::TokenGroup(
                    TokenGroup {
                        update_authority: OptionalAddress::read_nonzero(p, 0),
                        mint: Address::read(p, 32),
                        size: read_u64_le(p, 64),
                        max_size: read_u64_le(p, 72),
                    },
                ),
            )
        } else if type_code == GROUP_MEMBER_POINTER {
            Ok(ExtensionRecord::GroupMemberPointer(read_pointer(p)))
        } else if type_code == TOKEN_GROUP_MEMBER {
            Ok(
                ExtensionRecord::TokenGroupMember(
                    TokenGroupMember {
                        mint: Address::read(p, 0),
                        group: Address::read(p, 32),
                        member_number: read_u64_le(p, 64),
                    },
                ),
            )
        } else if type_code == PAUSABLE {
            Ok(
                ExtensionRecord::Pausable {
                    authority: OptionalAddress::read_nonzero(p, 0),
                    paused: p[32] != 0,
                },
            )
        } else if type_code == PAUSABLE_ACCOUNT {
            Ok(ExtensionRecord::PausableAccount)
        } else {
            Ok(ExtensionRecord::Unknown { type_code, payload: slice_to_vec(p) })
        }
    }

    /// Decodes one record of the given kind of account. An unknown type code
    /// is no error: the record comes back as `Unknown`, with its payload.
    pub fn decode(host: ExtensionHost, type_code: u16, payload: &[u8]) -> (r: Result<
        ExtensionRecord,
        DecodeError,
    >)
        ensures
            outcome_view(r) == extension_of(host, type_code, payload@),
    {
        match host.expected_len(type_code) {
            None => {
                if host.is_variable(type_code) {
                    match EmbeddedMetadata::decode(payload) {
                        Some(metadata) => Ok(ExtensionRecord::TokenMetadata(metadata)),
                        None => Err(DecodeError::MalformedExtension { type_code }),
                    }
                } else {
                    Ok(ExtensionRecord::Unknown { type_code, payload: slice_to_vec(payload) })
                }
            },
            Some(len) => {
                if payload.len() != len {
                    Err(DecodeError::MalformedExtension { type_code })
                } else {
                    ExtensionRecord::decode_fields(host, type_code, payload)
                }
            },
        }
    }
}

} // verus!
