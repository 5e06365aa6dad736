//! Account addresses and the two optional-address encodings.

use crate::bytes::u32_le;
use crate::bytes::read_u32_le;
use crate::error::DecodeError;
use spl_pod::solana_pubkey::ParsePubkeyError;
use spl_pod::solana_pubkey::Pubkey;
use std::str::FromStr;
use vstd::prelude::*;
use vstd::std_specs::cmp::PartialEqSpecImpl;

verus! {

/// A 32-byte account or program identifier.
#[derive(Clone, Copy, Debug, Eq, Hash)]
pub struct Address {
    pub bytes: [u8; 32],
}

impl View for Address {
    type V = Seq<u8>;

    open spec fn view(&self) -> Seq<u8> {
        self.bytes@
    }
}

impl PartialEq for Address {
    fn eq(&self, other: &Address) -> (same: bool) {
        let mut k: usize = 0;
        while k < 32
            invariant
                k <= 32,
                forall|j: int| 0 <= j < k ==> self.bytes@[j] == other.bytes@[j],
            decreases 32 - k,
        {
            if self.bytes[k] != other.bytes[k] {
                return false;
            }
            k += 1;
        }
        assert(self.bytes =~= other.bytes);
        true
    }
}

impl PartialEqSpecImpl for Address {
    open spec fn obeys_eq_spec() -> bool {
        true
    }

    open spec fn eq_spec(&self, other: &Address) -> bool {
        *self == *other
    }
}

/// The address held in the 32 bytes of `s` that start at `at`.
pub open spec fn address_at(s: Seq<u8>, at: int) -> Address {
    Address {
        bytes: [
            s[at], s[at + 1], s[at + 2], s[at + 3], s[at + 4], s[at + 5], s[at + 6], s[at + 7],
            s[at + 8], s[at + 9], s[at + 10], s[at + 11], s[at + 12], s[at + 13], s[at + 14],
            s[at + 15], s[at + 16], s[at + 17], s[at + 18], s[at + 19], s[at + 20], s[at + 21],
            s[at + 22], s[at + 23], s[at + 24], s[at + 25], s[at + 26], s[at + 27], s[at + 28],
            s[at + 29], s[at + 30], s[at + 31],
        ],
    }
}

/// Whether the 32 bytes of `s` that start at `at` are all zero.
pub open spec fn zero_slot(s: Seq<u8>, at: int) -> bool {
    forall|j: int| at <= j < at + 32 ==> s[j] == 0
}

/// Two addresses are the same exactly when they hold the same bytes.
pub proof fn lemma_address_by_bytes(a: Address, b: Address)
    ensures
        (a == b) == (a@ == b@),
{
    if a@ == b@ {
        assert(a.bytes =~= b.bytes);
    }
}

/// An address slot reads back as exactly the bytes it was taken from.
pub proof fn lemma_address_at_view(s: Seq<u8>, at: int)
    requires
        0 <= at,
        at + 32 <= s.len(),
    ensures
        address_at(s, at)@ == s.subrange(at, at + 32),
{
    assert(address_at(s, at)@ =~= s.subrange(at, at + 32));
}

/// Reading an address out of its own bytes gives the address back, wherever
/// those bytes stand in a buffer.
pub proof fn lemma_address_at_own_bytes(a: Address, s: Seq<u8>, at: int)
    requires
        0 <= at,
        at + 32 <= s.len(),
        s.subrange(at, at + 32) == a@,
    ensures
        address_at(s, at) == a,
{
    assert forall|k: int| 0 <= k < 32 implies address_at(s, at).bytes[k] == a.bytes[k] by {
        assert(s.subrange(at, at + 32)[k] == s[at + k]);
    }
    assert(address_at(s, at).bytes =~= a.bytes);
}

/// Why a text is not the base58 form of an address.
#[derive(Clone, Copy, Debug, PartialEq, Eq, Structural)]
pub enum AddressParseError {
    /// The text does not stand for exactly 32 bytes.
    WrongSize,
    /// The text holds a character outside the base58 alphabet.
    Invalid,
}

/// What `Pubkey::from_str` makes of a text: the address whose base58 form
/// the text is, or the reason why it is none.
pub uninterp spec fn base58_address(text: Seq<char>) -> Result<Address, AddressParseError>;

/// The base58 text that `Pubkey` shows for the address with the given bytes.
pub uninterp spec fn base58_text(bytes: Seq<u8>) -> Seq<char>;

/// Formats a `Pubkey` of `solana_pubkey` made of the 32 bytes, which writes
/// them in base58. Nothing is proved of the encoding; the contract only names
/// its result, which depends on the bytes alone.
#[verifier::external_body]
fn pubkey_to_string(address: &Address) -> (text: String)
    ensures
        text@ == base58_text(address@),
{
    Pubkey::new_from_array(address.bytes).to_string()
}

/// Calls `Pubkey::from_str` of `solana_pubkey`, which decodes base58 text
/// into 32 bytes. Nothing is proved of the decoding; the contract only names
/// its result, which depends on the text alone.
#[verifier::external_body]
fn pubkey_from_str(text: &str) -> (r: Result<Address, AddressParseError>)
    ensures
        r == base58_address(text@),
{
    match Pubkey::from_str(text) {
        Ok(key) => Ok(Address { bytes: key.to_bytes() }),
        Err(ParsePubkeyError::WrongSize) => Err(AddressParseError::WrongSize),
        Err(ParsePubkeyError::Invalid) => Err(AddressParseError::Invalid),
    }
}

impl Address {
    /// Reads an address from its base58 text form.
    pub fn parse(text: &str) -> (r: Result<Address, AddressParseError>)
        ensures
            r == base58_address(text@),
    {
        pubkey_from_str(text)
    }

    /// The base58 text form of the address.
    pub fn to_base58(&self) -> (text: String)
        ensures
            text@ == base58_text(self@),
    {
        pubkey_to_string(self)
    }

    /// Copies the address that `data` holds at `at`.
    pub(crate) fn read(data: &[u8], at: usize) -> (a: Address)
        requires
            at + 32 <= data.len(),
        ensures
            a == address_at(data@, at as int),
    {
        let mut bytes = [0u8; 32];
        let mut k: usize = 0;
        while k < 32
            invariant
                k <= 32,
                at + 32 <= data.len(),
                forall|j: int| 0 <= j < k ==> bytes@[j] == data@[at + j],
            decreases 32 - k,
        {
            bytes[k] = data[at + k];
            k += 1;
        }
        assert(bytes =~= address_at(data@, at as int).bytes);
        Address { bytes }
    }

    /// Whether every byte of the address is zero.
    pub fn is_zero(&self) -> (zero: bool)
        ensures
            zero == zero_slot(self@, 0),
    {
        let mut k: usize = 0;
        while k < 32
            invariant
                k <= 32,
                forall|j: int| 0 <= j < k ==> self.bytes@[j] == 0,
            decreases 32 - k,
        {
            if self.bytes[k] != 0 {
                return false;
            }
            k += 1;
        }
        true
    }

    /// Appends the 32 bytes of the address to `out`.
    pub fn write(&self, out: &mut Vec<u8>)
        ensures
            final(out)@ == old(out)@ + self@,
    {
        let mut k: usize = 0;
        while k < 32
            invariant
                k <= 32,
                out@ == old(out)@ + self@.subrange(0, k as int),
            decreases 32 - k,
        {
            out.push(self.bytes[k]);
            k += 1;
        }
        assert(self@.subrange(0, 32) =~= self@);
    }
}

/// An address that may be missing.
#[derive(Clone, Copy, Debug, PartialEq, Eq)]
pub enum OptionalAddress {
    Absent,
    Present(Address),
}

/// Whether the four-byte tag at `at` is one of the two that the tagged
/// encoding allows.
pub open spec fn tag_in_domain(s: Seq<u8>, at: int) -> bool {
    u32_le(s, at) == 0 || u32_le(s, at) == 1
}

/// What the tagged encoding at `at` holds: tag 0 is an absent address whatever
/// the slot holds, tag 1 the address in the slot that follows the tag.
pub open spec fn tagged_address_at(s: Seq<u8>, at: int) -> OptionalAddress {
    if u32_le(s, at) == 1 {
        OptionalAddress::Present(address_at(s, at + 4))
    } else {
        OptionalAddress::Absent
    }
}

/// What a bare 32-byte slot holds where the all-zero address stands for none.
pub open spec fn nonzero_address_at(s: Seq<u8>, at: int) -> OptionalAddress {
    if zero_slot(s, at) {
        OptionalAddress::Absent
    } else {
        OptionalAddress::Present(address_at(s, at))
    }
}

/// The result of decoding a buffer as one tagged optional address.
pub open spec fn tagged_address_of(s: Seq<u8>) -> Result<OptionalAddress, DecodeError> {
    if s.len() < 36 {
        Err(DecodeError::TruncatedBuffer { required: 36, actual: s.len() as usize })
    } else if !tag_in_domain(s, 0) {
        Err(DecodeError::MalformedField { offset: 0 })
    } else {
        Ok(tagged_address_at(s, 0))
    }
}

impl OptionalAddress {
    /// The 36 bytes of the tagged encoding.
    pub open spec fn tagged_bytes(self) -> Seq<u8> {
        match self {
            OptionalAddress::Absent => Seq::new(36, |k: int| 0u8),
            OptionalAddress::Present(a) => seq![1u8, 0u8, 0u8, 0u8] + a@,
        }
    }

    /// Decodes the tagged optional address that starts at `at`.
    pub(crate) fn read_tagged(data: &[u8], at: usize) -> (r: Result<OptionalAddress, DecodeError>)
        requires
            at + 36 <= data.len(),
        ensures
            tag_in_domain(data@, at as int) ==> r == Ok::<OptionalAddress, DecodeError>(
                tagged_address_at(data@, at as int),
            ),
            !tag_in_domain(data@, at as int) ==> r == Err::<OptionalAddress, DecodeError>(
                DecodeError::MalformedField { offset: at },
            ),
    {
        let tag: u32 = read_u32_le(data, at);
        if tag == 0 {
            Ok(OptionalAddress::Absent)
        } else if tag == 1 {
            Ok(OptionalAddress::Present(Address::read(data, at + 4)))
        } else {
            Err(DecodeError::MalformedField { offset: at })
        }
    }

    /// Decodes the bare 32-byte slot that starts at `at`.
    pub(crate) fn read_nonzero(data: &[u8], at: usize) -> (r: OptionalAddress)
        requires
            at + 32 <= data.len(),
        ensures
            r == nonzero_address_at(data@, at as int),
    {
        let a = Address::read(data, at);
        if a.is_zero() {
            assert(zero_slot(data@, at as int)) by {
                assert forall|j: int| at <= j < at + 32 implies data@[j] == 0 by {
                    assert(a@[j - at] == 0);
                }
            }
            OptionalAddress::Absent
        } else {
            assert(!zero_slot(data@, at as int)) by {
                if zero_slot(data@, at as int) {
                    assert forall|j: int| 0 <= j < 32 implies a@[j] == 0 by {
                        assert(data@[at + j] == 0);
                    }
                }
            }
            OptionalAddress::Present(a)
        }
    }

    /// Decodes a buffer that starts with one tagged optional address. Bytes
    /// after the first 36 are not looked at.
    pub fn decode(field: &[u8]) -> (r: Result<OptionalAddress, DecodeError>)
        ensures
            r == tagged_address_of(field@),
            field@.len() >= 36 && u32_le(field@, 0) == 0 ==> r == Ok::<
                OptionalAddress,
                DecodeError,
            >(OptionalAddress::Absent),
            field@.len() >= 36 && u32_le(field@, 0) == 1 ==> {
                &&& r matches Ok(OptionalAddress::Present(address))
                &&& address == address_at(field@, 4)
                &&& address@ == field@.subrange(4, 36)
            },
            field@.len() >= 36 && u32_le(field@, 0) > 1 ==> r == Err::<
                OptionalAddress,
                DecodeError,
            >(DecodeError::MalformedField { offset: 0 }),
    {
        if field.len() < 36 {
            return Err(DecodeError::TruncatedBuffer { required: 36, actual: field.len() });
        }
        proof {
            lemma_address_at_view(field@, 4);
        }
        OptionalAddress::read_tagged(field, 0)
    }

    /// Appends the tagged encoding to `out`: tag 1 and the address, or 36 zero
    /// bytes for an absent one.
    pub fn write_tagged(&self, out: &mut Vec<u8>)
        ensures
            final(out)@ == old(out)@ + self.tagged_bytes(),
    {
        match self {
            OptionalAddress::Absent => {
                let mut k: usize = 0;
                while k < 36
                    invariant
                        k <= 36,
                        out@ == old(out)@ + Seq::new(k as nat, |j: int| 0u8),
                    decreases 36 - k,
                {
                    out.push(0u8);
                    k += 1;
                    assert(out@ =~= old(out)@ + Seq::new(k as nat, |j: int| 0u8));
                }
            },
            OptionalAddress::Present(a) => {
                out.push(1u8);
                out.push(0u8);
                out.push(0u8);
                out.push(0u8);
                a.write(out);
                assert(out@ =~= old(out)@ + (seq![1u8, 0u8, 0u8, 0u8] + a@));
            },
        }
    }
}

/// A tagged optional address survives being written and read back, wherever
/// its 36 bytes stand in a buffer.
pub proof fn lemma_tagged_roundtrip(o: OptionalAddress, s: Seq<u8>, at: int)
    requires
        0 <= at,
        at + 36 <= s.len(),
        s.subrange(at, at + 36) == o.tagged_bytes(),
    ensures
        tag_in_domain(s, at),
        tagged_address_at(s, at) == o,
{
    let field = s.subrange(at, at + 36);
    assert(forall|k: int| 0 <= k < 36 ==> s[at + k] == #[trigger] field[k]);
    assert(s[at] == field[0] && s[at + 1] == field[1] && s[at + 2] == field[2] && s[at + 3]
        == field[3]);
    match o {
        OptionalAddress::Absent => {},
        OptionalAddress::Present(a) => {
            assert(s.subrange(at + 4, at + 36) =~= a@) by {
                assert forall|k: int| 0 <= k < 32 implies s.subrange(at + 4, at + 36)[k]
                    == a@[k] by {
                    assert(field[4 + k] == a@[k]);
                }
            }
            lemma_address_at_own_bytes(a, s, at + 4);
        },
    }
}

} // verus!
