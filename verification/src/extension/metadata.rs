//! The metadata that a mint may carry in its own account: an extension
//! record of variable size that holds texts.

use crate::address::address_at;
use crate::address::nonzero_address_at;
use crate::address::Address;
use crate::address::OptionalAddress;
use crate::bytes::read_u32_le;
use crate::bytes::u32_le;
use vstd::prelude::*;
use vstd::slice::slice_subrange;
use vstd::string::StringSliceAdditionalSpecFns;
use vstd::utf8::decode_utf8;
use vstd::utf8::encode_utf8_decode_utf8;
use vstd::utf8::valid_utf8;

verus! {

/// The metadata record of a mint: who may change it, the mint it speaks of,
/// three texts, and further pairs of key and value.
#[derive(Clone, Debug, PartialEq, Eq)]
pub struct EmbeddedMetadata {
    pub update_authority: OptionalAddress,
    pub mint: Address,
    pub name: String,
    pub symbol: String,
    pub uri: String,
    pub additional_metadata: Vec<(String, String)>,
}

/// What an embedded metadata record holds, with character sequences for its
/// texts.
pub struct EmbeddedMetadataModel {
    pub update_authority: OptionalAddress,
    pub mint: Address,
    pub name: Seq<char>,
    pub symbol: Seq<char>,
    pub uri: Seq<char>,
    pub additional_metadata: Seq<(Seq<char>, Seq<char>)>,
}

/// What a list of pairs of texts holds.
pub open spec fn pair_views(pairs: Seq<(String, String)>) -> Seq<(Seq<char>, Seq<char>)> {
    Seq::new(pairs.len(), |i: int| (pairs[i].0@, pairs[i].1@))
}

impl View for EmbeddedMetadata {
    type V = EmbeddedMetadataModel;

    open spec fn view(&self) -> EmbeddedMetadataModel {
        EmbeddedMetadataModel {
            update_authority: self.update_authority,
            mint: self.mint,
            name: self.name@,
            symbol: self.symbol@,
            uri: self.uri@,
            additional_metadata: pair_views(self.additional_metadata@),
        }
    }
}

/// Whether a text stands at `at`: a four-byte length, and that many bytes of
/// UTF-8 inside the payload.
pub open spec fn text_fits(p: Seq<u8>, at: int) -> bool {
    &&& 0 <= at
    &&& at + 4 + u32_le(p, at) <= p.len()
    &&& valid_utf8(p.subrange(at + 4, at + 4 + u32_le(p, at)))
}

/// The text that stands at `at`.
pub open spec fn text_at(p: Seq<u8>, at: int) -> Seq<char> {
    decode_utf8(p.subrange(at + 4, at + 4 + u32_le(p, at)))
}

/// The position just after the text that stands at `at`.
pub open spec fn text_end(p: Seq<u8>, at: int) -> int {
    at + 4 + u32_le(p, at)
}

/// `front`, followed by the pairs that `rest` holds, with the position at
/// which `rest` ends; nothing where `rest` is nothing.
pub open spec fn extend(
    front: Seq<(Seq<char>, Seq<char>)>,
    rest: Option<(Seq<(Seq<char>, Seq<char>)>, int)>,
) -> Option<(Seq<(Seq<char>, Seq<char>)>, int)> {
    match rest {
        Some((pairs, end)) => Some((front + pairs, end)),
        None => None,
    }
}

/// The `count` pairs of texts that stand one after the other from `at` on,
/// and the position just after them; nothing where one of the texts does
/// not fit.
pub open spec fn pairs_from(p: Seq<u8>, at: int, count: nat) -> Option<
    (Seq<(Seq<char>, Seq<char>)>, int),
>
    decreases count,
{
    if count == 0 {
        Some((Seq::empty(), at))
    } else if !text_fits(p, at) || !text_fits(p, text_end(p, at)) {
        None
    } else {
        extend(
            seq![(text_at(p, at), text_at(p, text_end(p, at)))],
            pairs_from(p, text_end(p, text_end(p, at)), (count - 1) as nat),
        )
    }
}

/// What a payload holds when read as an embedded metadata record: two
/// address slots, the name, the symbol and the URI, a four-byte count, and
/// that many pairs of texts, up to the last byte of the payload. Nothing
/// where the payload has another shape.
pub open spec fn embedded_metadata_of(p: Seq<u8>) -> Option<EmbeddedMetadataModel> {
    let symbol_at = text_end(p, 64);
    let uri_at = text_end(p, symbol_at);
    let count_at = text_end(p, uri_at);
    if p.len() < 64 || !text_fits(p, 64) || !text_fits(p, symbol_at) || !text_fits(p, uri_at)
        || count_at + 4 > p.len() {
        None
    } else {
        match pairs_from(p, count_at + 4, u32_le(p, count_at) as nat) {
            Some((pairs, end)) => if end == p.len() {
                Some(
                    EmbeddedMetadataModel {
                        update_authority: nonzero_address_at(p, 0),
                        mint: address_at(p, 32),
                        name: text_at(p, 64),
                        symbol: text_at(p, symbol_at),
                        uri: text_at(p, uri_at),
                        additional_metadata: pairs,
                    },
                )
            } else {
                None
            },
            None => None,
        }
    }
}

/// What an optional embedded metadata record holds.
pub open spec fn embedded_view(record: Option<EmbeddedMetadata>) -> Option<EmbeddedMetadataModel> {
    match record {
        Some(m) => Some(m@),
        None => None,
    }
}

/// Calls `core::str::from_utf8`, which checks that the bytes are UTF-8 and,
/// where they are, hands them back as a string slice. The contract claims
/// that the check agrees with `valid_utf8`, and that the slice holds the
/// bytes that went in.
#[verifier::external_body]
fn str_from_utf8<'a>(bytes: &'a [u8]) -> (r: Option<&'a str>)
    ensures
        r is Some == valid_utf8(bytes@),
        r matches Some(text) ==> text.spec_bytes() == bytes@,
{
    match core::str::from_utf8(bytes) {
        Ok(text) => Some(text),
        Err(_) => None,
    }
}

/// Reads the text that stands at `at`, and gives the position after it.
fn read_text(p: &[u8], at: usize) -> (r: Option<(String, usize)>)
    requires
        at <= p.len(),
    ensures
        r is Some == text_fits(p@, at as int),
        r matches Some((text, end)) ==> {
            &&& text@ == text_at(p@, at as int)
            &&& end == text_end(p@, at as int)
            &&& end <= p.len()
        },
{
    if p.len() - at < 4 {
        return None;
    }
    let len = read_u32_le(p, at) as usize;
    if p.len() - at - 4 < len {
        return None;
    }
    let start = at + 4;
    let bytes = slice_subrange(p, start, start + len);
    match str_from_utf8(bytes) {
        None => None,
        Some(text) => {
            proof {
                encode_utf8_decode_utf8(text@);
            }
            Some((text.to_owned(), start + len))
        },
    }
}

/// Reads `count` pairs of texts from `at` on, and gives the position after
/// them.
fn read_pairs(p: &[u8], at: usize, count: u32) -> (r: Option<(Vec<(String, String)>, usize)>)
    requires
        at <= p.len(),
    ensures
        match r {
            Some((pairs, end)) => pairs_from(p@, at as int, count as nat) == Some(
                (pair_views(pairs@), end as int),
            ) && end <= p.len(),
            None => pairs_from(p@, at as int, count as nat) is None,
        },
{
    let ghost whole = pairs_from(p@, at as int, count as nat);
    let mut pairs: Vec<(String, String)> = Vec::new();
    let mut here: usize = at;
    let mut left: u32 = count;
    assert(pair_views(pairs@) + Seq::<(Seq<char>, Seq<char>)>::empty() =~= Seq::<
        (Seq<char>, Seq<char>),
    >::empty());
    while left > 0
        invariant
            here <= p.len(),
            whole == pairs_from(p@, at as int, count as nat),
            whole == extend(pair_views(pairs@), pairs_from(p@, here as int, left as nat)),
        decreases left,
    {
        let ghost gathered = pair_views(pairs@);
        let (key, value_at) = match read_text(p, here) {
            Some(found) => found,
            None => {
                return None;
            },
        };
        let (value, next) = match read_text(p, value_at) {
            Some(found) => found,
            None => {
                return None;
            },
        };
        proof {
            let rest = pairs_from(p@, next as int, (left - 1) as nat);
            assert(pairs_from(p@, here as int, left as nat) == extend(seq![(key@, value@)], rest));
            match rest {
                Some((more, _)) => {
                    assert(gathered + (seq![(key@, value@)] + more) =~= (gathered + seq![
                        (key@, value@),
                    ]) + more);
                },
                None => {},
            }
        }
        pairs.push((key, value));
        assert(pair_views(pairs@) =~= gathered + seq![(key@, value@)]);
        here = next;
        left -= 1;
    }
    assert(pair_views(pairs@) + Seq::<(Seq<char>, Seq<char>)>::empty() =~= pair_views(pairs@));
    Some((pairs, here))
}

impl EmbeddedMetadata {
    /// Decodes a payload as an embedded metadata record. Nothing comes back
    /// where the payload has another shape: a text that runs past the end,
    /// bytes that are no UTF-8, or bytes left over after the last pair.
    pub fn decode(p: &[u8]) -> (r: Option<EmbeddedMetadata>)
        ensures
            embedded_view(r) == embedded_metadata_of(p@),
    {
        if p.len() < 64 {
            return None;
        }
        let update_authority = OptionalAddress::read_nonzero(p, 0);
        let mint = Address::read(p, 32);
        let (name, symbol_at) = match read_text(p, 64) {
            Some(found) => found,
            None => {
                return None;
            },
        };
        let (symbol, uri_at) = match read_text(p, symbol_at) {
            Some(found) => found,
            None => {
                return None;
            },
        };
        let (uri, count_at) = match read_text(p, uri_at) {
            Some(found) => found,
            None => {
                return None;
            },
        };
        if p.len() - count_at < 4 {
            return None;
        }
        let count = read_u32_le(p, count_at);
        match read_pairs(p, count_at + 4, count) {
            Some((additional_metadata, end)) => {
                if end == p.len() {
                    Some(
                        EmbeddedMetadata {
                            update_authority,
                            mint,
                            name,
                            symbol,
                            uri,
                            additional_metadata,
                        },
                    )
                } else {
                    None
                }
            },
            None => None,
        }
    }
}

} // verus!
