//! Why a buffer could not be decoded.

use crate::address::base58_text;
use crate::address::Address;
use crate::text::decimal;
use crate::text::decimal_text;
use vstd::prelude::*;
use vstd::string::StringExecFns;

verus! {

/// The ways in which decoding fails. None of them leaves a partial record.
#[derive(Clone, Copy, Debug, PartialEq, Eq)]
pub enum DecodeError {
    /// The owning program is neither of the two token programs.
    UnrecognizedOwner { owner: Address },
    /// The buffer ends before the fixed fields do.
    TruncatedBuffer { required: usize, actual: usize },
    /// A tag or enumeration at `offset` holds a value outside its domain.
    MalformedField { offset: usize },
    /// Extension record `index` declares more payload than the buffer holds.
    TruncatedExtension { index: usize, type_code: u16 },
    /// The payload of a known extension has the wrong size.
    MalformedExtension { type_code: u16 },
}

impl DecodeError {
    /// The line that is shown to the user.
    pub open spec fn spec_message(self) -> Seq<char> {
        match self {
            DecodeError::UnrecognizedOwner { owner } => "Invalid token program pubkey: "@
                + base58_text(owner@),
            DecodeError::TruncatedBuffer { required, actual } => "Truncated buffer: "@ + decimal(
                actual as nat,
            ) + " bytes where "@ + decimal(required as nat) + " are required"@,
            DecodeError::MalformedField { offset } => "Malformed field at offset "@ + decimal(
                offset as nat,
            ),
            DecodeError::TruncatedExtension { index, type_code } => "Truncated extension "@
                + decimal(index as nat) + " of type "@ + decimal(type_code as nat),
            DecodeError::MalformedExtension { type_code } => "Malformed extension of type "@
                + decimal(type_code as nat),
        }
    }

    /// The line that is shown to the user: the kind of the error, and the
    /// offset, index or type code that it is about.
    pub fn message(&self) -> (line: String)
        ensures
            line@ == self.spec_message(),
    {
        match self {
            DecodeError::UnrecognizedOwner { owner } => String::from_str(
                "Invalid token program pubkey: ",
            ).concat(owner.to_base58().as_str()),
            DecodeError::TruncatedBuffer { required, actual } => String::from_str(
                "Truncated buffer: ",
            ).concat(decimal_text(*actual as u64).as_str()).concat(" bytes where ").concat(
                decimal_text(*required as u64).as_str(),
            ).concat(" are required"),
            DecodeError::MalformedField { offset } => String::from_str(
                "Malformed field at offset ",
            ).concat(decimal_text(*offset as u64).as_str()),
            DecodeError::TruncatedExtension { index, type_code } => String::from_str(
                "Truncated extension ",
            ).concat(decimal_text(*index as u64).as_str()).concat(" of type ").concat(
                decimal_text(*type_code as u64).as_str(),
            ),
            DecodeError::MalformedExtension { type_code } => String::from_str(
                "Malformed extension of type ",
            ).concat(decimal_text(*type_code as u64).as_str()),
        }
    }

    /// The error with every field offset moved `by` bytes further into a buffer.
    pub open spec fn shifted(self, by: int) -> DecodeError {
        match self {
            DecodeError::MalformedField { offset } => DecodeError::MalformedField {
                offset: (offset + by) as usize,
            },
            other => other,
        }
    }

    /// Moves a field offset that was counted from the start of an inner slice
    /// so that it counts from the start of the enclosing buffer.
    pub(crate) fn rebase(self, by: usize) -> (moved: DecodeError)
        requires
            self matches DecodeError::MalformedField { offset } ==> offset + by <= usize::MAX,
        ensures
            moved == self.shifted(by as int),
    {
        match self {
            DecodeError::MalformedField { offset } => DecodeError::MalformedField {
                offset: offset + by,
            },
            other => other,
        }
    }
}

} // verus!
