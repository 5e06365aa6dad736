//! The extension records of a whole account: the marker byte after the fixed
//! fields, and the records that follow it.

use crate::error::DecodeError;
use crate::extension::record::extension_of;
use crate::extension::record::known;
use crate::extension::record::lemma_malformed_field_within;
use crate::extension::record::ExtensionHost;
use crate::extension::record::ExtensionModel;
use crate::extension::record::ExtensionRecord;
use crate::extension::stream::records_from;
use crate::extension::stream::step_at;
use crate::extension::stream::ExtensionCursor;
use crate::extension::stream::Step;
use vstd::prelude::*;

verus! {

/// What a list of extension records holds.
pub open spec fn models(records: Seq<ExtensionRecord>) -> Seq<ExtensionModel> {
    Seq::new(records.len(), |i: int| records[i]@)
}

/// The outcome of decoding a list, with the records replaced by what they
/// hold.
pub open spec fn list_view(r: Result<Vec<ExtensionRecord>, DecodeError>) -> Result<
    Seq<ExtensionModel>,
    DecodeError,
> {
    match r {
        Ok(records) => Ok(models(records@)),
        Err(error) => Err(error),
    }
}

/// `front`, followed by what `rest` holds; the error of `rest` where it is
/// one.
pub open spec fn join(front: Seq<ExtensionModel>, rest: Result<Seq<ExtensionModel>, DecodeError>)
    -> Result<Seq<ExtensionModel>, DecodeError> {
    match rest {
        Ok(records) => Ok(front + records),
        Err(error) => Err(error),
    }
}

/// The decoded records of `s` from position `at` on, in the order in which
/// they stand in the buffer, where `index` records came before. Each record
/// is decoded before the next header is read, so the first record that is
/// truncated or malformed decides the error. The offset of a malformed field
/// counts from the start of `s`.
pub open spec fn extensions_from(host: ExtensionHost, s: Seq<u8>, at: int, index: int) -> Result<
    Seq<ExtensionModel>,
    DecodeError,
>
    decreases s.len() - at,
{
    match step_at(s, at, index) {
        Step::End => Ok(Seq::empty()),
        Step::Truncated { error } => Err(error),
        Step::Record { record, next } => match extension_of(
            host,
            record.type_code,
            record.payload,
        ) {
            Err(error) => Err(error.shifted(at + 4)),
            Ok(extension) => join(seq![extension], extensions_from(host, s, next, index + 1)),
        },
    }
}

/// The extension records of an account whose fixed fields take `base_len`
/// bytes. A buffer that ends with the fixed fields has none. Otherwise the
/// byte after them says whether records follow: 0 for none, 1 for records up
/// to the end of the buffer; any other value is out of its domain.
pub open spec fn extensions_after(host: ExtensionHost, s: Seq<u8>, base_len: int) -> Result<
    Seq<ExtensionModel>,
    DecodeError,
> {
    if s.len() <= base_len {
        Ok(Seq::empty())
    } else if s[base_len] == 0 {
        Ok(Seq::empty())
    } else if s[base_len] == 1 {
        extensions_from(host, s, base_len + 1, 0)
    } else {
        Err(DecodeError::MalformedField { offset: base_len as usize })
    }
}

/// A record with an unknown type code does not stop the decoding of an
/// account: it is kept, and the records after it are decoded as if it had
/// been a known one.
pub proof fn lemma_unknown_record_passes(host: ExtensionHost, s: Seq<u8>, at: int, index: int)
    requires
        step_at(s, at, index) is Record,
        !known(host, step_at(s, at, index)->record.type_code),
    ensures
        ({
            let record = step_at(s, at, index)->record;
            let next = step_at(s, at, index)->next;
            extensions_from(host, s, at, index) == join(
                seq![
                    ExtensionModel::Unknown {
                        type_code: record.type_code,
                        payload: record.payload,
                    },
                ],
                extensions_from(host, s, next, index + 1),
            )
        }),
{
}

/// The decoded list follows the enumeration: where a region decodes, it
/// also enumerates, into as many records, and entry `i` of the decoded list
/// is what record `i` of the enumeration decodes to.
pub proof fn lemma_extensions_follow_records(host: ExtensionHost, s: Seq<u8>, at: int, index: int)
    requires
        extensions_from(host, s, at, index) is Ok,
    ensures
        records_from(s, at, index) is Ok,
        ({
            let extensions = extensions_from(host, s, at, index)->Ok_0;
            let records = records_from(s, at, index)->Ok_0;
            &&& extensions.len() == records.len()
            &&& forall|i: int|
                0 <= i < records.len() ==> extension_of(
                    host,
                    (#[trigger] records[i]).type_code,
                    records[i].payload,
                ) == Ok::<ExtensionModel, DecodeError>(extensions[i])
        }),
    decreases s.len() - at,
{
    match step_at(s, at, index) {
        Step::Record { record, next } => {
            lemma_extensions_follow_records(host, s, next, index + 1);
            let extensions = extensions_from(host, s, at, index)->Ok_0;
            let records = records_from(s, at, index)->Ok_0;
            let later = extensions_from(host, s, next, index + 1)->Ok_0;
            let rest = records_from(s, next, index + 1)->Ok_0;
            let head = extension_of(host, record.type_code, record.payload)->Ok_0;
            assert(extensions == seq![head] + later);
            assert(records == seq![record] + rest);
            assert forall|i: int| 0 <= i < records.len() implies extension_of(
                host,
                (#[trigger] records[i]).type_code,
                records[i].payload,
            ) == Ok::<ExtensionModel, DecodeError>(extensions[i]) by {
                if i > 0 {
                    assert(records[i] == rest[i - 1]);
                    assert(extensions[i] == later[i - 1]);
                }
            }
        },
        _ => {},
    }
}

/// Decodes the records that the rest of a pass yields.
pub fn decode_pending<'a>(host: ExtensionHost, cursor: ExtensionCursor<'a>) -> (r: Result<
    Vec<ExtensionRecord>,
    DecodeError,
>)
    ensures
        list_view(r) == extensions_from(host, cursor.buffer(), cursor.offset(), cursor.count()),
{
    let ghost whole = extensions_from(host, cursor.buffer(), cursor.offset(), cursor.count());
    let ghost s = cursor.buffer();
    let mut pass = cursor;
    let mut decoded: Vec<ExtensionRecord> = Vec::new();
    assert(models(decoded@) + Seq::<ExtensionModel>::empty() =~= Seq::<ExtensionModel>::empty());
    loop
        invariant
            pass.buffer() == s,
            whole == extensions_from(host, cursor.buffer(), cursor.offset(), cursor.count()),
            whole == join(models(decoded@), extensions_from(host, s, pass.offset(), pass.count())),
        decreases s.len() - pass.offset(),
    {
        let ghost gathered = models(decoded@);
        let ghost index = pass.count();
        let at = pass.position();
        let ghost here = extensions_from(host, s, at as int, index);
        match pass.next_record() {
            None => {
                assert(here == Ok::<Seq<ExtensionModel>, DecodeError>(Seq::empty()));
                assert(gathered + Seq::<ExtensionModel>::empty() =~= gathered);
                return Ok(decoded);
            },
            Some(Err(error)) => {
                assert(here == Err::<Seq<ExtensionModel>, DecodeError>(error));
                return Err(error);
            },
            Some(Ok(found)) => {
                assert(step_at(s, at as int, index) is Record);
                assert(at + 4 + found.payload@.len() <= s.len());
                match ExtensionRecord::decode(host, found.type_code, found.payload) {
                    Err(error) => {
                        proof {
                            lemma_malformed_field_within(host, found.type_code, found.payload@);
                            assert(here == Err::<Seq<ExtensionModel>, DecodeError>(
                                error.shifted(at + 4),
                            ));
                        }
                        return Err(error.rebase(at + 4));
                    },
                    Ok(extension) => {
                        decoded.push(extension);
                        proof {
                            let rest = extensions_from(host, s, pass.offset(), pass.count());
                            assert(models(decoded@) =~= gathered + seq![extension@]);
                            assert(here == join(seq![extension@], rest));
                            match rest {
                                Ok(more) => {
                                    assert(gathered + (seq![extension@] + more) =~= (gathered
                                        + seq![extension@]) + more);
                                },
                                Err(_) => {},
                            }
                        }
                    },
                }
            },
        }
    }
}

/// Decodes the extension records of an account whose fixed fields take
/// `base_len` bytes.
pub fn decode_extensions(host: ExtensionHost, data: &[u8], base_len: usize) -> (r: Result<
    Vec<ExtensionRecord>,
    DecodeError,
>)
    ensures
        list_view(r) == extensions_after(host, data@, base_len as int),
{
    let none: Vec<ExtensionRecord> = Vec::new();
    assert(models(none@) =~= Seq::<ExtensionModel>::empty());
    if data.len() <= base_len {
        return Ok(none);
    }
    let marker = data[base_len];
    if marker == 0 {
        Ok(none)
    } else if marker == 1 {
        decode_pending(host, ExtensionCursor::starting_at(data, base_len + 1))
    } else {
        Err(DecodeError::MalformedField { offset: base_len })
    }
}

} // verus!
