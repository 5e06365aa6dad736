//! The extension region as a stream of records, each a two-byte type code, a
//! two-byte payload length and the payload, with nothing between them.

use crate::bytes::lemma_u16_roundtrip;
use crate::bytes::read_u16_le;
use crate::bytes::u16_bytes;
use crate::bytes::u16_le;
use crate::bytes::write_u16_le;
use crate::error::DecodeError;
use vstd::prelude::*;
use vstd::slice::slice_subrange;

verus! {

/// Length of a record header: type code and payload length.
pub const HEADER_LEN: usize = 4;

/// A record as the stream holds it: its type code and its payload bytes.
pub struct RawRecord {
    pub type_code: u16,
    pub payload: Seq<u8>,
}

/// A record found in a buffer. The payload borrows from the buffer.
#[derive(Clone, Copy, Debug, PartialEq, Eq)]
pub struct RawExtension<'a> {
    pub type_code: u16,
    pub payload: &'a [u8],
}

impl<'a> View for RawExtension<'a> {
    type V = RawRecord;

    open spec fn view(&self) -> RawRecord {
        RawRecord { type_code: self.type_code, payload: self.payload@ }
    }
}

/// What stands at one position of the stream.
pub enum Step {
    /// Fewer than four bytes are left: the stream is over. Such bytes are
    /// padding, not an error.
    End,
    /// A whole record, and the position just after it.
    Record { record: RawRecord, next: int },
    /// A header whose declared payload runs past the end of the buffer.
    Truncated { error: DecodeError },
}

/// What stands at position `at` of `s`, where `index` records came before.
pub open spec fn step_at(s: Seq<u8>, at: int, index: int) -> Step {
    if at + 4 > s.len() {
        Step::End
    } else if at + 4 + u16_le(s, at + 2) > s.len() {
        Step::Truncated {
            error: DecodeError::TruncatedExtension {
                index: index as usize,
                type_code: u16_le(s, at) as u16,
            },
        }
    } else {
        Step::Record {
            record: RawRecord {
                type_code: u16_le(s, at) as u16,
                payload: s.subrange(at + 4, at + 4 + u16_le(s, at + 2)),
            },
            next: at + 4 + u16_le(s, at + 2),
        }
    }
}

/// `front`, followed by what `rest` holds; the error of `rest` where it is
/// one.
pub open spec fn prepend(front: Seq<RawRecord>, rest: Result<Seq<RawRecord>, DecodeError>)
    -> Result<Seq<RawRecord>, DecodeError> {
    match rest {
        Ok(records) => Ok(front + records),
        Err(error) => Err(error),
    }
}

/// The records of `s` from position `at` on, in the order in which they stand
/// in the buffer, where `index` records came before; or the error of the
/// first record that does not fit.
pub open spec fn records_from(s: Seq<u8>, at: int, index: int) -> Result<
    Seq<RawRecord>,
    DecodeError,
>
    decreases s.len() - at,
{
    match step_at(s, at, index) {
        Step::End => Ok(Seq::empty()),
        Step::Truncated { error } => Err(error),
        Step::Record { record, next } => prepend(seq![record], records_from(s, next, index + 1)),
    }
}

/// The records of a whole extension region.
pub open spec fn records_of(s: Seq<u8>) -> Result<Seq<RawRecord>, DecodeError> {
    records_from(s, 0, 0)
}

/// The records that a sequence of found records stands for.
pub open spec fn raw_views(found: Seq<RawExtension>) -> Seq<RawRecord> {
    Seq::new(found.len(), |i: int| found[i]@)
}

/// A single forward pass over an extension region. Records are read on
/// demand; a pass that met an error, or the end, yields nothing more.
pub struct ExtensionCursor<'a> {
    data: &'a [u8],
    position: usize,
    index: usize,
}

impl<'a> ExtensionCursor<'a> {
    #[verifier::type_invariant]
    spec fn well_formed(self) -> bool {
        &&& self.position <= self.data@.len()
        &&& 4 * self.index <= self.position
    }

    /// The region that the cursor walks.
    pub closed spec fn buffer(self) -> Seq<u8> {
        self.data@
    }

    /// The position of the next header.
    pub closed spec fn offset(self) -> int {
        self.position as int
    }

    /// The number of records passed so far.
    pub closed spec fn count(self) -> int {
        self.index as int
    }

    /// What the rest of the pass will yield.
    pub open spec fn pending(self) -> Result<Seq<RawRecord>, DecodeError> {
        records_from(self.buffer(), self.offset(), self.count())
    }

    /// Starts a pass at the beginning of `data`.
    pub fn new(data: &'a [u8]) -> (cursor: ExtensionCursor<'a>)
        ensures
            cursor.buffer() == data@,
            cursor.offset() == 0,
            cursor.count() == 0,
    {
        ExtensionCursor { data, position: 0, index: 0 }
    }

    /// Starts a pass at `position` of `data`, or at the end of `data` where
    /// `position` lies beyond it.
    pub fn starting_at(data: &'a [u8], position: usize) -> (cursor: ExtensionCursor<'a>)
        ensures
            cursor.buffer() == data@,
            cursor.offset() == if position <= data@.len() {
                position as int
            } else {
                data@.len() as int
            },
            cursor.count() == 0,
    {
        let position = if position <= data.len() {
            position
        } else {
            data.len()
        };
        ExtensionCursor { data, position, index: 0 }
    }

    /// The position of the next header, which is never beyond the buffer.
    pub fn position(&self) -> (at: usize)
        ensures
            at == self.offset(),
            at <= self.buffer().len() <= usize::MAX,
    {
        proof {
            use_type_invariant(self);
        }
        let end = self.data.len();
        assert(self.position <= end);
        self.position
    }

    /// Reads the record at the cursor and moves past it. `None` at the end of
    /// the stream. After an error the cursor stands at the end of the buffer.
    pub fn next_record(&mut self) -> (r: Option<Result<RawExtension<'a>, DecodeError>>)
        ensures
            final(self).buffer() == old(self).buffer(),
            match step_at(old(self).buffer(), old(self).offset(), old(self).count()) {
                Step::End => {
                    &&& r is None
                    &&& final(self).offset() == old(self).offset()
                    &&& final(self).count() == old(self).count()
                },
                Step::Truncated { error } => {
                    &&& r == Some(Err::<RawExtension<'a>, DecodeError>(error))
                    &&& final(self).offset() == old(self).buffer().len()
                    &&& final(self).count() == old(self).count()
                },
                Step::Record { record, next } => {
                    &&& r matches Some(Ok(found))
                    &&& found@ == record
                    &&& final(self).offset() == next
                    &&& final(self).count() == old(self).count() + 1
                },
            },
    {
        proof {
            use_type_invariant(&*self);
        }
        let data = self.data;
        let at = self.position;
        let index = self.index;
        if data.len() - at < HEADER_LEN {
            return None;
        }
        let type_code = read_u16_le(data, at);
        let declared = read_u16_le(data, at + 2) as usize;
        if data.len() - at - HEADER_LEN < declared {
            *self = ExtensionCursor { data, position: data.len(), index };
            return Some(Err(DecodeError::TruncatedExtension { index, type_code }));
        }
        let start = at + HEADER_LEN;
        let payload = slice_subrange(data, start, start + declared);
        *self = ExtensionCursor { data, position: start + declared, index: index + 1 };
        Some(Ok(RawExtension { type_code, payload }))
    }

    /// Runs the pass to its end and gathers what it yields.
    pub fn collect(self) -> (r: Result<Vec<RawExtension<'a>>, DecodeError>)
        ensures
            match r {
                Ok(found) => self.pending() == Ok::<Seq<RawRecord>, DecodeError>(
                    raw_views(found@),
                ),
                Err(error) => self.pending() == Err::<Seq<RawRecord>, DecodeError>(error),
            },
    {
        let mut cursor = self;
        let mut found: Vec<RawExtension<'a>> = Vec::new();
        assert(raw_views(found@) + Seq::<RawRecord>::empty() =~= Seq::<RawRecord>::empty());
        loop
            invariant
                self.pending() == prepend(raw_views(found@), cursor.pending()),
            decreases cursor.buffer().len() - cursor.offset(),
        {
            let ghost gathered = raw_views(found@);
            proof {
                use_type_invariant(&cursor);
            }
            match cursor.next_record() {
                None => {
                    assert(gathered + Seq::<RawRecord>::empty() =~= gathered);
                    return Ok(found);
                },
                Some(Err(error)) => {
                    return Err(error);
                },
                Some(Ok(record)) => {
                    found.push(record);
                    assert(raw_views(found@) =~= gathered + seq![record@]);
                    proof {
                        match cursor.pending() {
                            Ok(rest) => {
                                assert(gathered + (seq![record@] + rest) =~= (gathered
                                    + seq![record@]) + rest);
                            },
                            Err(_) => {},
                        }
                    }
                },
            }
        }
    }
}

/// Starts a lazy pass over the extension region `region`.
pub fn enumerate<'a>(region: &'a [u8]) -> (cursor: ExtensionCursor<'a>)
    ensures
        cursor.buffer() == region@,
        cursor.offset() == 0,
        cursor.count() == 0,
        cursor.pending() == records_of(region@),
{
    ExtensionCursor::new(region)
}

/// Where record `i` of `records` starts, if the first of them starts at `at`
/// and each follows the one before it without a gap.
pub open spec fn record_start(records: Seq<RawRecord>, at: int, i: int) -> int
    decreases i,
{
    if i <= 0 {
        at
    } else {
        record_start(records.drop_first(), at + 4 + records[0].payload.len(), i - 1)
    }
}

/// Enumeration keeps the order of the buffer: record `i` of the list is the
/// record that stands `i`-th in the buffer, with its header right after the
/// payload of the record before it.
pub proof fn lemma_records_in_buffer_order(s: Seq<u8>, at: int, index: int, i: int)
    requires
        0 <= at,
        records_from(s, at, index) is Ok,
        0 <= i < records_from(s, at, index)->Ok_0.len(),
    ensures
        ({
            let records = records_from(s, at, index)->Ok_0;
            let start = record_start(records, at, i);
            &&& at <= start
            &&& start + 4 + records[i].payload.len() <= s.len()
            &&& records[i].type_code == u16_le(s, start)
            &&& records[i].payload.len() == u16_le(s, start + 2)
            &&& records[i].payload == s.subrange(start + 4, start + 4 + u16_le(s, start + 2))
        }),
    decreases i,
{
    let records = records_from(s, at, index)->Ok_0;
    match step_at(s, at, index) {
        Step::Record { record, next } => {
            let rest = records_from(s, next, index + 1)->Ok_0;
            assert(records == seq![record] + rest);
            assert(records.drop_first() =~= rest);
            assert(records[0] == record);
            if i > 0 {
                lemma_records_in_buffer_order(s, next, index + 1, i - 1);
                assert(records[i] == rest[i - 1]);
            }
        },
        _ => {},
    }
}

/// Enumeration leaves nothing out: after the last record fewer than four
/// bytes of the buffer are left.
pub proof fn lemma_records_cover_buffer(s: Seq<u8>, at: int, index: int)
    requires
        0 <= at <= s.len(),
        records_from(s, at, index) is Ok,
    ensures
        ({
            let records = records_from(s, at, index)->Ok_0;
            let end = record_start(records, at, records.len() as int);
            at <= end <= s.len() < end + 4
        }),
    decreases s.len() - at,
{
    let records = records_from(s, at, index)->Ok_0;
    match step_at(s, at, index) {
        Step::Record { record, next } => {
            let rest = records_from(s, next, index + 1)->Ok_0;
            assert(records == seq![record] + rest);
            assert(records.drop_first() =~= rest);
            assert(records[0] == record);
            lemma_records_cover_buffer(s, next, index + 1);
        },
        _ => {},
    }
}

/// The bytes of one record: type code, payload length, payload.
pub open spec fn record_bytes(record: RawRecord) -> Seq<u8> {
    u16_bytes(record.type_code as int) + u16_bytes(record.payload.len() as int) + record.payload
}

/// The bytes of a stream that holds `records` in order.
pub open spec fn stream_bytes(records: Seq<RawRecord>) -> Seq<u8>
    decreases records.len(),
{
    if records.len() == 0 {
        Seq::empty()
    } else {
        record_bytes(records[0]) + stream_bytes(records.drop_first())
    }
}

/// Appends one record to `out`. A payload of more than 65535 bytes has no
/// encoding: nothing is written and the result is `false`.
pub fn write_record(type_code: u16, payload: &[u8], out: &mut Vec<u8>) -> (written: bool)
    ensures
        written == (payload@.len() <= 0xFFFF),
        written ==> final(out)@ == old(out)@ + record_bytes(
            RawRecord { type_code, payload: payload@ },
        ),
        !written ==> final(out)@ == old(out)@,
{
    if payload.len() > 0xFFFF {
        return false;
    }
    write_u16_le(type_code, out);
    write_u16_le(payload.len() as u16, out);
    let ghost header = out@;
    let mut k: usize = 0;
    while k < payload.len()
        invariant
            k <= payload.len(),
            out@ == header + payload@.subrange(0, k as int),
        decreases payload.len() - k,
    {
        out.push(payload[k]);
        k += 1;
    }
    assert(payload@.subrange(0, payload@.len() as int) =~= payload@);
    assert(out@ =~= old(out)@ + record_bytes(RawRecord { type_code, payload: payload@ }));
    true
}

/// A record that was written is found again: where the bytes of `record`
/// stand at `at`, that record is what the stream holds there.
pub proof fn lemma_record_roundtrip(record: RawRecord, s: Seq<u8>, at: int, index: int)
    requires
        0 <= at,
        record.payload.len() <= 0xFFFF,
        at + 4 + record.payload.len() <= s.len(),
        s.subrange(at, at + 4 + record.payload.len()) == record_bytes(record),
    ensures
        step_at(s, at, index) == (Step::Record {
            record,
            next: at + 4 + record.payload.len(),
        }),
{
    let len = record.payload.len() as int;
    let field = s.subrange(at, at + 4 + len);
    assert(s.subrange(at, at + 2) =~= field.subrange(0, 2));
    assert(field.subrange(0, 2) =~= u16_bytes(record.type_code as int));
    assert(s.subrange(at + 2, at + 4) =~= field.subrange(2, 4));
    assert(field.subrange(2, 4) =~= u16_bytes(len));
    lemma_u16_roundtrip(record.type_code as int, s, at);
    lemma_u16_roundtrip(len, s, at + 2);
    assert(s.subrange(at + 4, at + 4 + len) =~= record.payload) by {
        assert(s.subrange(at + 4, at + 4 + len) =~= field.subrange(4, 4 + len));
    }
}

/// A stream that was written is enumerated as it was written: the records
/// of `stream_bytes(records)`, with fewer than four bytes of padding after
/// them, are `records`, in order.
pub proof fn lemma_stream_roundtrip(
    records: Seq<RawRecord>,
    front: Seq<u8>,
    padding: Seq<u8>,
    index: int,
)
    requires
        forall|i: int| 0 <= i < records.len() ==> (#[trigger] records[i]).payload.len() <= 0xFFFF,
        padding.len() < 4,
    ensures
        records_from(front + stream_bytes(records) + padding, front.len() as int, index) == Ok::<
            Seq<RawRecord>,
            DecodeError,
        >(records),
    decreases records.len(),
{
    let s = front + stream_bytes(records) + padding;
    let at = front.len() as int;
    if records.len() == 0 {
        assert(records =~= Seq::<RawRecord>::empty());
    } else {
        let first = records[0];
        let rest = records.drop_first();
        let len = first.payload.len() as int;
        assert(record_bytes(first).len() == 4 + len);
        assert(s.subrange(at, at + 4 + len) =~= record_bytes(first));
        lemma_record_roundtrip(first, s, at, index);
        let moved = front + record_bytes(first);
        assert(moved + stream_bytes(rest) + padding =~= s);
        assert forall|i: int| 0 <= i < rest.len() implies (#[trigger] rest[i]).payload.len()
            <= 0xFFFF by {
            assert(rest[i] == records[i + 1]);
        }
        lemma_stream_roundtrip(rest, moved, padding, index + 1);
        assert(seq![first] + rest =~= records);
    }
}

} // verus!
