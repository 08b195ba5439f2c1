//! Record walker: parses a raw byte buffer read from the channel into the
//! sequence of records the kernel placed in it, in delivery order.
//!
//! A buffer holds zero or more complete records; a partial record can stand
//! only at its end after a short read, and is not an error — it simply is
//! not part of this call's output.  A header whose version byte differs from
//! the expected constant is fatal for the whole channel; a length field that
//! does not fit its span rejects the buffer as corrupt.  Nothing is ever
//! read out of bounds.

use vstd::bytes::spec_u16_from_le_bytes;
use vstd::bytes::u16_from_le_bytes;
use vstd::prelude::*;
use vstd::slice::slice_subrange;
use vstd::slice::slice_to_vec;

use crate::abi::FANOTIFY_METADATA_VERSION;
use crate::abi::FAN_EVENT_INFO_HEADER_LEN;
use crate::abi::FAN_EVENT_METADATA_LEN;
use crate::errors::FanotifyError;
use crate::wire::fanotify_event_metadata;
use crate::wire::parse_header;
use crate::wire::spec_parse_header;

verus! {

/// A self-describing payload that follows the fixed header of a record:
/// a type tag and the bytes after the 4-byte length-prefixed header.
///
/// Unrecognized types are carried through rather than rejected; the walker
/// skips to the next record by the declared length alone.
#[derive(Debug)]
pub struct FanAdditionalRecords {
    /// Type tag declared by the record.
    pub info_type: u8,
    /// Payload bytes after the info header.
    pub payload: Vec<u8>,
}

/// Mathematical model of one additional record.
#[verifier::ext_equal]
pub struct AdditionalRecordModel {
    /// Type tag declared by the record.
    pub info_type: u8,
    /// Payload bytes after the info header.
    pub payload: Seq<u8>,
}

impl View for FanAdditionalRecords {
    type V = AdditionalRecordModel;

    open spec fn view(&self) -> AdditionalRecordModel {
        AdditionalRecordModel { info_type: self.info_type, payload: self.payload@ }
    }
}

impl DeepView for FanAdditionalRecords {
    type V = AdditionalRecordModel;

    open spec fn deep_view(&self) -> AdditionalRecordModel {
        self.view()
    }
}

/// One parsed record: the fixed header and the additional records carried
/// in its trailing span.
#[derive(Debug)]
pub struct ParsedRecord {
    /// The fixed event header.
    pub metadata: fanotify_event_metadata,
    /// The additional records between the header and the end of the record.
    pub additional_records: Vec<FanAdditionalRecords>,
}

/// Mathematical model of one parsed record.
#[verifier::ext_equal]
pub struct RecordModel {
    /// The fixed event header.
    pub metadata: fanotify_event_metadata,
    /// The additional records between the header and the end of the record.
    pub additional_records: Seq<AdditionalRecordModel>,
}

impl View for ParsedRecord {
    type V = RecordModel;

    open spec fn view(&self) -> RecordModel {
        RecordModel {
            metadata: self.metadata,
            additional_records: self.additional_records.deep_view(),
        }
    }
}

impl DeepView for ParsedRecord {
    type V = RecordModel;

    open spec fn deep_view(&self) -> RecordModel {
        self.view()
    }
}

/// The additional records stored in a span of bytes: each starts with a
/// type byte, a padding byte and a 16-bit total length that includes this
/// 4-byte prefix.  `None` means the span is corrupt: a record's declared
/// length underruns its own prefix or overruns the span.
pub open spec fn spec_walk_info(span: Seq<u8>) -> Option<Seq<AdditionalRecordModel>>
    decreases span.len(),
{
    if span.len() == 0 {
        Some(Seq::empty())
    } else if span.len() < FAN_EVENT_INFO_HEADER_LEN {
        None
    } else {
        let declared = spec_u16_from_le_bytes(span.subrange(2, 4));
        if declared < FAN_EVENT_INFO_HEADER_LEN || declared > span.len() {
            None
        } else {
            let record = AdditionalRecordModel {
                info_type: span[0],
                payload: span.subrange(4, declared as int),
            };
            match spec_walk_info(span.skip(declared as int)) {
                Some(rest) => Some(seq![record] + rest),
                None => None,
            }
        }
    }
}

/// The records stored in a buffer, walked front to back.
///
/// A remainder shorter than a header, or a record whose declared total
/// length overruns the buffer, ends the walk without error: those bytes are
/// a partial record that a later read will complete.  A version byte other
/// than `FANOTIFY_METADATA_VERSION` aborts with `StreamVersionMismatch`; a
/// header length below the native header size, a total length below the
/// header length, or a corrupt additional-record span aborts with
/// `StreamCorruption`.
pub open spec fn spec_walk(buffer: Seq<u8>) -> Result<Seq<RecordModel>, FanotifyError>
    decreases buffer.len(),
{
    if buffer.len() < FAN_EVENT_METADATA_LEN {
        Ok(Seq::empty())
    } else {
        let metadata = spec_parse_header(buffer.subrange(0, 24));
        if metadata.vers != FANOTIFY_METADATA_VERSION {
            Err(FanotifyError::StreamVersionMismatch)
        } else if metadata.event_len > buffer.len() {
            Ok(Seq::empty())
        } else if metadata.metadata_len < FAN_EVENT_METADATA_LEN as u16 || metadata.event_len
            < metadata.metadata_len as u32 {
            Err(FanotifyError::StreamCorruption)
        } else {
            match spec_walk_info(
                buffer.subrange(metadata.metadata_len as int, metadata.event_len as int),
            ) {
                None => Err(FanotifyError::StreamCorruption),
                Some(infos) => {
                    let record = RecordModel { metadata, additional_records: infos };
                    match spec_walk(buffer.skip(metadata.event_len as int)) {
                        Ok(rest) => Ok(seq![record] + rest),
                        Err(e) => Err(e),
                    }
                },
            }
        }
    }
}

/// The model of what an additional-record parse returned.
pub open spec fn info_model(parsed: Option<Vec<FanAdditionalRecords>>) -> Option<
    Seq<AdditionalRecordModel>,
> {
    match parsed {
        Some(records) => Some(records.deep_view()),
        None => None,
    }
}

/// The model of what a buffer parse returned.
pub open spec fn walk_model(parsed: Result<Vec<ParsedRecord>, FanotifyError>) -> Result<
    Seq<RecordModel>,
    FanotifyError,
> {
    match parsed {
        Ok(records) => Ok(records.deep_view()),
        Err(e) => Err(e),
    }
}

spec fn join_info(
    prefix: Seq<AdditionalRecordModel>,
    rest: Option<Seq<AdditionalRecordModel>>,
) -> Option<Seq<AdditionalRecordModel>> {
    match rest {
        Some(tail) => Some(prefix + tail),
        None => None,
    }
}

spec fn join_walk(prefix: Seq<RecordModel>, rest: Result<Seq<RecordModel>, FanotifyError>) -> Result<
    Seq<RecordModel>,
    FanotifyError,
> {
    match rest {
        Ok(tail) => Ok(prefix + tail),
        Err(e) => Err(e),
    }
}

proof fn lemma_join_info_empty(rest: Option<Seq<AdditionalRecordModel>>)
    ensures
        join_info(Seq::empty(), rest) == rest,
{
    match rest {
        Some(tail) => {
            assert(Seq::<AdditionalRecordModel>::empty() + tail =~= tail);
        },
        None => {},
    }
}

proof fn lemma_join_walk_empty(rest: Result<Seq<RecordModel>, FanotifyError>)
    ensures
        join_walk(Seq::empty(), rest) == rest,
{
    match rest {
        Ok(tail) => {
            assert(Seq::<RecordModel>::empty() + tail =~= tail);
        },
        Err(_) => {},
    }
}

proof fn lemma_join_info_step(
    prefix: Seq<AdditionalRecordModel>,
    record: AdditionalRecordModel,
    rest: Option<Seq<AdditionalRecordModel>>,
)
    ensures
        join_info(
            prefix,
            match rest {
                Some(tail) => Some(seq![record] + tail),
                None => None,
            },
        ) == join_info(prefix.push(record), rest),
{
    match rest {
        Some(tail) => {
            assert(prefix + (seq![record] + tail) =~= prefix.push(record) + tail);
        },
        None => {},
    }
}

proof fn lemma_join_walk_step(
    prefix: Seq<RecordModel>,
    record: RecordModel,
    rest: Result<Seq<RecordModel>, FanotifyError>,
)
    ensures
        join_walk(
            prefix,
            match rest {
                Ok(tail) => Ok(seq![record] + tail),
                Err(e) => Err(e),
            },
        ) == join_walk(prefix.push(record), rest),
{
    match rest {
        Ok(tail) => {
            assert(prefix + (seq![record] + tail) =~= prefix.push(record) + tail);
        },
        Err(_) => {},
    }
}

/// Parses the additional records stored in `buffer[start..end]`.
///
/// Returns `None` exactly when the span is corrupt: some record declares a
/// length below its own 4-byte prefix or beyond the bytes that remain.
pub fn parse_additional_records(buffer: &Vec<u8>, start: usize, end: usize) -> (parsed: Option<
    Vec<FanAdditionalRecords>,
>)
    requires
        start <= end <= buffer@.len(),
    ensures
        spec_walk_info(buffer@.subrange(start as int, end as int)) == info_model(parsed),
{
    let length = buffer.len();
    let whole = buffer.as_slice();
    let mut records: Vec<FanAdditionalRecords> = Vec::new();
    let mut cursor = start;
    proof {
        assert(records.deep_view() =~= Seq::<AdditionalRecordModel>::empty());
        lemma_join_info_empty(spec_walk_info(buffer@.subrange(start as int, end as int)));
    }
    while cursor < end
        invariant
            start <= cursor <= end <= buffer@.len(),
            buffer@.len() == length,
            whole@ == buffer@,
            spec_walk_info(buffer@.subrange(start as int, end as int)) == join_info(
                records.deep_view(),
                spec_walk_info(buffer@.subrange(cursor as int, end as int)),
            ),
        decreases end - cursor,
    {
        let ghost sub = buffer@.subrange(cursor as int, end as int);
        let span = end - cursor;
        if span < FAN_EVENT_INFO_HEADER_LEN {
            // A leftover shorter than an info header cannot declare its
            // length: the span is corrupt.
            return None;
        }
        let declared = u16_from_le_bytes(slice_subrange(whole, cursor + 2, cursor + 4));
        proof {
            assert(sub.subrange(2, 4) =~= buffer@.subrange(cursor as int + 2, cursor as int + 4));
        }
        if declared < FAN_EVENT_INFO_HEADER_LEN as u16 {
            return None;
        }
        let declared = declared as usize;
        if declared > span {
            return None;
        }
        let info_type = buffer[cursor];
        let payload = slice_to_vec(slice_subrange(whole, cursor + 4, cursor + declared));
        let ghost old_models = records.deep_view();
        let ghost model = AdditionalRecordModel {
            info_type: sub[0],
            payload: sub.subrange(4, declared as int),
        };
        records.push(FanAdditionalRecords { info_type, payload });
        proof {
            let sub_next = buffer@.subrange(cursor as int + declared, end as int);
            assert(sub.skip(declared as int) =~= sub_next);
            assert(sub.subrange(4, declared as int) =~= buffer@.subrange(
                cursor as int + 4,
                cursor as int + declared,
            ));
            assert(spec_walk_info(sub) == (match spec_walk_info(sub_next) {
                Some(rest) => Some(seq![model] + rest),
                None => None,
            }));
            lemma_join_info_step(old_models, model, spec_walk_info(sub_next));
            assert(records.deep_view() =~~= old_models.push(model));
        }
        cursor = cursor + declared;
    }
    proof {
        assert(buffer@.subrange(cursor as int, end as int) =~= Seq::<u8>::empty());
        assert(records.deep_view() + Seq::<AdditionalRecordModel>::empty() =~= records.deep_view());
    }
    Some(records)
}

/// Parses every complete record in a buffer, preserving delivery order.
///
/// A trailing partial record — a remainder shorter than a header, or a
/// record whose declared total length overruns the buffer — ends the walk
/// without error.  A wrong version byte yields `StreamVersionMismatch` and
/// no records; malformed length fields yield `StreamCorruption`.
pub fn parse_event_buffer(buffer: &Vec<u8>) -> (parsed: Result<Vec<ParsedRecord>, FanotifyError>)
    ensures
        spec_walk(buffer@) == walk_model(parsed),
{
    let length = buffer.len();
    let mut records: Vec<ParsedRecord> = Vec::new();
    let mut offset: usize = 0;
    proof {
        assert(records.deep_view() =~= Seq::<RecordModel>::empty());
        assert(buffer@.skip(0) =~= buffer@);
        lemma_join_walk_empty(spec_walk(buffer@.skip(0)));
    }
    while length - offset >= FAN_EVENT_METADATA_LEN
        invariant
            offset <= length,
            buffer@.len() == length,
            spec_walk(buffer@) == join_walk(
                records.deep_view(),
                spec_walk(buffer@.skip(offset as int)),
            ),
        decreases length - offset,
    {
        let ghost sub = buffer@.skip(offset as int);
        let metadata = parse_header(buffer, offset);
        proof {
            assert(sub.subrange(0, 24) =~= buffer@.subrange(offset as int, offset as int + 24));
        }
        if metadata.vers != FANOTIFY_METADATA_VERSION {
            return Err(FanotifyError::StreamVersionMismatch);
        }
        let remaining = length - offset;
        if metadata.event_len as u64 > remaining as u64 {
            // The final record is cut off by a short read: not an error,
            // later reads will deliver it whole.
            proof {
                assert(records.deep_view() + Seq::<RecordModel>::empty() =~= records.deep_view());
            }
            return Ok(records);
        }
        let event_len = metadata.event_len as usize;
        if metadata.metadata_len < FAN_EVENT_METADATA_LEN as u16 || metadata.event_len
            < metadata.metadata_len as u32 {
            return Err(FanotifyError::StreamCorruption);
        }
        let metadata_len = metadata.metadata_len as usize;
        let infos = match parse_additional_records(
            buffer,
            offset + metadata_len,
            offset + event_len,
        ) {
            Some(infos) => infos,
            None => {
                proof {
                    assert(sub.subrange(metadata.metadata_len as int, metadata.event_len as int)
                        =~= buffer@.subrange(
                        offset as int + metadata_len,
                        offset as int + event_len,
                    ));
                }
                return Err(FanotifyError::StreamCorruption);
            },
        };
        let ghost old_models = records.deep_view();
        let ghost model = RecordModel { metadata, additional_records: infos.deep_view() };
        records.push(ParsedRecord { metadata, additional_records: infos });
        proof {
            let sub_next = buffer@.skip(offset as int + event_len);
            assert(sub.subrange(metadata.metadata_len as int, metadata.event_len as int)
                =~= buffer@.subrange(offset as int + metadata_len, offset as int + event_len));
            assert(sub.skip(metadata.event_len as int) =~= sub_next);
            assert(spec_walk(sub) == (match spec_walk(sub_next) {
                Ok(rest) => Ok(seq![model] + rest),
                Err(e) => Err(e),
            }));
            lemma_join_walk_step(old_models, model, spec_walk(sub_next));
            assert(records.deep_view() =~~= old_models.push(model));
        }
        offset = offset + event_len;
    }
    proof {
        assert(buffer@.skip(offset as int).len() < 24);
        assert(records.deep_view() + Seq::<RecordModel>::empty() =~= records.deep_view());
    }
    Ok(records)
}

/// A byte sequence that is exactly one structurally valid record: its
/// declared total length equals the sequence's length, its version byte is
/// intact, its header length fits, and its additional-record span parses.
pub open spec fn complete_record(bytes: Seq<u8>) -> bool {
    let metadata = spec_parse_header(bytes.subrange(0, 24));
    &&& bytes.len() >= FAN_EVENT_METADATA_LEN
    &&& metadata.vers == FANOTIFY_METADATA_VERSION
    &&& metadata.event_len == bytes.len()
    &&& metadata.metadata_len >= FAN_EVENT_METADATA_LEN as u16
    &&& metadata.event_len >= metadata.metadata_len as u32
    &&& spec_walk_info(bytes.subrange(metadata.metadata_len as int, bytes.len() as int)) is Some
}

/// The record that a complete record's bytes hold.
pub open spec fn record_of(bytes: Seq<u8>) -> RecordModel
    recommends
        complete_record(bytes),
{
    let metadata = spec_parse_header(bytes.subrange(0, 24));
    RecordModel {
        metadata,
        additional_records: match spec_walk_info(
            bytes.subrange(metadata.metadata_len as int, bytes.len() as int),
        ) {
            Some(infos) => infos,
            None => Seq::empty(),
        },
    }
}

/// Walking a buffer that starts with a complete record yields that record
/// followed by whatever the rest of the buffer yields; an error in the rest
/// is the error of the whole.
pub proof fn lemma_walk_concat(bytes: Seq<u8>, rest: Seq<u8>)
    requires
        complete_record(bytes),
    ensures
        spec_walk(bytes + rest) == (match spec_walk(rest) {
            Ok(tail) => Ok(seq![record_of(bytes)] + tail),
            Err(e) => Err(e),
        }),
{
    let whole = bytes + rest;
    let metadata = spec_parse_header(bytes.subrange(0, 24));
    assert(whole.subrange(0, 24) =~= bytes.subrange(0, 24));
    assert(whole.subrange(metadata.metadata_len as int, metadata.event_len as int)
        =~= bytes.subrange(metadata.metadata_len as int, bytes.len() as int));
    assert(whole.skip(metadata.event_len as int) =~= rest);
}

/// Two consecutive complete records decode to exactly those two records,
/// in delivery order.
pub proof fn lemma_walk_two_records(first: Seq<u8>, second: Seq<u8>)
    requires
        complete_record(first),
        complete_record(second),
    ensures
        spec_walk(first + second) == Ok::<_, FanotifyError>(
            seq![record_of(first), record_of(second)],
        ),
{
    lemma_walk_single_record(second);
    lemma_walk_concat(first, second);
    assert(seq![record_of(first)] + seq![record_of(second)] =~= seq![
        record_of(first),
        record_of(second),
    ]);
}

/// A buffer holding exactly one complete record decodes to that record.
pub proof fn lemma_walk_single_record(bytes: Seq<u8>)
    requires
        complete_record(bytes),
    ensures
        spec_walk(bytes) == Ok::<_, FanotifyError>(seq![record_of(bytes)]),
{
    lemma_walk_concat(bytes, Seq::empty());
    assert(bytes + Seq::<u8>::empty() =~= bytes);
    assert(seq![record_of(bytes)] + Seq::<RecordModel>::empty() =~= seq![record_of(bytes)]);
}

/// A truncated tail: too short to hold a header, or an intact header whose
/// declared total length overruns the bytes that are there.
pub open spec fn truncated_tail(bytes: Seq<u8>) -> bool {
    ||| bytes.len() < FAN_EVENT_METADATA_LEN
    ||| {
        let metadata = spec_parse_header(bytes.subrange(0, 24));
        &&& bytes.len() >= FAN_EVENT_METADATA_LEN
        &&& metadata.vers == FANOTIFY_METADATA_VERSION
        &&& metadata.event_len > bytes.len()
    }
}

/// A buffer that is nothing but a truncated tail yields no records and no
/// error: the bytes wait for a later read to complete them.
pub proof fn lemma_walk_truncated(bytes: Seq<u8>)
    requires
        truncated_tail(bytes),
    ensures
        spec_walk(bytes) == Ok::<_, FanotifyError>(Seq::<RecordModel>::empty()),
{
}

/// A complete record followed by a truncated tail decodes to exactly that
/// record: the tail adds nothing, and no error.
pub proof fn lemma_walk_record_then_truncated(bytes: Seq<u8>, tail: Seq<u8>)
    requires
        complete_record(bytes),
        truncated_tail(tail),
    ensures
        spec_walk(bytes + tail) == Ok::<_, FanotifyError>(seq![record_of(bytes)]),
{
    lemma_walk_truncated(tail);
    lemma_walk_concat(bytes, tail);
    assert(seq![record_of(bytes)] + Seq::<RecordModel>::empty() =~= seq![record_of(bytes)]);
}

/// A buffer whose first header carries any version byte other than the
/// expected constant yields `StreamVersionMismatch`, and no records at all
/// are taken from it.
pub proof fn lemma_walk_version_mismatch(bytes: Seq<u8>)
    requires
        bytes.len() >= FAN_EVENT_METADATA_LEN,
        bytes[4] != FANOTIFY_METADATA_VERSION,
    ensures
        spec_walk(bytes) == Err::<Seq<RecordModel>, _>(FanotifyError::StreamVersionMismatch),
{
    assert(bytes.subrange(0, 24)[4] == bytes[4]);
}

} // verus!
