//! Wire layout of the fixed event header.
//!
//! The kernel delivers each event as a fixed 24-byte header, laid out as
//! `total_length:u32, version:u8, reserved:u8, header_length:u16, mask:u64,
//! descriptor:i32, pid:i32`, all little-endian, optionally followed by
//! self-describing additional records.  This module states that layout as a
//! byte-level specification, gives verified encode and parse functions for
//! it, and proves that they invert each other.

use vstd::bytes::lemma_auto_spec_u16_to_from_le_bytes;
use vstd::bytes::lemma_auto_spec_u32_to_from_le_bytes;
use vstd::bytes::lemma_auto_spec_u64_to_from_le_bytes;
use vstd::bytes::spec_u16_from_le_bytes;
use vstd::bytes::spec_u16_to_le_bytes;
use vstd::bytes::spec_u32_from_le_bytes;
use vstd::bytes::spec_u32_to_le_bytes;
use vstd::bytes::spec_u64_from_le_bytes;
use vstd::bytes::spec_u64_to_le_bytes;
use vstd::bytes::u16_from_le_bytes;
use vstd::bytes::u16_to_le_bytes;
use vstd::bytes::u32_from_le_bytes;
use vstd::bytes::u32_to_le_bytes;
use vstd::bytes::u64_from_le_bytes;
use vstd::bytes::u64_to_le_bytes;
use vstd::prelude::*;
use vstd::slice::slice_subrange;

verus! {

/// The fixed-size event header exactly as the kernel reports it.
///
/// Invariant of well-formed records: `event_len >= metadata_len`; the
/// remainder is the byte span of the additional records belonging to the
/// event.  The record walker enforces this; the struct itself can hold any
/// field values read off the wire.
#[allow(non_camel_case_types)]
#[derive(Clone, Copy, Debug, PartialEq, Eq, Structural)]
pub struct fanotify_event_metadata {
    /// Total record length in bytes, header plus additional records.
    pub event_len: u32,
    /// Structure-version tag; must equal `FANOTIFY_METADATA_VERSION`.
    pub vers: u8,
    /// Reserved byte, not interpreted.
    pub reserved: u8,
    /// Length in bytes of this header structure.
    pub metadata_len: u16,
    /// Bitmask of the event kinds this record reports.
    pub mask: u64,
    /// Descriptor of the affected file, or `FAN_NOFD` on queue overflow.
    pub fd: i32,
    /// Process id (or thread id) of the originating process.
    pub pid: i32,
}

/// The 24 bytes that a header occupies on the wire, in field order.
pub open spec fn spec_header_bytes(metadata: fanotify_event_metadata) -> Seq<u8> {
    spec_u32_to_le_bytes(metadata.event_len) + seq![metadata.vers, metadata.reserved]
        + spec_u16_to_le_bytes(metadata.metadata_len) + spec_u64_to_le_bytes(metadata.mask)
        + spec_u32_to_le_bytes(metadata.fd as u32) + spec_u32_to_le_bytes(metadata.pid as u32)
}

/// The header read off the first 24 bytes of a buffer.
pub open spec fn spec_parse_header(bytes: Seq<u8>) -> fanotify_event_metadata
    recommends
        bytes.len() >= 24,
{
    fanotify_event_metadata {
        event_len: spec_u32_from_le_bytes(bytes.subrange(0, 4)),
        vers: bytes[4],
        reserved: bytes[5],
        metadata_len: spec_u16_from_le_bytes(bytes.subrange(6, 8)),
        mask: spec_u64_from_le_bytes(bytes.subrange(8, 16)),
        fd: spec_u32_from_le_bytes(bytes.subrange(16, 20)) as i32,
        pid: spec_u32_from_le_bytes(bytes.subrange(20, 24)) as i32,
    }
}

/// Round trip of the header layout: parsing the bytes written for any header
/// reproduces that header, fields `mask`, `fd` and `pid` included.
pub proof fn lemma_header_round_trip(metadata: fanotify_event_metadata)
    ensures
        spec_header_bytes(metadata).len() == 24,
        spec_parse_header(spec_header_bytes(metadata)) == metadata,
{
    lemma_auto_spec_u16_to_from_le_bytes();
    lemma_auto_spec_u32_to_from_le_bytes();
    lemma_auto_spec_u64_to_from_le_bytes();
    let bytes = spec_header_bytes(metadata);
    assert(bytes.subrange(0, 4) =~= spec_u32_to_le_bytes(metadata.event_len));
    assert(bytes.subrange(6, 8) =~= spec_u16_to_le_bytes(metadata.metadata_len));
    assert(bytes.subrange(8, 16) =~= spec_u64_to_le_bytes(metadata.mask));
    assert(bytes.subrange(16, 20) =~= spec_u32_to_le_bytes(metadata.fd as u32));
    assert(bytes.subrange(20, 24) =~= spec_u32_to_le_bytes(metadata.pid as u32));
    let fd = metadata.fd;
    let pid = metadata.pid;
    assert(((fd as u32) as i32) == fd) by (bit_vector);
    assert(((pid as u32) as i32) == pid) by (bit_vector);
}

/// Writes a header into its 24-byte wire form.
pub fn encode_header(metadata: &fanotify_event_metadata) -> (bytes: Vec<u8>)
    ensures
        bytes@ == spec_header_bytes(*metadata),
        bytes@.len() == 24,
{
    let mut bytes = u32_to_le_bytes(metadata.event_len);
    bytes.push(metadata.vers);
    bytes.push(metadata.reserved);
    let mut tail = u16_to_le_bytes(metadata.metadata_len);
    bytes.append(&mut tail);
    let mut tail = u64_to_le_bytes(metadata.mask);
    bytes.append(&mut tail);
    let mut tail = u32_to_le_bytes(metadata.fd as u32);
    bytes.append(&mut tail);
    let mut tail = u32_to_le_bytes(metadata.pid as u32);
    bytes.append(&mut tail);
    proof {
        assert(bytes@ =~= spec_header_bytes(*metadata));
    }
    bytes
}

/// Reads the header stored at `offset` in `buffer`.
pub fn parse_header(buffer: &Vec<u8>, offset: usize) -> (metadata: fanotify_event_metadata)
    requires
        offset + 24 <= buffer@.len(),
    ensures
        metadata == spec_parse_header(buffer@.subrange(offset as int, offset as int + 24)),
{
    let ghost sub = buffer@.subrange(offset as int, offset as int + 24);
    // Anchors the buffer's length in usize, so the offsets below cannot
    // overflow.
    let _length = buffer.len();
    let whole = buffer.as_slice();
    let event_len = u32_from_le_bytes(slice_subrange(whole, offset, offset + 4));
    let vers = buffer[offset + 4];
    let reserved = buffer[offset + 5];
    let metadata_len = u16_from_le_bytes(slice_subrange(whole, offset + 6, offset + 8));
    let mask = u64_from_le_bytes(slice_subrange(whole, offset + 8, offset + 16));
    let fd = #[verifier::truncate] (u32_from_le_bytes(slice_subrange(whole, offset + 16, offset + 20))
        as i32);
    let pid = #[verifier::truncate] (u32_from_le_bytes(slice_subrange(whole, offset + 20, offset + 24))
        as i32);
    proof {
        assert(sub.subrange(0, 4) =~= buffer@.subrange(offset as int, offset as int + 4));
        assert(sub.subrange(6, 8) =~= buffer@.subrange(offset as int + 6, offset as int + 8));
        assert(sub.subrange(8, 16) =~= buffer@.subrange(offset as int + 8, offset as int + 16));
        assert(sub.subrange(16, 20) =~= buffer@.subrange(offset as int + 16, offset as int + 20));
        assert(sub.subrange(20, 24) =~= buffer@.subrange(offset as int + 20, offset as int + 24));
        assert(sub[4] == buffer@[offset as int + 4]);
        assert(sub[5] == buffer@[offset as int + 5]);
    }
    fanotify_event_metadata { event_len, vers, reserved, metadata_len, mask, fd, pid }
}

} // verus!
