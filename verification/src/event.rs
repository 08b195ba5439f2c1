//! Descriptor lifecycle: the event as the exclusive owner of the descriptor
//! a record carried.
//!
//! An [`Event`] is built from one parsed record.  If the record reported the
//! overflow sentinel, the event exposes "no descriptor" and no descriptor
//! operation may be applied to it.  Otherwise the event owns its descriptor
//! exactly once: it is not clonable, duplication goes through an explicit
//! operation that installs an independently owned descriptor number, and
//! release consumes the event, handing the descriptor out exactly once for
//! the caller to close.

use vstd::prelude::*;

use crate::abi::FAN_NOFD;
use crate::mask::events_from_mask;
use crate::mask::spec_events_from_mask;
use crate::mask::FanEvent;
use crate::records::FanAdditionalRecords;
use crate::wire::fanotify_event_metadata;

verus! {

/// A decoded event: the owned descriptor (or the sentinel for "no
/// descriptor"), the best-effort resolved path, the decoded event kinds in
/// declaration order, the originating process id, and the additional
/// records of the record it was built from.
#[derive(Debug)]
pub struct Event {
    /// The owned descriptor, or `FAN_NOFD` if the record reported a queue
    /// overflow.
    pub fd: i32,
    /// Resolved filesystem path of the descriptor; empty when resolution
    /// failed or no descriptor was carried.
    pub path: String,
    /// The event kinds decoded from the record's mask, in declaration
    /// order.
    pub events: Vec<FanEvent>,
    /// Process id (or thread id) of the originating process.
    pub pid: i32,
    /// The additional records carried after the record's fixed header.
    pub additional_records: Vec<FanAdditionalRecords>,
}

impl Event {
    /// Whether this event owns a real descriptor rather than the overflow
    /// sentinel.
    pub open spec fn spec_has_descriptor(&self) -> bool {
        self.fd != FAN_NOFD
    }

    /// Builds the event for one parsed record.
    ///
    /// Path resolution is the caller's external lookup; a failed resolution
    /// hands in the empty string and is not an error.  The kinds are decoded
    /// from the record's mask; the descriptor is taken over as reported,
    /// sentinel included.
    pub fn from_metadata(
        metadata: &fanotify_event_metadata,
        path: String,
        additional_records: Vec<FanAdditionalRecords>,
    ) -> (event: Event)
        ensures
            event.fd == metadata.fd,
            event.path == path,
            event.events@ == spec_events_from_mask(metadata.mask),
            event.pid == metadata.pid,
            event.additional_records == additional_records,
            event.spec_has_descriptor() <==> metadata.fd != FAN_NOFD,
    {
        Event {
            fd: metadata.fd,
            path,
            events: events_from_mask(metadata.mask),
            pid: metadata.pid,
            additional_records,
        }
    }

    /// Whether this event owns a real descriptor rather than the overflow
    /// sentinel.  Only then may it be duplicated or released.
    pub fn has_descriptor(&self) -> (has: bool)
        ensures
            has == self.spec_has_descriptor(),
    {
        self.fd != FAN_NOFD
    }

    /// Builds the independent duplicate of this event around `new_fd`, a
    /// freshly acquired descriptor for the same file.
    ///
    /// The caller obtains `new_fd` from the external descriptor-duplication
    /// primitive, which never hands out the sentinel or a number already
    /// open; the duplicate carries its own descriptor and a copy of the
    /// path, kinds, pid and additional records.  Releasing the original
    /// leaves the duplicate intact, since the two descriptors are distinct.
    pub fn duplicate_with(&self, new_fd: i32) -> (duplicate: Event)
        requires
            self.spec_has_descriptor(),
            new_fd >= 0,
            new_fd != self.fd,
        ensures
            duplicate.fd == new_fd,
            duplicate.fd != self.fd,
            duplicate.spec_has_descriptor(),
            duplicate.path == self.path,
            duplicate.events@ == self.events@,
            duplicate.pid == self.pid,
            duplicate.additional_records.deep_view() == self.additional_records.deep_view(),
    {
        Event {
            fd: new_fd,
            path: self.path.clone(),
            events: copy_events(&self.events),
            pid: self.pid,
            additional_records: copy_additional_records(&self.additional_records),
        }
    }

    /// Hands the owned descriptor out for closing and consumes the event.
    ///
    /// Ownership transfer makes the release exactly-once: the event is gone
    /// afterwards, so no second release can happen, and the sentinel can
    /// never be handed out because a sentinel-carrying event refuses the
    /// call.
    pub fn release(self) -> (fd: i32)
        requires
            self.spec_has_descriptor(),
        ensures
            fd == self.fd,
            fd != FAN_NOFD,
    {
        self.fd
    }
}

/// Copies a kind list element by element.
fn copy_events(events: &Vec<FanEvent>) -> (copy: Vec<FanEvent>)
    ensures
        copy@ == events@,
{
    let mut copy: Vec<FanEvent> = Vec::new();
    let mut i: usize = 0;
    while i < events.len()
        invariant
            i <= events.len(),
            copy@ == events@.take(i as int),
        decreases events.len() - i,
    {
        copy.push(events[i]);
        proof {
            assert(copy@ =~= events@.take(i as int + 1));
        }
        i = i + 1;
    }
    proof {
        assert(events@.take(events@.len() as int) =~= events@);
    }
    copy
}

/// Copies additional records, payload bytes included.
fn copy_additional_records(records: &Vec<FanAdditionalRecords>) -> (copy: Vec<
    FanAdditionalRecords,
>)
    ensures
        copy.deep_view() == records.deep_view(),
{
    let mut copy: Vec<FanAdditionalRecords> = Vec::new();
    let mut i: usize = 0;
    while i < records.len()
        invariant
            i <= records.len(),
            copy.deep_view() == records.deep_view().take(i as int),
        decreases records.len() - i,
    {
        let payload = copy_bytes(&records[i].payload);
        let info_type = records[i].info_type;
        let ghost old_models = copy.deep_view();
        copy.push(FanAdditionalRecords { info_type, payload });
        proof {
            assert(copy.deep_view() =~~= old_models.push(records.deep_view()[i as int]));
            assert(old_models.push(records.deep_view()[i as int]) =~~= records.deep_view().take(
                i as int + 1,
            ));
        }
        i = i + 1;
    }
    proof {
        assert(records.deep_view().take(records.deep_view().len() as int) =~~= records.deep_view());
    }
    copy
}

/// Copies a byte vector element by element.
fn copy_bytes(bytes: &Vec<u8>) -> (copy: Vec<u8>)
    ensures
        copy@ == bytes@,
{
    let mut copy: Vec<u8> = Vec::new();
    let mut i: usize = 0;
    while i < bytes.len()
        invariant
            i <= bytes.len(),
            copy@ == bytes@.take(i as int),
        decreases bytes.len() - i,
    {
        copy.push(bytes[i]);
        proof {
            assert(copy@ =~= bytes@.take(i as int + 1));
        }
        i = i + 1;
    }
    proof {
        assert(bytes@.take(bytes@.len() as int) =~= bytes@);
    }
    copy
}

} // verus!
