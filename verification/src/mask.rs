//! Mask codec: translates the 64-bit event bitmask of a kernel record into
//! the ordered set of semantic event kinds, and back.
//!
//! Decoding policy for composite kinds: a kind is reported exactly when the
//! mask intersects its bit value.  Since a composite kind (`Close`, `Move`)
//! has the union of its components as its bit value, it is reported whenever
//! at least one of its components is present, alongside the components
//! themselves; neither the composite nor the components are ever suppressed.

use vstd::prelude::*;

use crate::abi::FAN_ACCESS;
use crate::abi::FAN_ACCESS_PERM;
use crate::abi::FAN_ATTRIB;
use crate::abi::FAN_CLOSE;
use crate::abi::FAN_CLOSE_NOWRITE;
use crate::abi::FAN_CLOSE_WRITE;
use crate::abi::FAN_CREATE;
use crate::abi::FAN_DELETE;
use crate::abi::FAN_DELETE_SELF;
use crate::abi::FAN_EVENT_ON_CHILD;
use crate::abi::FAN_MODIFY;
use crate::abi::FAN_MOVE;
use crate::abi::FAN_MOVED_FROM;
use crate::abi::FAN_MOVED_TO;
use crate::abi::FAN_MOVE_SELF;
use crate::abi::FAN_ONDIR;
use crate::abi::FAN_OPEN;
use crate::abi::FAN_OPEN_EXEC;
use crate::abi::FAN_OPEN_EXEC_PERM;
use crate::abi::FAN_OPEN_PERM;

verus! {

/// The closed set of semantic event kinds.
///
/// The declaration order is stable and defines the order in which
/// [`events_from_mask`] reports decoded kinds.
#[derive(Clone, Copy, Debug, PartialEq, Eq, Structural)]
pub enum FanEvent {
    Access,
    AccessPerm,
    Attrib,
    Close,
    CloseNowrite,
    CloseWrite,
    Create,
    Delete,
    DeleteSelf,
    EventOnChild,
    Modify,
    Move,
    MovedFrom,
    MovedTo,
    MoveSelf,
    Ondir,
    Open,
    OpenExec,
    OpenExecPerm,
    OpenPerm,
}

/// The bit value of each kind, fixed by the kernel ABI.
pub open spec fn fan_event_bit(event: FanEvent) -> u64 {
    match event {
        FanEvent::Access => FAN_ACCESS,
        FanEvent::AccessPerm => FAN_ACCESS_PERM,
        FanEvent::Attrib => FAN_ATTRIB,
        FanEvent::Close => FAN_CLOSE,
        FanEvent::CloseNowrite => FAN_CLOSE_NOWRITE,
        FanEvent::CloseWrite => FAN_CLOSE_WRITE,
        FanEvent::Create => FAN_CREATE,
        FanEvent::Delete => FAN_DELETE,
        FanEvent::DeleteSelf => FAN_DELETE_SELF,
        FanEvent::EventOnChild => FAN_EVENT_ON_CHILD,
        FanEvent::Modify => FAN_MODIFY,
        FanEvent::Move => FAN_MOVE,
        FanEvent::MovedFrom => FAN_MOVED_FROM,
        FanEvent::MovedTo => FAN_MOVED_TO,
        FanEvent::MoveSelf => FAN_MOVE_SELF,
        FanEvent::Ondir => FAN_ONDIR,
        FanEvent::Open => FAN_OPEN,
        FanEvent::OpenExec => FAN_OPEN_EXEC,
        FanEvent::OpenExecPerm => FAN_OPEN_EXEC_PERM,
        FanEvent::OpenPerm => FAN_OPEN_PERM,
    }
}

impl FanEvent {
    /// The bit value of this kind, fixed by the kernel ABI.
    pub fn mask_bit(self) -> (bits: u64)
        ensures
            bits == fan_event_bit(self),
    {
        match self {
            FanEvent::Access => FAN_ACCESS,
            FanEvent::AccessPerm => FAN_ACCESS_PERM,
            FanEvent::Attrib => FAN_ATTRIB,
            FanEvent::Close => FAN_CLOSE,
            FanEvent::CloseNowrite => FAN_CLOSE_NOWRITE,
            FanEvent::CloseWrite => FAN_CLOSE_WRITE,
            FanEvent::Create => FAN_CREATE,
            FanEvent::Delete => FAN_DELETE,
            FanEvent::DeleteSelf => FAN_DELETE_SELF,
            FanEvent::EventOnChild => FAN_EVENT_ON_CHILD,
            FanEvent::Modify => FAN_MODIFY,
            FanEvent::Move => FAN_MOVE,
            FanEvent::MovedFrom => FAN_MOVED_FROM,
            FanEvent::MovedTo => FAN_MOVED_TO,
            FanEvent::MoveSelf => FAN_MOVE_SELF,
            FanEvent::Ondir => FAN_ONDIR,
            FanEvent::Open => FAN_OPEN,
            FanEvent::OpenExec => FAN_OPEN_EXEC,
            FanEvent::OpenExecPerm => FAN_OPEN_EXEC_PERM,
            FanEvent::OpenPerm => FAN_OPEN_PERM,
        }
    }
}

/// All event kinds in declaration order.
pub open spec fn event_order() -> Seq<FanEvent> {
    seq![
        FanEvent::Access,
        FanEvent::AccessPerm,
        FanEvent::Attrib,
        FanEvent::Close,
        FanEvent::CloseNowrite,
        FanEvent::CloseWrite,
        FanEvent::Create,
        FanEvent::Delete,
        FanEvent::DeleteSelf,
        FanEvent::EventOnChild,
        FanEvent::Modify,
        FanEvent::Move,
        FanEvent::MovedFrom,
        FanEvent::MovedTo,
        FanEvent::MoveSelf,
        FanEvent::Ondir,
        FanEvent::Open,
        FanEvent::OpenExec,
        FanEvent::OpenExecPerm,
        FanEvent::OpenPerm,
    ]
}

/// Holds of the kinds that a mask selects.
pub open spec fn mask_selects(mask: u64) -> spec_fn(FanEvent) -> bool {
    |event: FanEvent| mask & fan_event_bit(event) != 0
}

/// The decoded form of a mask: the kinds whose bit value intersects the
/// mask, in declaration order.
pub open spec fn spec_events_from_mask(mask: u64) -> Seq<FanEvent> {
    event_order().filter(mask_selects(mask))
}

/// All event kinds, in declaration order.
pub fn all_events() -> (events: Vec<FanEvent>)
    ensures
        events@ == event_order(),
{
    let mut events: Vec<FanEvent> = Vec::new();
    events.push(FanEvent::Access);
    events.push(FanEvent::AccessPerm);
    events.push(FanEvent::Attrib);
    events.push(FanEvent::Close);
    events.push(FanEvent::CloseNowrite);
    events.push(FanEvent::CloseWrite);
    events.push(FanEvent::Create);
    events.push(FanEvent::Delete);
    events.push(FanEvent::DeleteSelf);
    events.push(FanEvent::EventOnChild);
    events.push(FanEvent::Modify);
    events.push(FanEvent::Move);
    events.push(FanEvent::MovedFrom);
    events.push(FanEvent::MovedTo);
    events.push(FanEvent::MoveSelf);
    events.push(FanEvent::Ondir);
    events.push(FanEvent::Open);
    events.push(FanEvent::OpenExec);
    events.push(FanEvent::OpenExecPerm);
    events.push(FanEvent::OpenPerm);
    proof {
        assert(events@ =~= event_order());
    }
    events
}

/// Decodes a mask into the kinds it selects, in declaration order.
///
/// Pure and total: every mask decodes, and mask `0` decodes to no kinds.
pub fn events_from_mask(mask: u64) -> (events: Vec<FanEvent>)
    ensures
        events@ == spec_events_from_mask(mask),
{
    let all = all_events();
    let mut events: Vec<FanEvent> = Vec::new();
    let mut i: usize = 0;
    while i < all.len()
        invariant
            i <= all.len(),
            all@ == event_order(),
            events@ == event_order().take(i as int).filter(mask_selects(mask)),
        decreases all.len() - i,
    {
        let event = all[i];
        proof {
            let taken = event_order().take(i as int);
            taken.lemma_filter_push(event, mask_selects(mask));
            assert(taken.push(event) =~= event_order().take(i as int + 1));
        }
        if mask & event.mask_bit() != 0 {
            events.push(event);
        }
        i = i + 1;
    }
    proof {
        assert(event_order().take(event_order().len() as int) =~= event_order());
    }
    events
}

proof fn lemma_filter_agrees(
    events: Seq<FanEvent>,
    first: spec_fn(FanEvent) -> bool,
    second: spec_fn(FanEvent) -> bool,
)
    requires
        forall|i: int| 0 <= i < events.len() ==> first(events[i]) == second(events[i]),
    ensures
        events.filter(first) == events.filter(second),
    decreases events.len(),
{
    reveal(Seq::filter);
    if events.len() > 0 {
        assert(forall|i: int|
            0 <= i < events.drop_last().len() ==> events.drop_last()[i] == events[i]);
        lemma_filter_agrees(events.drop_last(), first, second);
    }
}

proof fn lemma_filter_rejects_all(events: Seq<FanEvent>, pred: spec_fn(FanEvent) -> bool)
    requires
        forall|i: int| 0 <= i < events.len() ==> !pred(events[i]),
    ensures
        events.filter(pred) == Seq::<FanEvent>::empty(),
    decreases events.len(),
{
    reveal(Seq::filter);
    if events.len() > 0 {
        assert(forall|i: int|
            0 <= i < events.drop_last().len() ==> events.drop_last()[i] == events[i]);
        lemma_filter_rejects_all(events.drop_last(), pred);
    }
}

/// The zero mask selects no kind: its decoded form is empty.
pub proof fn lemma_decode_zero_is_empty()
    ensures
        spec_events_from_mask(0) == Seq::<FanEvent>::empty(),
{
    assert forall|i: int| 0 <= i < event_order().len() implies !(mask_selects(0u64)(
        event_order()[i],
    )) by {
        let bits = fan_event_bit(event_order()[i]);
        assert(0u64 & bits == 0) by (bit_vector);
    }
    lemma_filter_rejects_all(event_order(), mask_selects(0));
}

/// Decoding depends only on the bits that some kind claims: bits elsewhere
/// in the word change nothing.
pub proof fn lemma_decode_ignores_unclaimed_bits(mask: u64, extra: u64)
    requires
        forall|event: FanEvent| #[trigger] (extra & fan_event_bit(event)) == 0,
    ensures
        spec_events_from_mask(mask | extra) == spec_events_from_mask(mask),
{
    assert forall|i: int| 0 <= i < event_order().len() implies mask_selects(mask | extra)(
        event_order()[i],
    ) == mask_selects(mask)(event_order()[i]) by {
        let bits = fan_event_bit(event_order()[i]);
        assert(extra & bits == 0);
        assert((extra & bits == 0) ==> (((mask | extra) & bits != 0) == (mask & bits != 0)))
            by (bit_vector);
    }
    lemma_filter_agrees(event_order(), mask_selects(mask | extra), mask_selects(mask));
}

/// The mask encoding a set of kinds: the union of their bit values.
pub open spec fn spec_mask_from_events(events: Seq<FanEvent>) -> u64
    decreases events.len(),
{
    if events.len() == 0 {
        0u64
    } else {
        spec_mask_from_events(events.drop_last()) | fan_event_bit(events.last())
    }
}

/// Encodes a set of kinds into a mask by bitwise union; used when building
/// mark requests.
pub fn mask_from_events(events: &Vec<FanEvent>) -> (mask: u64)
    ensures
        mask == spec_mask_from_events(events@),
{
    let mut mask: u64 = 0;
    let mut i: usize = 0;
    while i < events.len()
        invariant
            i <= events.len(),
            mask == spec_mask_from_events(events@.take(i as int)),
        decreases events.len() - i,
    {
        proof {
            assert(events@.take(i as int + 1).drop_last() =~= events@.take(i as int));
            assert(events@.take(i as int + 1).last() == events@[i as int]);
        }
        mask = mask | events[i].mask_bit();
        i = i + 1;
    }
    proof {
        assert(events@.take(events@.len() as int) =~= events@);
    }
    mask
}

} // verus!
