//! Channel configuration: the delivery class, the flag words handed to the
//! external channel-creation call, and the flag words of mark requests.
//!
//! The external collaborators — the syscall that opens a notification
//! channel and the one that registers marks — receive exactly the words
//! composed here; an unverified shell performs the calls and wraps the
//! returned descriptor in a [`Fanotify`] handle.

use vstd::prelude::*;

use crate::abi::FAN_CLASS_CONTENT;
use crate::abi::FAN_CLASS_NOTIF;
use crate::abi::FAN_CLASS_PRE_CONTENT;
use crate::abi::FAN_CLOEXEC;
use crate::abi::FAN_MARK_ADD;
use crate::abi::FAN_MARK_FILESYSTEM;
use crate::abi::FAN_MARK_FLUSH;
use crate::abi::FAN_MARK_INODE;
use crate::abi::FAN_MARK_MOUNT;
use crate::abi::FAN_MARK_REMOVE;
use crate::abi::FAN_NONBLOCK;
use crate::abi::O_CLOEXEC;
use crate::abi::O_RDONLY;
use crate::mask::spec_mask_from_events;
use crate::mask::mask_from_events;
use crate::mask::FanEvent;

verus! {

/// The delivery class of a notification channel: whether events arrive
/// before content, with content, or as notifications only (in which case
/// permission events are not possible).
#[derive(Clone, Copy, Debug, PartialEq, Eq, Structural)]
pub enum FanotifyMode {
    /// Pre-content class: permission events before files hold their final
    /// data.
    PRECONTENT,
    /// Content class: permission events once files hold their final
    /// content.
    CONTENT,
    /// Notification-only class, the default: no permission events.
    NOTIF,
}

/// The class bits of a delivery mode.
pub open spec fn spec_fan_class(mode: FanotifyMode) -> u32 {
    match mode {
        FanotifyMode::PRECONTENT => FAN_CLASS_PRE_CONTENT,
        FanotifyMode::CONTENT => FAN_CLASS_CONTENT,
        FanotifyMode::NOTIF => FAN_CLASS_NOTIF,
    }
}

impl FanotifyMode {
    /// The class bits of this delivery mode.
    pub fn to_fan_class(self) -> (class: u32)
        ensures
            class == spec_fan_class(self),
    {
        match self {
            FanotifyMode::PRECONTENT => FAN_CLASS_PRE_CONTENT,
            FanotifyMode::CONTENT => FAN_CLASS_CONTENT,
            FanotifyMode::NOTIF => FAN_CLASS_NOTIF,
        }
    }
}

/// A handle on an open notification channel, holding its raw descriptor.
#[derive(Debug)]
pub struct Fanotify {
    /// The channel's raw descriptor.
    pub fd: i32,
}

impl Fanotify {
    /// Wraps an already-open channel descriptor.
    pub fn from_descriptor(fd: i32) -> (channel: Fanotify)
        ensures
            channel.fd == fd,
    {
        Fanotify { fd }
    }

    /// The raw descriptor of the channel.
    pub fn as_raw_fd(&self) -> (fd: i32)
        ensures
            fd == self.fd,
    {
        self.fd
    }

    /// Consumes the handle and hands its descriptor out for closing.
    pub fn into_raw_fd(self) -> (fd: i32)
        ensures
            fd == self.fd,
    {
        self.fd
    }
}

/// The bitset of operations a mark request asks for, composable by union.
#[derive(Clone, Copy, Debug, PartialEq, Eq, Structural)]
pub struct MarkMode {
    /// The composed event mask bits.
    pub bits: u64,
}

impl MarkMode {
    /// The mark mode with exactly the given mask bits.
    pub fn from_bits(bits: u64) -> (mode: MarkMode)
        ensures
            mode.bits == bits,
    {
        MarkMode { bits }
    }

    /// The mark mode selecting the given kinds.
    pub fn from_events(events: &Vec<FanEvent>) -> (mode: MarkMode)
        ensures
            mode.bits == spec_mask_from_events(events@),
    {
        MarkMode { bits: mask_from_events(events) }
    }

    /// The union of two mark modes.
    pub fn union(self, other: MarkMode) -> (mode: MarkMode)
        ensures
            mode.bits == self.bits | other.bits,
    {
        MarkMode { bits: self.bits | other.bits }
    }
}

/// The bitset of behavior flags for creating a channel.
#[derive(Clone, Copy, Debug, PartialEq, Eq, Structural)]
pub struct Flags {
    /// The composed flag bits.
    pub bits: u32,
}

impl Flags {
    /// The flag set with exactly the given bits.
    pub fn from_bits(bits: u32) -> (flags: Flags)
        ensures
            flags.bits == bits,
    {
        Flags { bits }
    }

    /// The union of two flag sets.
    pub fn union(self, other: Flags) -> (flags: Flags)
        ensures
            flags.bits == self.bits | other.bits,
    {
        Flags { bits: self.bits | other.bits }
    }
}

/// The bitset of file status flags applied to event descriptors.
#[derive(Clone, Copy, Debug, PartialEq, Eq, Structural)]
pub struct EventFlags {
    /// The composed flag bits.
    pub bits: u32,
}

impl EventFlags {
    /// The flag set with exactly the given bits.
    pub fn from_bits(bits: u32) -> (flags: EventFlags)
        ensures
            flags.bits == bits,
    {
        EventFlags { bits }
    }

    /// The union of two flag sets.
    pub fn union(self, other: EventFlags) -> (flags: EventFlags)
        ensures
            flags.bits == self.bits | other.bits,
    {
        EventFlags { bits: self.bits | other.bits }
    }
}

/// The flag word handed to the channel-creation call for a blocking
/// channel of the given mode, close-on-exec set.
pub fn blocking_init_flags(mode: FanotifyMode) -> (flags: u32)
    ensures
        flags == FAN_CLOEXEC | spec_fan_class(mode),
{
    FAN_CLOEXEC | mode.to_fan_class()
}

/// The flag word handed to the channel-creation call for a non-blocking
/// channel of the given mode, close-on-exec set.
pub fn nonblocking_init_flags(mode: FanotifyMode) -> (flags: u32)
    ensures
        flags == FAN_CLOEXEC | FAN_NONBLOCK | spec_fan_class(mode),
{
    FAN_CLOEXEC | FAN_NONBLOCK | mode.to_fan_class()
}

/// The file status flags applied to event descriptors of channels created
/// through [`blocking_init_flags`] and [`nonblocking_init_flags`]:
/// read-only, close-on-exec.
pub fn default_event_flags() -> (flags: u32)
    ensures
        flags == O_CLOEXEC | O_RDONLY,
{
    O_CLOEXEC | O_RDONLY
}

/// What a mark request does: add to, remove from, or flush the marks of a
/// channel.
#[derive(Clone, Copy, Debug, PartialEq, Eq, Structural)]
pub enum MarkAction {
    /// Add the masked events to the mark.
    Add,
    /// Remove the masked events from the mark.
    Remove,
    /// Flush all marks of the selected kind.
    Flush,
}

/// What filesystem object a mark request attaches to.
#[derive(Clone, Copy, Debug, PartialEq, Eq, Structural)]
pub enum MarkTarget {
    /// The inode named by the path.
    Inode,
    /// The mount point containing the path.
    Mount,
    /// The whole filesystem containing the path.
    Filesystem,
}

/// The flag word of a mark request.
pub open spec fn spec_mark_flags(action: MarkAction, target: MarkTarget) -> u32 {
    (match action {
        MarkAction::Add => FAN_MARK_ADD,
        MarkAction::Remove => FAN_MARK_REMOVE,
        MarkAction::Flush => FAN_MARK_FLUSH,
    }) | (match target {
        MarkTarget::Inode => FAN_MARK_INODE,
        MarkTarget::Mount => FAN_MARK_MOUNT,
        MarkTarget::Filesystem => FAN_MARK_FILESYSTEM,
    })
}

/// Composes the flag word handed to the external mark call.
pub fn mark_flags(action: MarkAction, target: MarkTarget) -> (flags: u32)
    ensures
        flags == spec_mark_flags(action, target),
{
    let action_bits = match action {
        MarkAction::Add => FAN_MARK_ADD,
        MarkAction::Remove => FAN_MARK_REMOVE,
        MarkAction::Flush => FAN_MARK_FLUSH,
    };
    let target_bits = match target {
        MarkTarget::Inode => FAN_MARK_INODE,
        MarkTarget::Mount => FAN_MARK_MOUNT,
        MarkTarget::Filesystem => FAN_MARK_FILESYSTEM,
    };
    action_bits | target_bits
}

/// Builder composing the delivery class, behavior flags and event-descriptor
/// flags of a channel; [`FanotifyBuilder::init_flags`] yields the word for
/// the external channel-creation call.
#[derive(Clone, Copy, Debug, PartialEq, Eq, Structural)]
pub struct FanotifyBuilder {
    /// The delivery class.
    pub class: FanotifyMode,
    /// The composed behavior flags, close-on-exec always included.
    pub flags: u32,
    /// The file status flags for event descriptors.
    pub event_flags: u32,
}

impl FanotifyBuilder {
    /// The default configuration: notification-only class, close-on-exec
    /// on the channel and on event descriptors.
    pub fn new() -> (builder: FanotifyBuilder)
        ensures
            builder.class == FanotifyMode::NOTIF,
            builder.flags == FAN_CLOEXEC,
            builder.event_flags == O_CLOEXEC,
    {
        FanotifyBuilder { class: FanotifyMode::NOTIF, flags: FAN_CLOEXEC, event_flags: O_CLOEXEC }
    }

    /// The same configuration with the given delivery class.
    pub fn with_class(self, class: FanotifyMode) -> (builder: FanotifyBuilder)
        ensures
            builder.class == class,
            builder.flags == self.flags,
            builder.event_flags == self.event_flags,
    {
        FanotifyBuilder { class, ..self }
    }

    /// The same configuration with the given behavior flags; close-on-exec
    /// stays set.
    pub fn with_flags(self, flags: Flags) -> (builder: FanotifyBuilder)
        ensures
            builder.class == self.class,
            builder.flags == FAN_CLOEXEC | flags.bits,
            builder.event_flags == self.event_flags,
    {
        FanotifyBuilder { flags: FAN_CLOEXEC | flags.bits, ..self }
    }

    /// The same configuration with the given event-descriptor flags.
    pub fn with_event_flags(self, event_flags: EventFlags) -> (builder: FanotifyBuilder)
        ensures
            builder.class == self.class,
            builder.flags == self.flags,
            builder.event_flags == event_flags.bits,
    {
        FanotifyBuilder { event_flags: event_flags.bits, ..self }
    }

    /// The flag word handed to the external channel-creation call: the
    /// composed behavior flags united with the class bits.
    pub fn init_flags(&self) -> (flags: u32)
        ensures
            flags == self.flags | spec_fan_class(self.class),
    {
        self.flags | self.class.to_fan_class()
    }
}

impl Default for FanotifyBuilder {
    /// The default configuration, as [`FanotifyBuilder::new`] builds it.
    fn default() -> (builder: FanotifyBuilder)
        ensures
            builder.class == FanotifyMode::NOTIF,
            builder.flags == FAN_CLOEXEC,
            builder.event_flags == O_CLOEXEC,
    {
        FanotifyBuilder::new()
    }
}

} // verus!
