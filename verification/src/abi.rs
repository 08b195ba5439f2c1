//! Numeric constants of the kernel's fanotify interface.
//!
//! Every value here is fixed by the kernel ABI; the decoder and encoders in
//! this crate must use these exact values rather than reinvent them.

use vstd::prelude::*;

verus! {

// ---------------------------------------------------------------------------
// Event mask bits (u64), reported in the `mask` field of an event header and
// used when registering marks.
// ---------------------------------------------------------------------------

/// A file or directory was accessed (read).
pub const FAN_ACCESS: u64 = 0x0000_0001;

/// A file was modified (write).
pub const FAN_MODIFY: u64 = 0x0000_0002;

/// The attributes of a file or directory changed.
pub const FAN_ATTRIB: u64 = 0x0000_0004;

/// A writable file was closed.
pub const FAN_CLOSE_WRITE: u64 = 0x0000_0008;

/// A read-only file or directory was closed.
pub const FAN_CLOSE_NOWRITE: u64 = 0x0000_0010;

/// A file or directory was opened.
pub const FAN_OPEN: u64 = 0x0000_0020;

/// A file or directory was moved from a marked parent directory.
pub const FAN_MOVED_FROM: u64 = 0x0000_0040;

/// A file or directory was moved to a marked parent directory.
pub const FAN_MOVED_TO: u64 = 0x0000_0080;

/// A file or directory was created in a marked parent directory.
pub const FAN_CREATE: u64 = 0x0000_0100;

/// A file or directory was deleted from a marked parent directory.
pub const FAN_DELETE: u64 = 0x0000_0200;

/// A marked file or directory itself was deleted.
pub const FAN_DELETE_SELF: u64 = 0x0000_0400;

/// A marked file or directory itself was moved.
pub const FAN_MOVE_SELF: u64 = 0x0000_0800;

/// A file was opened with the intent to be executed.
pub const FAN_OPEN_EXEC: u64 = 0x0000_1000;

/// The event queue overflowed; the record carries no descriptor.
pub const FAN_Q_OVERFLOW: u64 = 0x0000_4000;

/// Permission to open a file or directory was requested.
pub const FAN_OPEN_PERM: u64 = 0x0001_0000;

/// Permission to read a file or directory was requested.
pub const FAN_ACCESS_PERM: u64 = 0x0002_0000;

/// Permission to open a file for execution was requested.
pub const FAN_OPEN_EXEC_PERM: u64 = 0x0004_0000;

/// Events for the immediate children of marked directories shall be created.
pub const FAN_EVENT_ON_CHILD: u64 = 0x0800_0000;

/// Create events for directories themselves.
pub const FAN_ONDIR: u64 = 0x4000_0000;

/// Composite: a file was closed (write or no-write close).
pub const FAN_CLOSE: u64 = FAN_CLOSE_WRITE | FAN_CLOSE_NOWRITE;

/// Composite: a file or directory was moved (from or to).
pub const FAN_MOVE: u64 = FAN_MOVED_FROM | FAN_MOVED_TO;

// ---------------------------------------------------------------------------
// Flags (u32) for creating a notification channel.
// ---------------------------------------------------------------------------

/// Set the close-on-exec flag on the new channel descriptor.
pub const FAN_CLOEXEC: u32 = 0x0000_0001;

/// Reads from the channel descriptor do not block.
pub const FAN_NONBLOCK: u32 = 0x0000_0002;

/// Notification-only delivery class; permission events are not possible.
pub const FAN_CLASS_NOTIF: u32 = 0x0000_0000;

/// Content delivery class; permission events are delivered once files hold
/// their final content.
pub const FAN_CLASS_CONTENT: u32 = 0x0000_0004;

/// Pre-content delivery class; permission events are delivered before files
/// hold their final content.
pub const FAN_CLASS_PRE_CONTENT: u32 = 0x0000_0008;

/// Remove the limit on the number of queued events.
pub const FAN_UNLIMITED_QUEUE: u32 = 0x0000_0010;

/// Remove the limit on the number of marks.
pub const FAN_UNLIMITED_MARKS: u32 = 0x0000_0020;

/// Make audit records for permission decisions.
pub const FAN_ENABLE_AUDIT: u32 = 0x0000_0040;

/// Report the thread id of the originating thread instead of its process id.
pub const FAN_REPORT_TID: u32 = 0x0000_0100;

/// Report directory identity information with events.
pub const FAN_REPORT_DIR_FID: u32 = 0x0000_0400;

/// Report entry names with directory events.
pub const FAN_REPORT_NAME: u32 = 0x0000_0800;

// ---------------------------------------------------------------------------
// File status flags (u32) applied to the descriptors that events carry.
// ---------------------------------------------------------------------------

/// Open event descriptors read-only.
pub const O_RDONLY: u32 = 0;

/// Open event descriptors write-only.
pub const O_WRONLY: u32 = 1;

/// Open event descriptors read-write.
pub const O_RDWR: u32 = 2;

/// Allow large files to be opened.
pub const O_LARGEFILE: u32 = 0;

/// Set the close-on-exec flag on event descriptors.
pub const O_CLOEXEC: u32 = 0x0008_0000;

/// Open event descriptors in append mode.
pub const O_APPEND: u32 = 1024;

/// Synchronized writes of file data.
pub const O_DSYNC: u32 = 4096;

/// Do not update the access time of files read through event descriptors.
pub const O_NOATIME: u32 = 0o1000000;

/// Open event descriptors non-blocking.
pub const O_NONBLOCK: u32 = 2048;

/// Synchronized writes of file data and metadata.
pub const O_SYNC: u32 = 1052672;

// ---------------------------------------------------------------------------
// Mark flags (u32) for registering, removing and flushing watches.
// ---------------------------------------------------------------------------

/// Add the events in the mask to the mark.
pub const FAN_MARK_ADD: u32 = 0x0000_0001;

/// Remove the events in the mask from the mark.
pub const FAN_MARK_REMOVE: u32 = 0x0000_0002;

/// Mark the link itself if the path names a symbolic link.
pub const FAN_MARK_DONT_FOLLOW: u32 = 0x0000_0004;

/// Fail unless the marked object is a directory.
pub const FAN_MARK_ONLYDIR: u32 = 0x0000_0008;

/// Mark the inode named by the path (the default).
pub const FAN_MARK_INODE: u32 = 0x0000_0000;

/// Mark the mount point containing the path.
pub const FAN_MARK_MOUNT: u32 = 0x0000_0010;

/// Add or remove the events in the mask on the ignore mask.
pub const FAN_MARK_IGNORED_MASK: u32 = 0x0000_0020;

/// Let the ignore mask survive modify events.
pub const FAN_MARK_IGNORED_SURV_MODIFY: u32 = 0x0000_0040;

/// Remove all marks of the selected kind from the channel.
pub const FAN_MARK_FLUSH: u32 = 0x0000_0080;

/// Mark the whole filesystem containing the path.
pub const FAN_MARK_FILESYSTEM: u32 = 0x0000_0100;

// ---------------------------------------------------------------------------
// Directory-descriptor sentinels for path resolution.
// ---------------------------------------------------------------------------

/// Resolve relative paths against the current working directory.
pub const AT_FDCWD: i32 = -100;

/// Do not follow a trailing symbolic link.
pub const AT_SYMLINK_NOFOLLOW: i32 = 0x100;

/// Remove a directory instead of a file.
pub const AT_REMOVEDIR: i32 = 0x200;

/// Follow a trailing symbolic link.
pub const AT_SYMLINK_FOLLOW: i32 = 0x400;

/// Do not trigger automounts on the terminal component.
pub const AT_NO_AUTOMOUNT: i32 = 0x800;

/// Allow an empty path, operating on the directory descriptor itself.
pub const AT_EMPTY_PATH: i32 = 0x1000;

// ---------------------------------------------------------------------------
// Responses, sentinels and layout constants.
// ---------------------------------------------------------------------------

/// Wire code allowing the blocked file operation.
pub const FAN_ALLOW: u32 = 0x01;

/// Wire code denying the blocked file operation.
pub const FAN_DENY: u32 = 0x02;

/// Descriptor sentinel: the event queue overflowed and the record carries no
/// usable descriptor.
pub const FAN_NOFD: i32 = -1;

/// Expected value of the structure-version byte of every event header.
///
/// A header carrying any other value means the kernel's reporting format no
/// longer matches this decoder, and the whole channel must be abandoned.
pub const FANOTIFY_METADATA_VERSION: u8 = 3;

/// Size in bytes of the fixed event header on the wire.
pub const FAN_EVENT_METADATA_LEN: usize = 24;

/// Size in bytes of the length-prefixed header that starts every additional
/// record: a type byte, a padding byte, and a 16-bit total length that
/// includes the header itself.
pub const FAN_EVENT_INFO_HEADER_LEN: usize = 4;

} // verus!
