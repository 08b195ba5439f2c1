//! A verified decoder and encoder for the kernel's fanotify interface.
//!
//! The crate decodes the kernel-delivered stream of filesystem-activity
//! records into structured events, manages the lifecycle of the descriptors
//! those events own, and encodes access-control decisions back into the
//! channel's wire format.  The syscalls themselves — creating a channel,
//! registering marks, reading and writing raw bytes — are external
//! collaborators that a thin unverified shell performs on plain values
//! computed and checked here.

pub mod abi;
pub mod channel;
pub mod errors;
pub mod event;
pub mod mask;
pub mod records;
pub mod response;
pub mod wire;
