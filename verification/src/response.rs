//! Response encoder: builds the fixed-layout allow/deny record written back
//! to the channel for permission-class events.
//!
//! The wire layout is `descriptor:i32, response_code:u32`, little-endian,
//! eight bytes in all, with `Allow` mapped to `0x01` and `Deny` to `0x02`.
//! Writing the bytes is the caller's external transport; encoding them is
//! verified here.

use vstd::bytes::spec_u32_to_le_bytes;
use vstd::bytes::u32_to_le_bytes;
use vstd::prelude::*;

use crate::abi::FAN_ALLOW;
use crate::abi::FAN_DENY;

verus! {

/// A two-valued access-control decision for a permission-class event.
#[derive(Clone, Copy, Debug, PartialEq, Eq, Structural)]
pub enum FanotifyResponse {
    /// Allow the blocked file operation.
    Allow,
    /// Deny the blocked file operation.
    Deny,
}

/// The wire code of a decision: `Allow` is `0x01`, `Deny` is `0x02`.
pub open spec fn spec_response_code(response: FanotifyResponse) -> u32 {
    match response {
        FanotifyResponse::Allow => FAN_ALLOW,
        FanotifyResponse::Deny => FAN_DENY,
    }
}

/// The response record exactly as the kernel expects it on the wire.
#[allow(non_camel_case_types)]
#[derive(Clone, Copy, Debug, PartialEq, Eq, Structural)]
pub struct fanotify_response {
    /// Descriptor of the event being answered.
    pub fd: i32,
    /// Wire code of the decision.
    pub response: u32,
}

impl FanotifyResponse {
    /// The wire code of this decision.
    pub fn code(self) -> (code: u32)
        ensures
            code == spec_response_code(self),
    {
        match self {
            FanotifyResponse::Allow => FAN_ALLOW,
            FanotifyResponse::Deny => FAN_DENY,
        }
    }
}

/// The eight bytes of a decision record: the descriptor field first, then
/// the response code.
pub open spec fn spec_response_bytes(fd: i32, response: FanotifyResponse) -> Seq<u8> {
    spec_u32_to_le_bytes(fd as u32) + spec_u32_to_le_bytes(spec_response_code(response))
}

/// Builds the response record for a decision on the event owning `fd`.
pub fn build_response(fd: i32, response: FanotifyResponse) -> (record: fanotify_response)
    ensures
        record.fd == fd,
        record.response == spec_response_code(response),
{
    fanotify_response { fd, response: response.code() }
}

/// Serializes a decision into its fixed eight-byte wire form, descriptor
/// field first, to be written to the channel in a single atomic write.
///
/// Encoding has no other effect; in particular it does not release the
/// responded-to descriptor, which stays with whichever event owns it.
pub fn encode_response(fd: i32, response: FanotifyResponse) -> (bytes: Vec<u8>)
    ensures
        bytes@ == spec_response_bytes(fd, response),
        bytes@.len() == 8,
{
    let mut bytes = u32_to_le_bytes(fd as u32);
    let mut tail = u32_to_le_bytes(response.code());
    bytes.append(&mut tail);
    proof {
        vstd::bytes::lemma_auto_spec_u32_to_from_le_bytes();
        assert(bytes@ =~= spec_response_bytes(fd, response));
    }
    bytes
}

} // verus!
