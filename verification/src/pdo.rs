//! The Virtual Child Device Relay: serves cached hardware attributes without
//! a live round-trip to the hardware stack.
//!
//! An attributes-read arriving on the child device is forwarded to the
//! primary device's queue; any other operation on the child device is
//! completed at once with a generic success and no payload.  An
//! attributes-read arriving on the primary device's own secondary queue is
//! the fast path: it is satisfied directly from the attribute cache,
//! provided the caller's output region is large enough.

use vstd::prelude::*;
use crate::foreign::{
    attribute_bytes, encode_attributes, KeyboardAttributes, KEYBOARD_ATTRIBUTES_SIZE,
};
use crate::ioctl::PDO_KEYBOARD_ATTRIBUTES_CODE;
use crate::status::{
    is_success, nt_success, STATUS_BUFFER_TOO_SMALL, STATUS_NOT_IMPLEMENTED, STATUS_SUCCESS,
};

verus! {

/// The record a direct cache read serves, when it serves one: the wire
/// encoding of the cache, exactly when the operation is the attributes-read
/// code, the output region holds at least a whole record, and the region's
/// descriptor was retrieved successfully.
pub open spec fn served_record(
    cache: KeyboardAttributes,
    io_control_code: u32,
    output_buffer_length: usize,
    retrieve_status: i32,
) -> Option<Seq<u8>> {
    if io_control_code == PDO_KEYBOARD_ATTRIBUTES_CODE
        && output_buffer_length >= KEYBOARD_ATTRIBUTES_SIZE && is_success(retrieve_status) {
        Some(attribute_bytes(cache))
    } else {
        None
    }
}

/// First stage of the fast path: either the request is completed at once
/// with a failure status and zero bytes, or the full record is handed out to
/// be copied into the caller's output region.
pub enum DirectReadStep {
    Complete { status: i32, bytes_transferred: usize },
    CopyOut { data: Vec<u8> },
}

/// Serves an attributes-read from the cache.  An operation the child device
/// does not expose fails as not implemented; an output region smaller than
/// the record fails as too small with zero bytes transferred — the caller
/// never observes a partial write; a failure retrieving the output region's
/// descriptor is reported as-is; otherwise the full record — the wire
/// encoding of the cache — is handed out.
pub fn serve_direct_read(
    cache: &KeyboardAttributes,
    io_control_code: u32,
    output_buffer_length: usize,
    retrieve_status: i32,
) -> (r: DirectReadStep)
    ensures
        io_control_code != PDO_KEYBOARD_ATTRIBUTES_CODE ==> r == (DirectReadStep::Complete {
            status: STATUS_NOT_IMPLEMENTED,
            bytes_transferred: 0,
        }),
        io_control_code == PDO_KEYBOARD_ATTRIBUTES_CODE
            && output_buffer_length < KEYBOARD_ATTRIBUTES_SIZE ==> r == (DirectReadStep::Complete {
            status: STATUS_BUFFER_TOO_SMALL,
            bytes_transferred: 0,
        }),
        io_control_code == PDO_KEYBOARD_ATTRIBUTES_CODE
            && output_buffer_length >= KEYBOARD_ATTRIBUTES_SIZE
            && !is_success(retrieve_status) ==> r == (DirectReadStep::Complete {
            status: retrieve_status,
            bytes_transferred: 0,
        }),
        (r matches DirectReadStep::CopyOut { data } ==> data@ == attribute_bytes(*cache)),
        (r is CopyOut <==> served_record(
            *cache,
            io_control_code,
            output_buffer_length,
            retrieve_status,
        ) is Some),
{
    if io_control_code != PDO_KEYBOARD_ATTRIBUTES_CODE {
        DirectReadStep::Complete { status: STATUS_NOT_IMPLEMENTED, bytes_transferred: 0 }
    } else if output_buffer_length < KEYBOARD_ATTRIBUTES_SIZE {
        DirectReadStep::Complete { status: STATUS_BUFFER_TOO_SMALL, bytes_transferred: 0 }
    } else if !nt_success(retrieve_status) {
        DirectReadStep::Complete { status: retrieve_status, bytes_transferred: 0 }
    } else {
        DirectReadStep::CopyOut { data: encode_attributes(cache) }
    }
}

/// Second stage of the fast path, after the host copied the record into the
/// caller's output region: a successful copy completes with success and the
/// whole record's byte count; a failed copy completes with the copy's status
/// and zero bytes.
pub fn finish_direct_read(copy_status: i32) -> (r: (i32, usize))
    ensures
        is_success(copy_status) ==> r == (STATUS_SUCCESS, KEYBOARD_ATTRIBUTES_SIZE),
        !is_success(copy_status) ==> r == (copy_status, 0usize),
{
    if nt_success(copy_status) {
        (STATUS_SUCCESS, KEYBOARD_ATTRIBUTES_SIZE)
    } else {
        (copy_status, 0)
    }
}

/// Routing of a request arriving at the child device's queue.
#[derive(Debug, Copy, Clone, PartialEq, Eq, Structural)]
pub enum ChildRoute {
    ForwardToParent,
    CompleteSuccess,
}

/// Routes a child-device request: the one attributes-read operation the
/// child exposes is forwarded — fire-and-forget — to the primary device's
/// queue; anything else is completed immediately with a generic success and
/// no payload.
pub fn route_child_request(io_control_code: u32) -> (r: ChildRoute)
    ensures
        io_control_code == PDO_KEYBOARD_ATTRIBUTES_CODE ==> r == ChildRoute::ForwardToParent,
        io_control_code != PDO_KEYBOARD_ATTRIBUTES_CODE ==> r == ChildRoute::CompleteSuccess,
{
    if io_control_code == PDO_KEYBOARD_ATTRIBUTES_CODE {
        ChildRoute::ForwardToParent
    } else {
        ChildRoute::CompleteSuccess
    }
}

/// After a forward to the parent queue: a synchronous forward failure is
/// completed locally with that status; on success the request now belongs to
/// the parent's queue and the child-side handler is done with it.
pub fn after_parent_forward(forward_status: i32) -> (r: Option<i32>)
    ensures
        is_success(forward_status) ==> r is None,
        !is_success(forward_status) ==> r == Some(forward_status),
{
    if nt_success(forward_status) {
        None
    } else {
        Some(forward_status)
    }
}

/// A cached-attributes read is serviced to identical bytes whichever way it
/// arrives: served on the primary device's fast path, or forwarded from the
/// child device to the parent's queue and served there.  Every successful
/// read hands out exactly the wire encoding of the cache, whatever the
/// output region's size beyond the minimum and whatever the retrieve step
/// reported, so two successful reads over the same cache agree byte for
/// byte.
pub proof fn lemma_read_paths_serve_identical_bytes(
    cache: KeyboardAttributes,
    direct_output_length: usize,
    direct_retrieve_status: i32,
    forwarded_output_length: usize,
    forwarded_retrieve_status: i32,
)
    requires
        served_record(
            cache,
            PDO_KEYBOARD_ATTRIBUTES_CODE,
            direct_output_length,
            direct_retrieve_status,
        ) is Some,
        served_record(
            cache,
            PDO_KEYBOARD_ATTRIBUTES_CODE,
            forwarded_output_length,
            forwarded_retrieve_status,
        ) is Some,
    ensures
        served_record(
            cache,
            PDO_KEYBOARD_ATTRIBUTES_CODE,
            direct_output_length,
            direct_retrieve_status,
        ) == served_record(
            cache,
            PDO_KEYBOARD_ATTRIBUTES_CODE,
            forwarded_output_length,
            forwarded_retrieve_status,
        ),
{
}

/// A fresh capture by the completion continuation is visible to every
/// subsequent direct cache read: after the cache is refreshed with a record,
/// a successful read serves exactly that record's wire encoding.
pub proof fn lemma_capture_visible_to_reads(
    fresh: KeyboardAttributes,
    output_length: usize,
    retrieve_status: i32,
)
    requires
        output_length >= KEYBOARD_ATTRIBUTES_SIZE,
        is_success(retrieve_status),
    ensures
        served_record(
            fresh,
            PDO_KEYBOARD_ATTRIBUTES_CODE,
            output_length,
            retrieve_status,
        ) == Some(attribute_bytes(fresh)),
{
}

} // verus!
