use interustception::engine::{on_forward_completion, CompletionParams};
use interustception::foreign::{
    encode_attributes, KeyboardAttributes, KeyboardId, KeyboardTypematicParameters,
    KEYBOARD_ATTRIBUTES_SIZE,
};
use interustception::ioctl::{KEYBOARD_QUERY_ATTRIBUTES_CODE, PDO_KEYBOARD_ATTRIBUTES_CODE};
use interustception::pdo::{
    after_parent_forward, finish_direct_read, route_child_request, serve_direct_read, ChildRoute,
    DirectReadStep,
};
use interustception::status::{
    STATUS_BUFFER_TOO_SMALL, STATUS_NOT_IMPLEMENTED, STATUS_SUCCESS,
};

fn sample_attributes() -> KeyboardAttributes {
    KeyboardAttributes {
        keyboard_identifier: KeyboardId { keyboard_type: 4, subtype: 7 },
        keyboard_mode: 1,
        number_of_function_keys: 12,
        number_of_indicators: 3,
        number_of_keys_total: 101,
        input_data_queue_length: 0x0102_0304,
        key_repeat_minimum: KeyboardTypematicParameters { unit_id: 1, rate: 0x0A0B, delay: 0x0C0D },
        key_repeat_maximum: KeyboardTypematicParameters { unit_id: 2, rate: 30, delay: 40 },
    }
}

#[test]
fn attribute_record_encodes_to_the_exact_wire_bytes() {
    let bytes = encode_attributes(&sample_attributes());
    assert_eq!(
        bytes,
        vec![
            4, 7, // identifier: type, subtype
            1, 0, // mode
            12, 0, // function keys
            3, 0, // indicators
            101, 0, // keys total
            0, 0, // padding
            0x04, 0x03, 0x02, 0x01, // queue length, little endian
            1, 0, 0x0B, 0x0A, 0x0D, 0x0C, // repeat minimum
            2, 0, 30, 0, 40, 0, // repeat maximum
        ]
    );
    assert_eq!(bytes.len(), KEYBOARD_ATTRIBUTES_SIZE);
}

#[test]
fn zeroed_record_encodes_to_zero_bytes() {
    let bytes = encode_attributes(&KeyboardAttributes::zeroed());
    assert_eq!(bytes, vec![0u8; 28]);
}

#[test]
fn short_output_region_fails_too_small_with_zero_bytes() {
    // Output region smaller than the attribute record on the direct-read
    // path: too-small status and zero bytes transferred.
    let cache = sample_attributes();
    match serve_direct_read(&cache, PDO_KEYBOARD_ATTRIBUTES_CODE, 27, 0) {
        DirectReadStep::Complete { status, bytes_transferred } => {
            assert_eq!(status, STATUS_BUFFER_TOO_SMALL);
            assert_eq!(bytes_transferred, 0);
        },
        DirectReadStep::CopyOut { .. } => panic!("a short region must not be written"),
    }
}

#[test]
fn empty_output_region_fails_too_small() {
    match serve_direct_read(&sample_attributes(), PDO_KEYBOARD_ATTRIBUTES_CODE, 0, 0) {
        DirectReadStep::Complete { status, bytes_transferred } => {
            assert_eq!(status, STATUS_BUFFER_TOO_SMALL);
            assert_eq!(bytes_transferred, 0);
        },
        DirectReadStep::CopyOut { .. } => panic!("an empty region must not be written"),
    }
}

#[test]
fn unknown_operation_on_the_direct_path_is_not_implemented() {
    match serve_direct_read(&sample_attributes(), 0xDEAD_BEEF, 100, 0) {
        DirectReadStep::Complete { status, bytes_transferred } => {
            assert_eq!(status, STATUS_NOT_IMPLEMENTED);
            assert_eq!(bytes_transferred, 0);
        },
        DirectReadStep::CopyOut { .. } => panic!("only the attributes read serves data"),
    }
}

#[test]
fn retrieve_failure_is_reported_as_is() {
    match serve_direct_read(&sample_attributes(), PDO_KEYBOARD_ATTRIBUTES_CODE, 28, -21) {
        DirectReadStep::Complete { status, bytes_transferred } => {
            assert_eq!(status, -21);
            assert_eq!(bytes_transferred, 0);
        },
        DirectReadStep::CopyOut { .. } => panic!("no copy after a failed retrieve"),
    }
}

#[test]
fn successful_direct_read_serves_the_whole_record() {
    let cache = sample_attributes();
    match serve_direct_read(&cache, PDO_KEYBOARD_ATTRIBUTES_CODE, 28, 0) {
        DirectReadStep::CopyOut { data } => assert_eq!(data, encode_attributes(&cache)),
        DirectReadStep::Complete { .. } => panic!("a large enough region is served"),
    }
    assert_eq!(finish_direct_read(0), (STATUS_SUCCESS, KEYBOARD_ATTRIBUTES_SIZE));
    assert_eq!(finish_direct_read(-3), (-3, 0));
}

#[test]
fn both_read_paths_serve_identical_bytes() {
    // The same request, served on the primary device's fast path and served
    // after the child device forwarded it to the parent's queue, yields the
    // same bytes: both are the wire encoding of the same cache.
    let cache = sample_attributes();
    let direct = match serve_direct_read(&cache, PDO_KEYBOARD_ATTRIBUTES_CODE, 28, 0) {
        DirectReadStep::CopyOut { data } => data,
        DirectReadStep::Complete { .. } => panic!("fast path must serve"),
    };
    assert_eq!(route_child_request(PDO_KEYBOARD_ATTRIBUTES_CODE), ChildRoute::ForwardToParent);
    assert_eq!(after_parent_forward(0), None);
    let forwarded = match serve_direct_read(&cache, PDO_KEYBOARD_ATTRIBUTES_CODE, 512, 0) {
        DirectReadStep::CopyOut { data } => data,
        DirectReadStep::Complete { .. } => panic!("forwarded path must serve"),
    };
    assert_eq!(direct, forwarded);
}

#[test]
fn captured_attributes_are_visible_to_later_direct_reads() {
    let mut cache = KeyboardAttributes::zeroed();
    let fresh = sample_attributes();
    let params = CompletionParams {
        status: 0,
        is_internal_device_control: true,
        io_control_code: KEYBOARD_QUERY_ATTRIBUTES_CODE,
        output_length: 28,
    };
    let outcome = on_forward_completion(&mut cache, params, Ok(fresh));
    assert_eq!(outcome.final_status, 0);
    match serve_direct_read(&cache, PDO_KEYBOARD_ATTRIBUTES_CODE, 28, 0) {
        DirectReadStep::CopyOut { data } => assert_eq!(data, encode_attributes(&fresh)),
        DirectReadStep::Complete { .. } => panic!("the refreshed cache is served"),
    }
}

#[test]
fn other_operations_on_the_child_device_complete_with_success() {
    assert_eq!(route_child_request(0), ChildRoute::CompleteSuccess);
    assert_eq!(route_child_request(0xDEAD_BEEF), ChildRoute::CompleteSuccess);
}

#[test]
fn failed_parent_forward_is_completed_locally_with_that_status() {
    assert_eq!(after_parent_forward(-17), Some(-17));
}
