use interustception::device::{next_instance, DeviceContext, PdoContext};
use interustception::foreign::{ConnectData, KeyboardAttributes, KEYBOARD_INPUT_DATA_SIZE};
use interustception::ioctl::{
    ctl_code, KeyboardIoctl, FILE_ANY_ACCESS, FILE_DEVICE_KEYBOARD, FILE_DEVICE_UNKNOWN,
    FILE_READ_DATA, GET_FILTER_CODE, GET_HARDWARE_ID_CODE, GET_PRECEDENCE_CODE,
    KEYBOARD_CONNECT_CODE, KEYBOARD_DISCONNECT_CODE, KEYBOARD_QUERY_ATTRIBUTES_CODE,
    METHOD_BUFFERED, METHOD_NEITHER, PDO_KEYBOARD_ATTRIBUTES_CODE, READ_CODE, SET_EVENT_CODE,
    SET_FILTER_CODE, SET_PRECEDENCE_CODE, WRITE_CODE,
};
use interustception::registry::ConnectionRegistry;
use interustception::relay::{batch_len, relay_input, RelayOutcome};
use interustception::status::{
    check_status, nt_success, to_status, Error, ErrorCode, STATUS_BUFFER_TOO_SMALL,
    STATUS_NOT_IMPLEMENTED, STATUS_SHARING_VIOLATION, STATUS_SUCCESS,
};

#[test]
fn status_words_carry_the_agreed_values() {
    assert_eq!(STATUS_SUCCESS, 0);
    assert_eq!(STATUS_NOT_IMPLEMENTED, 0xC000_0002u32 as i32);
    assert_eq!(STATUS_BUFFER_TOO_SMALL, 0xC000_0023u32 as i32);
    assert_eq!(STATUS_SHARING_VIOLATION, 0xC000_0043u32 as i32);
}

#[test]
fn success_is_non_negative() {
    assert!(nt_success(0));
    assert!(nt_success(1));
    assert!(nt_success(0x40000000));
    assert!(!nt_success(-1));
    assert!(!nt_success(STATUS_BUFFER_TOO_SMALL));
}

#[test]
fn check_status_wraps_failures_with_their_place() {
    assert_eq!(check_status(0, ErrorCode::QueueCreationFailed), Ok(()));
    let e = check_status(-5, ErrorCode::DeviceCreationFailed).unwrap_err();
    assert_eq!(
        e,
        Error::NtStatusError { nt_status: -5, error_code: ErrorCode::DeviceCreationFailed }
    );
    assert_eq!(e.nt_status(), -5);
}

#[test]
fn to_status_collapses_results() {
    let ok: Result<u32, Error> = Ok(7);
    assert_eq!(to_status(&ok), STATUS_SUCCESS);
    let err: Result<u32, Error> = Err(Error::NtStatusError {
        nt_status: -9,
        error_code: ErrorCode::KeyboardConnectRequestRetrievalFailed,
    });
    assert_eq!(to_status(&err), -9);
}

#[test]
fn control_codes_follow_the_formula() {
    assert_eq!(ctl_code(FILE_DEVICE_UNKNOWN, 0x801, METHOD_BUFFERED, FILE_ANY_ACCESS), 0x0022_2004);
    assert_eq!(ctl_code(FILE_DEVICE_KEYBOARD, 0x80, METHOD_NEITHER, FILE_ANY_ACCESS), 0x000B_0203);
    assert_eq!(ctl_code(FILE_DEVICE_KEYBOARD, 0x100, METHOD_NEITHER, FILE_ANY_ACCESS), 0x000B_0403);
    assert_eq!(ctl_code(FILE_DEVICE_KEYBOARD, 0x800, METHOD_BUFFERED, FILE_READ_DATA), 0x000B_6000);
}

#[test]
fn named_codes_carry_their_wire_values() {
    assert_eq!(SET_PRECEDENCE_CODE, 0x0022_2004);
    assert_eq!(GET_PRECEDENCE_CODE, 0x0022_2008);
    assert_eq!(SET_FILTER_CODE, 0x0022_2010);
    assert_eq!(GET_FILTER_CODE, 0x0022_2020);
    assert_eq!(SET_EVENT_CODE, 0x0022_2040);
    assert_eq!(WRITE_CODE, 0x0022_2080);
    assert_eq!(READ_CODE, 0x0022_2100);
    assert_eq!(GET_HARDWARE_ID_CODE, 0x0022_2200);
    assert_eq!(KEYBOARD_CONNECT_CODE, 0x000B_0203);
    assert_eq!(KEYBOARD_DISCONNECT_CODE, 0x000B_0403);
    assert_eq!(KEYBOARD_QUERY_ATTRIBUTES_CODE, 720896);
    assert_eq!(PDO_KEYBOARD_ATTRIBUTES_CODE, 0x000B_6000);
}

#[test]
fn every_named_operation_round_trips_through_its_code() {
    let all = [
        KeyboardIoctl::SetPrecedence,
        KeyboardIoctl::GetPrecedence,
        KeyboardIoctl::SetFiler,
        KeyboardIoctl::GetFilter,
        KeyboardIoctl::SetEvent,
        KeyboardIoctl::Write,
        KeyboardIoctl::Read,
        KeyboardIoctl::GetHardwareId,
        KeyboardIoctl::KeyboardConnect,
        KeyboardIoctl::KeyboardDisconnect,
        KeyboardIoctl::KeyboardQueryAttributes,
        KeyboardIoctl::PdoKeyboardAttributes,
    ];
    for k in all {
        assert_eq!(KeyboardIoctl::try_from_code(k.code()), Some(k));
    }
    assert_eq!(KeyboardIoctl::try_from_code(0xDEAD_BEEF), None);
    assert_eq!(KeyboardIoctl::try_from_code(0), None);
}

#[test]
fn batch_length_counts_whole_records() {
    assert_eq!(KEYBOARD_INPUT_DATA_SIZE, 12);
    assert_eq!(batch_len(1000, 1000), 0);
    assert_eq!(batch_len(0, 36), 3);
    assert_eq!(batch_len(0, 35), 2);
    assert_eq!(batch_len(120, 132), 1);
}

#[test]
fn relay_delivers_to_the_registered_pair() {
    let mut reg = ConnectionRegistry::new();
    assert_eq!(relay_input(&reg), RelayOutcome::Dropped);
    assert_eq!(reg.try_register(42, 101), Ok(()));
    assert_eq!(relay_input(&reg), RelayOutcome::Deliver { identity: 42, callback: 101 });
    reg.unregister();
    assert_eq!(relay_input(&reg), RelayOutcome::Dropped);
}

#[test]
fn fresh_device_context_is_disconnected_and_zeroed() {
    let ctx = DeviceContext::new(555);
    assert_eq!(ctx.raw_pdo_queue, 555);
    assert!(!ctx.registry.is_connected());
    assert_eq!(ctx.keyboard_attributes, KeyboardAttributes::zeroed());
    assert_eq!(
        ctx.registry.upper_connect_data,
        ConnectData { class_device_object: 0, class_service: 0 }
    );
}

#[test]
fn child_context_keeps_instance_and_parent_queue() {
    let pdo = PdoContext::new(1, 777);
    assert_eq!(pdo.instance, 1);
    assert_eq!(pdo.queue, 777);
}

#[test]
fn instance_numbers_are_sequential_from_one() {
    assert_eq!(next_instance(0), 1);
    assert_eq!(next_instance(1), 2);
    assert_eq!(next_instance(41), 42);
}
