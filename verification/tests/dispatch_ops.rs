use interustception::dispatch::{
    dispatch_internal_ioctl, on_keyboard_connect, route, DispatchDecision, DispatchRoute,
};
use interustception::foreign::ConnectData;
use interustception::ioctl::{
    KEYBOARD_CONNECT_CODE, KEYBOARD_DISCONNECT_CODE, KEYBOARD_QUERY_ATTRIBUTES_CODE,
    SET_PRECEDENCE_CODE,
};
use interustception::registry::ConnectionRegistry;
use interustception::status::STATUS_SHARING_VIOLATION;

#[test]
fn routing_of_the_interpreted_codes() {
    assert_eq!(route(KEYBOARD_CONNECT_CODE), DispatchRoute::Register);
    assert_eq!(route(KEYBOARD_DISCONNECT_CODE), DispatchRoute::Unregister);
    assert_eq!(route(KEYBOARD_QUERY_ATTRIBUTES_CODE), DispatchRoute::QueryAttributes);
}

#[test]
fn recognised_and_unrecognised_other_codes_pass_through() {
    assert_eq!(route(SET_PRECEDENCE_CODE), DispatchRoute::PassThrough);
    assert_eq!(route(0xDEAD_BEEF), DispatchRoute::PassThrough);
    assert_eq!(route(0), DispatchRoute::PassThrough);
}

#[test]
fn connect_substitutes_the_relay_entry_point() {
    // The registry keeps the caller's identity with the filter's relay
    // callback; the rewritten payload is the filter's own pair, not the
    // caller's original values.
    let mut reg = ConnectionRegistry::new();
    let caller = ConnectData { class_device_object: 42, class_service: 43 };
    let rewritten = on_keyboard_connect(&mut reg, Ok(caller), 100, 101).unwrap();
    assert_eq!(rewritten, ConnectData { class_device_object: 100, class_service: 101 });
    assert_eq!(reg.current(), Some((42, 101)));
    assert_ne!(reg.upper_connect_data, caller);
}

#[test]
fn connect_while_connected_fails_with_sharing_violation() {
    let mut reg = ConnectionRegistry::new();
    let caller = ConnectData { class_device_object: 42, class_service: 43 };
    assert!(on_keyboard_connect(&mut reg, Ok(caller), 100, 101).is_ok());
    let other = ConnectData { class_device_object: 50, class_service: 51 };
    let r = on_keyboard_connect(&mut reg, Ok(other), 100, 101);
    assert_eq!(r, Err(STATUS_SHARING_VIOLATION));
    assert_eq!(reg.current(), Some((42, 101)));
}

#[test]
fn connect_with_failed_payload_read_reports_it_and_mutates_nothing() {
    let mut reg = ConnectionRegistry::new();
    let r = on_keyboard_connect(&mut reg, Err(-5), 100, 101);
    assert_eq!(r, Err(-5));
    assert!(!reg.is_connected());
    assert_eq!(reg.current(), None);
}

#[test]
fn dispatch_connect_forwards_with_rewritten_payload() {
    let mut reg = ConnectionRegistry::new();
    let d = dispatch_internal_ioctl(
        &mut reg,
        KEYBOARD_CONNECT_CODE,
        Some(Ok(ConnectData { class_device_object: 42, class_service: 43 })),
        100,
        101,
    );
    assert_eq!(
        d,
        DispatchDecision::ForwardFireAndForget {
            rewrite: Some(ConnectData { class_device_object: 100, class_service: 101 }),
        }
    );
    assert_eq!(reg.current(), Some((42, 101)));
}

#[test]
fn dispatch_connect_while_connected_completes_locally() {
    let mut reg = ConnectionRegistry::new();
    assert_eq!(reg.try_register(1, 2), Ok(()));
    let d = dispatch_internal_ioctl(
        &mut reg,
        KEYBOARD_CONNECT_CODE,
        Some(Ok(ConnectData { class_device_object: 42, class_service: 43 })),
        100,
        101,
    );
    assert_eq!(d, DispatchDecision::Complete { status: STATUS_SHARING_VIOLATION });
    assert_eq!(reg.current(), Some((1, 2)));
}

#[test]
fn dispatch_disconnect_clears_and_forwards() {
    let mut reg = ConnectionRegistry::new();
    assert_eq!(reg.try_register(1, 2), Ok(()));
    let d = dispatch_internal_ioctl(&mut reg, KEYBOARD_DISCONNECT_CODE, None, 100, 101);
    assert_eq!(d, DispatchDecision::ForwardFireAndForget { rewrite: None });
    assert!(!reg.is_connected());
}

#[test]
fn dispatch_query_attributes_forwards_with_completion() {
    let mut reg = ConnectionRegistry::new();
    let d = dispatch_internal_ioctl(&mut reg, KEYBOARD_QUERY_ATTRIBUTES_CODE, None, 100, 101);
    assert_eq!(d, DispatchDecision::ForwardWithCompletion);
    assert!(!reg.is_connected());
}

#[test]
fn dispatch_pass_through_forwards_untouched() {
    let mut reg = ConnectionRegistry::new();
    assert_eq!(reg.try_register(1, 2), Ok(()));
    let d = dispatch_internal_ioctl(&mut reg, 0xDEAD_BEEF, None, 100, 101);
    assert_eq!(d, DispatchDecision::ForwardFireAndForget { rewrite: None });
    assert_eq!(reg.current(), Some((1, 2)));
}
