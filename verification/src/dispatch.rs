//! The Control-Operation Dispatcher: classifies an incoming control request
//! by its operation code and decides, synchronously and before any I/O is
//! issued, what happens to it — a local failure completion, a
//! fire-and-forget forward, or a forward with a completion continuation.
//! Exactly one of the three happens per request.

use vstd::prelude::*;
use crate::foreign::ConnectData;
use crate::ioctl::{
    KeyboardIoctl, KEYBOARD_CONNECT_CODE, KEYBOARD_DISCONNECT_CODE, KEYBOARD_QUERY_ATTRIBUTES_CODE,
};
use crate::registry::{registry_step, ConnectionRegistry, RegistryOp};
use crate::status::STATUS_SHARING_VIOLATION;

verus! {

/// Where the dispatcher routes a control operation.
#[derive(Debug, Copy, Clone, PartialEq, Eq, Structural)]
pub enum DispatchRoute {
    Register,
    Unregister,
    QueryAttributes,
    PassThrough,
}

/// The routing of each operation code: connect, disconnect and
/// query-attributes are interpreted; every other code — recognised by the
/// filter or not — passes through.
pub open spec fn route_spec(io_control_code: u32) -> DispatchRoute {
    if io_control_code == KEYBOARD_CONNECT_CODE {
        DispatchRoute::Register
    } else if io_control_code == KEYBOARD_DISCONNECT_CODE {
        DispatchRoute::Unregister
    } else if io_control_code == KEYBOARD_QUERY_ATTRIBUTES_CODE {
        DispatchRoute::QueryAttributes
    } else {
        DispatchRoute::PassThrough
    }
}

/// Classifies an operation code.
pub fn route(io_control_code: u32) -> (r: DispatchRoute)
    ensures
        r == route_spec(io_control_code),
{
    match KeyboardIoctl::try_from_code(io_control_code) {
        Some(KeyboardIoctl::KeyboardConnect) => DispatchRoute::Register,
        Some(KeyboardIoctl::KeyboardDisconnect) => DispatchRoute::Unregister,
        Some(KeyboardIoctl::KeyboardQueryAttributes) => DispatchRoute::QueryAttributes,
        _ => DispatchRoute::PassThrough,
    }
}

/// The register operation.  `read` is the outcome of reading the fixed-size
/// registration payload from the request's input buffer; `own_identity` and
/// `relay_callback` are this filter's device identity and its input-stream
/// relay entry point (a real function, hence non-null).
///
/// If a consumer is already connected the attempt fails with a sharing
/// violation and nothing is touched.  If the payload read failed, its status
/// is the error and the registration is not mutated.  Otherwise the registry
/// stores the caller-supplied identity together with the filter's relay
/// entry point, and the returned record — the filter's own identity/relay
/// pair — must be written back into the request's payload before the request
/// is forwarded, so that downstream consumers deliver through this filter.
pub fn on_keyboard_connect(
    registry: &mut ConnectionRegistry,
    read: Result<ConnectData, i32>,
    own_identity: u64,
    relay_callback: u64,
) -> (r: Result<ConnectData, i32>)
    requires
        relay_callback != 0,
    ensures
        old(registry).connected() ==> r == Err::<ConnectData, i32>(STATUS_SHARING_VIOLATION)
            && *final(registry) == *old(registry),
        !old(registry).connected() ==> match read {
            Err(st) => r == Err::<ConnectData, i32>(st) && *final(registry) == *old(registry),
            Ok(payload) => {
                &&& *final(registry) == registry_step(
                    *old(registry),
                    RegistryOp::Register {
                        identity: payload.class_device_object,
                        callback: relay_callback,
                    },
                )
                &&& final(registry).connected()
                &&& final(registry).upper_connect_data == (ConnectData {
                    class_device_object: payload.class_device_object,
                    class_service: relay_callback,
                })
                &&& r == Ok::<ConnectData, i32>(ConnectData {
                    class_device_object: own_identity,
                    class_service: relay_callback,
                })
            },
        },
{
    match read {
        Err(st) => {
            if registry.is_connected() {
                Err(STATUS_SHARING_VIOLATION)
            } else {
                Err(st)
            }
        },
        Ok(payload) => {
            match registry.try_register(payload.class_device_object, relay_callback) {
                Ok(_) => Ok(ConnectData {
                    class_device_object: own_identity,
                    class_service: relay_callback,
                }),
                Err(_) => Err(STATUS_SHARING_VIOLATION),
            }
        },
    }
}

/// Registering successfully and immediately querying the registry returns
/// exactly the pair the register operation stored: the caller-supplied
/// identity together with the filter's relay entry point — not the caller's
/// original identity/callback record, whose callback the filter substitutes.
pub proof fn lemma_register_then_current(
    s: ConnectionRegistry,
    payload: ConnectData,
    relay_callback: u64,
)
    requires
        !s.connected(),
        relay_callback != 0,
    ensures
        ({
            let s1 = registry_step(
                s,
                RegistryOp::Register {
                    identity: payload.class_device_object,
                    callback: relay_callback,
                },
            );
            &&& s1.connected()
            &&& s1.upper_connect_data.class_device_object == payload.class_device_object
            &&& s1.upper_connect_data.class_service == relay_callback
            &&& payload.class_service != relay_callback ==> s1.upper_connect_data != payload
        }),
{
}

/// The dispatcher's decision for one in-flight request: complete it locally
/// with a failure status, forward it fire-and-forget (after rewriting its
/// payload, for a successful register), or hand it to the forwarding engine
/// with a completion continuation.  A request gets exactly one of these.
#[derive(Debug, Copy, Clone, PartialEq, Eq, Structural)]
pub enum DispatchDecision {
    Complete { status: i32 },
    ForwardFireAndForget { rewrite: Option<ConnectData> },
    ForwardWithCompletion,
}

/// Dispatches one internal control operation against the registry.
///
/// `read` carries the registration-payload read outcome and is consulted
/// only for the register operation, for which it must be present.
pub fn dispatch_internal_ioctl(
    registry: &mut ConnectionRegistry,
    io_control_code: u32,
    read: Option<Result<ConnectData, i32>>,
    own_identity: u64,
    relay_callback: u64,
) -> (d: DispatchDecision)
    requires
        relay_callback != 0,
        route_spec(io_control_code) is Register ==> read is Some,
    ensures
        route_spec(io_control_code) is Register ==> {
            let rd = read->0;
            &&& old(registry).connected() ==> d == (DispatchDecision::Complete {
                status: STATUS_SHARING_VIOLATION,
            }) && *final(registry) == *old(registry)
            &&& !old(registry).connected() ==> match rd {
                Err(st) => d == (DispatchDecision::Complete { status: st })
                    && *final(registry) == *old(registry),
                Ok(payload) => {
                    &&& *final(registry) == registry_step(
                        *old(registry),
                        RegistryOp::Register {
                            identity: payload.class_device_object,
                            callback: relay_callback,
                        },
                    )
                    &&& d == (DispatchDecision::ForwardFireAndForget {
                        rewrite: Some(ConnectData {
                            class_device_object: own_identity,
                            class_service: relay_callback,
                        }),
                    })
                },
            }
        },
        route_spec(io_control_code) is Unregister ==> *final(registry) == registry_step(
            *old(registry),
            RegistryOp::Unregister,
        ) && d == (DispatchDecision::ForwardFireAndForget { rewrite: None }),
        route_spec(io_control_code) is QueryAttributes ==> *final(registry) == *old(registry)
            && d == DispatchDecision::ForwardWithCompletion,
        route_spec(io_control_code) is PassThrough ==> *final(registry) == *old(registry)
            && d == (DispatchDecision::ForwardFireAndForget { rewrite: None }),
{
    match route(io_control_code) {
        DispatchRoute::Register => {
            match on_keyboard_connect(registry, read.unwrap(), own_identity, relay_callback) {
                Ok(rewritten) => DispatchDecision::ForwardFireAndForget {
                    rewrite: Some(rewritten),
                },
                Err(status) => DispatchDecision::Complete { status },
            }
        },
        DispatchRoute::Unregister => {
            registry.unregister();
            DispatchDecision::ForwardFireAndForget { rewrite: None }
        },
        DispatchRoute::QueryAttributes => DispatchDecision::ForwardWithCompletion,
        DispatchRoute::PassThrough => DispatchDecision::ForwardFireAndForget { rewrite: None },
    }
}

} // verus!
