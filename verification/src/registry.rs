//! The Connection Registry: the single-registration contract for the upper
//! consumer's event-delivery callback.
//!
//! The registry holds one nullable identity/callback pair.  A consumer is
//! connected exactly when the stored callback is non-null.  Registering while
//! connected is rejected with a sharing violation and changes nothing;
//! unregistering always succeeds and resets the pair, whatever the prior
//! state.  The registry persists for the device's whole lifetime; there is
//! no terminal state.

use vstd::prelude::*;
use crate::foreign::ConnectData;
use crate::status::ErrorCode;

verus! {

/// The registry: the stored registration record of the single currently
/// bound upper consumer.
#[derive(Debug, Copy, Clone, PartialEq, Eq, Structural)]
pub struct ConnectionRegistry {
    pub upper_connect_data: ConnectData,
}

/// One operation on the registry.
#[derive(Debug, Copy, Clone, PartialEq, Eq, Structural)]
pub enum RegistryOp {
    Register { identity: u64, callback: u64 },
    Unregister,
}

/// The disconnected registry: both handles null.
pub open spec fn empty_registry() -> ConnectionRegistry {
    ConnectionRegistry {
        upper_connect_data: ConnectData { class_device_object: 0, class_service: 0 },
    }
}

/// One step of the registration state machine.  A register on a connected
/// registry is rejected and changes nothing; on a disconnected registry it
/// stores exactly the supplied pair.  An unregister resets unconditionally.
pub open spec fn registry_step(s: ConnectionRegistry, op: RegistryOp) -> ConnectionRegistry {
    match op {
        RegistryOp::Register { identity, callback } => {
            if s.connected() {
                s
            } else {
                ConnectionRegistry {
                    upper_connect_data: ConnectData {
                        class_device_object: identity,
                        class_service: callback,
                    },
                }
            }
        },
        RegistryOp::Unregister => empty_registry(),
    }
}

/// The registry after replaying a whole sequence of operations in order.
pub open spec fn registry_replay(init: ConnectionRegistry, ops: Seq<RegistryOp>) -> ConnectionRegistry
    decreases ops.len(),
{
    if ops.len() == 0 {
        init
    } else {
        registry_step(registry_replay(init, ops.drop_last()), ops.last())
    }
}

/// The abstract two-state machine: only whether a consumer is connected.
/// A register is rejected while connected; from the disconnected state it
/// connects exactly when the supplied callback is non-null.
pub open spec fn abstract_step(connected: bool, op: RegistryOp) -> bool {
    match op {
        RegistryOp::Register { callback, .. } => {
            if connected {
                true
            } else {
                callback != 0
            }
        },
        RegistryOp::Unregister => false,
    }
}

/// The abstract connected state after replaying a sequence of operations.
pub open spec fn abstract_replay(connected: bool, ops: Seq<RegistryOp>) -> bool
    decreases ops.len(),
{
    if ops.len() == 0 {
        connected
    } else {
        abstract_step(abstract_replay(connected, ops.drop_last()), ops.last())
    }
}

impl ConnectionRegistry {
    /// A consumer is connected exactly when the stored callback is non-null.
    pub open spec fn connected(&self) -> bool {
        self.upper_connect_data.class_service != 0
    }

    /// A fresh registry: disconnected, both handles null.
    pub fn new() -> (r: Self)
        ensures
            r == empty_registry(),
    {
        ConnectionRegistry {
            upper_connect_data: ConnectData { class_device_object: 0, class_service: 0 },
        }
    }

    /// Atomic check-then-set: stores the supplied pair if no consumer is
    /// connected, and rejects the attempt with a sharing violation — never
    /// silently — if one is.
    pub fn try_register(&mut self, identity: u64, callback: u64) -> (r: Result<(), ErrorCode>)
        ensures
            *final(self) == registry_step(
                *old(self),
                RegistryOp::Register { identity, callback },
            ),
            r is Ok <==> !old(self).connected(),
            old(self).connected() ==> r == Err::<(), ErrorCode>(ErrorCode::SharingViolation)
                && *final(self) == *old(self),
            !old(self).connected() ==> final(self).upper_connect_data == (ConnectData {
                class_device_object: identity,
                class_service: callback,
            }),
    {
        if self.upper_connect_data.class_service != 0 {
            Err(ErrorCode::SharingViolation)
        } else {
            self.upper_connect_data = ConnectData {
                class_device_object: identity,
                class_service: callback,
            };
            Ok(())
        }
    }

    /// Unconditional reset to the disconnected state; always succeeds.
    pub fn unregister(&mut self)
        ensures
            *final(self) == registry_step(*old(self), RegistryOp::Unregister),
            *final(self) == empty_registry(),
            !final(self).connected(),
    {
        self.upper_connect_data = ConnectData { class_device_object: 0, class_service: 0 };
    }

    /// Whether a consumer is currently connected.
    pub fn is_connected(&self) -> (b: bool)
        ensures
            b == self.connected(),
    {
        self.upper_connect_data.class_service != 0
    }

    /// Read-only snapshot used by the input-stream relay: the stored pair
    /// when a consumer is connected, `None` otherwise.
    pub fn current(&self) -> (r: Option<(u64, u64)>)
        ensures
            self.connected() ==> r == Some::<(u64, u64)>((
                self.upper_connect_data.class_device_object,
                self.upper_connect_data.class_service,
            )),
            !self.connected() ==> r is None,
    {
        if self.upper_connect_data.class_service != 0 {
            Some((
                self.upper_connect_data.class_device_object,
                self.upper_connect_data.class_service,
            ))
        } else {
            None
        }
    }
}

/// For every sequence of register/unregister operations, the registry's
/// connected state after replaying the sequence equals the result of the
/// abstract two-state machine run over the same sequence.
pub proof fn lemma_replay_refines_abstract(init: ConnectionRegistry, ops: Seq<RegistryOp>)
    ensures
        registry_replay(init, ops).connected() == abstract_replay(init.connected(), ops),
    decreases ops.len(),
{
    if ops.len() > 0 {
        lemma_replay_refines_abstract(init, ops.drop_last());
    }
}

/// A register attempt while a consumer is connected changes nothing: in
/// particular it never changes the stored callback.
pub proof fn lemma_register_while_connected_changes_nothing(
    s: ConnectionRegistry,
    identity: u64,
    callback: u64,
)
    requires
        s.connected(),
    ensures
        registry_step(s, RegistryOp::Register { identity, callback }) == s,
{
}

/// Unregister is idempotent: called twice in a row it succeeds both times
/// (it cannot fail) and leaves the registry disconnected, with the second
/// call changing nothing.
pub proof fn lemma_unregister_idempotent(s: ConnectionRegistry)
    ensures
        registry_step(s, RegistryOp::Unregister) == empty_registry(),
        registry_step(
            registry_step(s, RegistryOp::Unregister),
            RegistryOp::Unregister,
        ) == registry_step(s, RegistryOp::Unregister),
        !registry_step(s, RegistryOp::Unregister).connected(),
{
}

/// Round trip: register(A), unregister, register(B) ends with exactly B's
/// pair stored — no residual trace of A.
pub proof fn lemma_register_round_trip(
    s: ConnectionRegistry,
    a_identity: u64,
    a_callback: u64,
    b_identity: u64,
    b_callback: u64,
)
    requires
        !s.connected(),
    ensures
        ({
            let s1 = registry_step(s, RegistryOp::Register { identity: a_identity, callback: a_callback });
            let s2 = registry_step(s1, RegistryOp::Unregister);
            let s3 = registry_step(s2, RegistryOp::Register { identity: b_identity, callback: b_callback });
            s3.upper_connect_data == (ConnectData {
                class_device_object: b_identity,
                class_service: b_callback,
            })
        }),
{
}

/// Two register attempts on a disconnected registry, in whichever order they
/// are serialised: the first succeeds and connects, the second is rejected
/// and changes nothing, and the registry afterwards holds exactly the first
/// attempt's pair — never a mixture of the two.
pub proof fn lemma_single_registration(
    s: ConnectionRegistry,
    first_identity: u64,
    first_callback: u64,
    second_identity: u64,
    second_callback: u64,
)
    requires
        !s.connected(),
        first_callback != 0,
    ensures
        ({
            let after_first = registry_step(
                s,
                RegistryOp::Register { identity: first_identity, callback: first_callback },
            );
            &&& after_first.connected()
            &&& after_first.upper_connect_data == (ConnectData {
                class_device_object: first_identity,
                class_service: first_callback,
            })
            &&& registry_step(
                after_first,
                RegistryOp::Register { identity: second_identity, callback: second_callback },
            ) == after_first
        }),
{
}

} // verus!
