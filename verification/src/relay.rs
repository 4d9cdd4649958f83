//! The Input-Stream Relay: the callback the lower driver invokes for every
//! batch of input events.
//!
//! The relay never blocks and never allocates; the batch buffers are owned
//! by the lower driver for the duration of the call only.  It computes the
//! batch length from the boundary markers, reads a snapshot of the
//! registration, and delivers the batch — unchanged — to whoever was
//! registered at that moment, or drops it if nobody is.

use vstd::prelude::*;
use crate::foreign::KEYBOARD_INPUT_DATA_SIZE;
use crate::registry::ConnectionRegistry;

verus! {

/// Number of fixed-size input-event records between two batch boundary
/// markers, given as byte addresses: the start marker points at the first
/// record, the end marker one past the last.
pub fn batch_len(start: usize, end: usize) -> (n: usize)
    requires
        start <= end,
    ensures
        n == (end - start) / (KEYBOARD_INPUT_DATA_SIZE as int),
{
    (end - start) / KEYBOARD_INPUT_DATA_SIZE
}

/// The relay's decision for one batch: invoke the registered callback,
/// passing through the identity stored at registration time together with
/// the unchanged batch boundaries and in/out count, or drop the batch
/// because no consumer is registered, leaving the in/out count as the lower
/// driver initialised it.
#[derive(Debug, Copy, Clone, PartialEq, Eq, Structural)]
pub enum RelayOutcome {
    Deliver { identity: u64, callback: u64 },
    Dropped,
}

/// Reads the registration snapshot and decides delivery.  The decision
/// promises only that the batch goes to whoever was registered at the moment
/// the snapshot was read.
pub fn relay_input(registry: &ConnectionRegistry) -> (r: RelayOutcome)
    ensures
        registry.connected() ==> r == (RelayOutcome::Deliver {
            identity: registry.upper_connect_data.class_device_object,
            callback: registry.upper_connect_data.class_service,
        }),
        !registry.connected() ==> r == RelayOutcome::Dropped,
{
    match registry.current() {
        Some((identity, callback)) => RelayOutcome::Deliver { identity, callback },
        None => RelayOutcome::Dropped,
    }
}

} // verus!
