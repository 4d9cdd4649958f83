//! Per-device state: the context blocks attached to the primary filter
//! device and to its virtual child device.
//!
//! Queue and device handles are carried as word-sized values, zero for null;
//! the host framework owns the objects they stand for.

use vstd::prelude::*;
use crate::foreign::{zeroed_attributes, KeyboardAttributes};
use crate::registry::{empty_registry, ConnectionRegistry};

verus! {

/// Context of the primary filter device: the handle of the child device's
/// request queue (set once at creation), the connection registry, and the
/// attribute cache (initially zeroed, refreshed by successful query
/// forwards, never invalidated).
#[derive(Debug, Copy, Clone, PartialEq, Eq, Structural)]
pub struct DeviceContext {
    pub raw_pdo_queue: u64,
    pub registry: ConnectionRegistry,
    pub keyboard_attributes: KeyboardAttributes,
}

impl DeviceContext {
    /// A fresh device context: the given child-queue handle, a disconnected
    /// registry, and a zeroed attribute cache.
    pub fn new(raw_pdo_queue: u64) -> (c: Self)
        ensures
            c.raw_pdo_queue == raw_pdo_queue,
            c.registry == empty_registry(),
            c.keyboard_attributes == zeroed_attributes(),
    {
        DeviceContext {
            raw_pdo_queue,
            registry: ConnectionRegistry::new(),
            keyboard_attributes: KeyboardAttributes::zeroed(),
        }
    }
}

/// Context of the virtual child device: its instance number (a small
/// positive integer, unique per primary device) and the handle of the
/// primary device's queue, used to forward requests back to the parent.
#[derive(Debug, Copy, Clone, PartialEq, Eq, Structural)]
pub struct PdoContext {
    pub instance: u32,
    pub queue: u64,
}

impl PdoContext {
    /// Instance numbers start at one.
    pub open spec fn well_formed(&self) -> bool {
        self.instance >= 1
    }

    /// Builds a child-device context from its instance number and the
    /// parent queue handle.
    pub fn new(instance: u32, queue: u64) -> (c: Self)
        requires
            instance >= 1,
        ensures
            c.instance == instance,
            c.queue == queue,
            c.well_formed(),
    {
        PdoContext { instance, queue }
    }
}

/// Advances the process-wide device counter: the instance number assigned to
/// a newly created primary device is one more than the count of devices
/// created before it, so numbers are sequential and start at one.
pub fn next_instance(previous_count: u32) -> (current: u32)
    requires
        previous_count < u32::MAX,
    ensures
        current == previous_count + 1,
        current >= 1,
{
    previous_count + 1
}

} // verus!
