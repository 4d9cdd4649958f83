//! Core logic of a keyboard input-stream filter that sits between an upper
//! protocol consumer and a lower port driver.
//!
//! The library holds the decision-making part of the filter: classifying
//! control operations, the single-registration contract for the upper
//! consumer's callback, the request-forwarding state machine with its
//! completion continuation, the attribute cache, the input-stream relay,
//! and the virtual child device that serves cached attributes.  Everything
//! here works on plain values (status words, operation codes, word-sized
//! handles, fixed-size records); the host-framework plumbing that produces
//! those values and carries out the decided actions lives outside.

pub mod device;
pub mod dispatch;
pub mod engine;
pub mod foreign;
pub mod ioctl;
pub mod pdo;
pub mod registry;
pub mod relay;
pub mod status;
