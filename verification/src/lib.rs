//! A minimal device registry: devices are recorded under a collision-resistant
//! fingerprint, each device accepts at most one daily telemetry snapshot per
//! day, and a one-time "certificate issued" milestone is tracked per device.
//!
//! Record identity is structural: every record lives under a key derived from
//! a namespace tag and the device fingerprint (plus the day marker for usage
//! records), and a create at an occupied key is a definite rejection, so
//! "exactly once" guarantees need no external locking.

pub mod address;
pub mod constants;
pub mod errors;
pub mod registry;
pub mod state;
