//! A bounded single-producer/single-consumer work queue and the decision
//! logic of a fixed-size worker pool, with the small supporting types that
//! surround them.
//!
//! Every function here is verified against its contract. Thread spawning,
//! locking and the scripting-language bindings live outside this crate and
//! drive it through plain values.

pub mod allocator;
pub mod cpu_dispatch;
pub mod errors;
pub mod hw_profile;
pub mod integrations;
pub mod kernel_registry;
pub mod message;
pub mod telemetry;

pub use integrations::VortexWorkQueue as RustVortexWorkQueue;
pub use message::Message;
