//! Integrations with outside crates.

pub mod mesocarp_wrapper;
pub mod ticket_ring;
pub mod unique_id;

pub use mesocarp_wrapper::VortexWorkQueue;
