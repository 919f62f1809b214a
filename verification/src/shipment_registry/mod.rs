//! The shipment registry: creation, location proofs, milestone confirmation,
//! status changes and custody transfers.

pub mod errors;
pub mod types;
pub mod ids;
pub mod model;
pub mod events;
pub mod contract;
pub mod laws;
pub mod invariants;
pub mod runs;
pub mod behaviour;

pub use contract::ShipmentRegistryContract;
