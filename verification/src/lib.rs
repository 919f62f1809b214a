//! Verified core of the AetherTrack shipment-tracking contracts: the shipment
//! registry (shipment lifecycle, location proofs, milestones, custody) and the
//! milestone-based payment escrow. Contract storage is held in the contract
//! structs; what a call asks of the ledger host (authorization, token
//! transfers, published events) is recorded in a [`host::Context`].

pub mod host;
pub mod table;
pub mod shipment_registry;
pub mod payment_escrow;



