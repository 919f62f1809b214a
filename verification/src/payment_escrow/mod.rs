//! The milestone-based payment escrow: deposit, per-milestone release,
//! release of everything that is left, disputes and their resolution.

pub mod errors;
pub mod types;
pub mod model;
pub mod events;
pub mod contract;
pub mod laws;
pub mod runs;
pub mod behaviour;

pub use contract::PaymentEscrowContract;
