//! Why a registry call was refused.

use vstd::prelude::*;

verus! {

/// Why a registry call was refused.
#[derive(Clone, Copy, PartialEq, Eq, Structural, Debug)]
pub enum Error {
    /// The registry has no admin yet.
    NotInitialized,
    /// `initialize` was called a second time.
    AlreadyInitialized,
    /// The caller may not do this.
    Unauthorized,
    /// No shipment has that identifier.
    ShipmentNotFound,
    /// The status transition is not allowed.
    InvalidStatus,
    /// The milestone index is out of range.
    MilestoneNotFound,
    /// The milestone was confirmed before.
    MilestoneAlreadyConfirmed,
    /// Latitude or longitude is out of range.
    InvalidLocationData,
    /// More than 20 milestones.
    InvalidMilestoneCount,
    /// The shipment is delivered or cancelled.
    ShipmentClosed,
}

} // verus!
