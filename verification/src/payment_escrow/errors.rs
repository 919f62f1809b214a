//! Why an escrow call was refused.

use vstd::prelude::*;

verus! {

/// Why an escrow call was refused.
#[derive(Clone, Copy, PartialEq, Eq, Structural, Debug)]
pub enum Error {
    /// `initialize` was called a second time.
    AlreadyInitialized,
    /// The escrow has not been set up.
    NotInitialized,
    /// The caller may not do this.
    Unauthorized,
    /// Not enough has been deposited.
    InsufficientDeposit,
    /// The escrow already holds its total.
    AlreadyFullyFunded,
    /// The milestone was paid before.
    MilestoneAlreadyReleased,
    /// The milestone index is out of range.
    MilestoneNotFound,
    /// The milestone amounts do not add up to the total.
    InvalidMilestoneAmounts,
    /// The escrow is not in a state that allows this.
    EscrowNotActive,
    /// There is no dispute to resolve.
    DisputeNotActive,
    /// An amount that must be positive is not.
    ZeroAmount,
}

} // verus!
