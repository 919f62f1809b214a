//! The records that the payment escrow keeps.

use vstd::prelude::*;
use crate::host::Address;

verus! {

/// Where an escrow stands.
#[derive(Clone, Copy, PartialEq, Eq, Structural, Debug)]
pub enum EscrowStatus {
    /// Waiting for a deposit.
    Pending,
    /// Funded; the shipment is under way.
    Active,
    /// Some milestone payments went out.
    PartiallyReleased,
    /// Every milestone payment went to the payee.
    FullyReleased,
    /// A dispute sent what was left back to the payer.
    Refunded,
    /// Frozen by a dispute.
    Disputed,
}

/// The payment attached to one milestone, in stroops.
#[derive(Clone, Copy, PartialEq, Eq, Structural, Debug)]
pub struct MilestonePayment {
    pub amount_stroops: i128,
    pub released: bool,
    pub released_at: u64,
}

/// The escrow of one shipment.
#[derive(Debug)]
pub struct Escrow {
    pub shipment_id: Vec<u8>,
    pub payer: Address,
    pub payee: Address,
    /// The token contract (USDC, XLM, ...) that the escrow pays in.
    pub token: Address,
    pub total_amount: i128,
    pub deposited_amount: i128,
    pub milestone_payments: Vec<MilestonePayment>,
    pub status: EscrowStatus,
    pub dispute_resolver: Address,
    pub created_at: u64,
    pub updated_at: u64,
}

/// [`Escrow`] with its byte string and payments taken as sequences.
pub struct EscrowView {
    pub shipment_id: Seq<u8>,
    pub payer: Address,
    pub payee: Address,
    pub token: Address,
    pub total_amount: i128,
    pub deposited_amount: i128,
    pub milestone_payments: Seq<MilestonePayment>,
    pub status: EscrowStatus,
    pub dispute_resolver: Address,
    pub created_at: u64,
    pub updated_at: u64,
}

impl View for Escrow {
    type V = EscrowView;

    open spec fn view(&self) -> EscrowView {
        EscrowView {
            shipment_id: self.shipment_id@,
            payer: self.payer,
            payee: self.payee,
            token: self.token,
            total_amount: self.total_amount,
            deposited_amount: self.deposited_amount,
            milestone_payments: self.milestone_payments@,
            status: self.status,
            dispute_resolver: self.dispute_resolver,
            created_at: self.created_at,
            updated_at: self.updated_at,
        }
    }
}

impl Clone for Escrow {
    fn clone(&self) -> (res: Self)
        ensures
            res@ == self@,
    {
        let shipment_id = self.shipment_id.clone();
        let milestone_payments = self.milestone_payments.clone();
        assert(shipment_id@ =~= self.shipment_id@);
        assert(milestone_payments@ =~= self.milestone_payments@);
        Escrow {
            shipment_id,
            payer: self.payer.clone(),
            payee: self.payee.clone(),
            token: self.token.clone(),
            total_amount: self.total_amount,
            deposited_amount: self.deposited_amount,
            milestone_payments,
            status: self.status,
            dispute_resolver: self.dispute_resolver.clone(),
            created_at: self.created_at,
            updated_at: self.updated_at,
        }
    }
}

} // verus!
