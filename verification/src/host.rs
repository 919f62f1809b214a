//! The host side of a contract call: the ledger it runs in, and the requests
//! that the call makes of the host (authorization checks, token transfers,
//! published events), recorded in the order in which the call makes them.

use vstd::prelude::*;
use crate::shipment_registry::types::ShipmentStatus;

verus! {

/// A ledger account or contract, written as its strkey (`G...` or `C...`).
pub type Address = String;

/// The identifier of a shipment: the SHA-256 digest that the registry derives
/// when the shipment is created.
pub type ShipmentId = [u8; 32];

/// An event that a contract publishes, with the topic and data it carries.
#[derive(Debug)]
pub enum Event {
    /// `CREATED`: a shipment was created.
    ShipmentCreated { id: ShipmentId, shipper: Address, carrier: Address },
    /// `LOCATION`: a location proof was recorded.
    LocationUpdated { id: ShipmentId, reporter: Address, latitude: i64, longitude: i64 },
    /// `MILESTONE`: a milestone was confirmed.
    MilestoneConfirmed { id: ShipmentId, index: u32, confirmed_by: Address },
    /// `STATUS`: the status of a shipment was set.
    StatusChanged { id: ShipmentId, caller: Address, status: ShipmentStatus },
    /// `CUSTODY`: custody passed to another carrier.
    CustodyTransferred { id: ShipmentId, from: Address, to: Address },
    /// `FUNDED`: the payer deposited into the escrow.
    EscrowFunded { shipment_id: Vec<u8>, payer: Address, amount: i128 },
    /// `RELEASED`: one milestone payment went to the payee.
    MilestoneReleased { shipment_id: Vec<u8>, caller: Address, index: u32, amount: i128 },
    /// `DISPUTE`: the escrow was frozen by a dispute.
    DisputeRaised { shipment_id: Vec<u8>, caller: Address },
    /// `RESOLVED`: the dispute resolver settled the escrow.
    DisputeResolved { shipment_id: Vec<u8>, resolver: Address, to_payee: bool },
}

/// [`Event`] with its byte strings taken as sequences.
pub enum EventView {
    ShipmentCreated { id: Seq<u8>, shipper: Address, carrier: Address },
    LocationUpdated { id: Seq<u8>, reporter: Address, latitude: i64, longitude: i64 },
    MilestoneConfirmed { id: Seq<u8>, index: u32, confirmed_by: Address },
    StatusChanged { id: Seq<u8>, caller: Address, status: ShipmentStatus },
    CustodyTransferred { id: Seq<u8>, from: Address, to: Address },
    EscrowFunded { shipment_id: Seq<u8>, payer: Address, amount: i128 },
    MilestoneReleased { shipment_id: Seq<u8>, caller: Address, index: u32, amount: i128 },
    DisputeRaised { shipment_id: Seq<u8>, caller: Address },
    DisputeResolved { shipment_id: Seq<u8>, resolver: Address, to_payee: bool },
}

impl View for Event {
    type V = EventView;

    open spec fn view(&self) -> EventView {
        match self {
            Event::ShipmentCreated { id, shipper, carrier } => EventView::ShipmentCreated {
                id: id@,
                shipper: *shipper,
                carrier: *carrier,
            },
            Event::LocationUpdated { id, reporter, latitude, longitude } =>
                EventView::LocationUpdated {
                id: id@,
                reporter: *reporter,
                latitude: *latitude,
                longitude: *longitude,
            },
            Event::MilestoneConfirmed { id, index, confirmed_by } =>
                EventView::MilestoneConfirmed { id: id@, index: *index, confirmed_by: *confirmed_by },
            Event::StatusChanged { id, caller, status } => EventView::StatusChanged {
                id: id@,
                caller: *caller,
                status: *status,
            },
            Event::CustodyTransferred { id, from, to } => EventView::CustodyTransferred {
                id: id@,
                from: *from,
                to: *to,
            },
            Event::EscrowFunded { shipment_id, payer, amount } => EventView::EscrowFunded {
                shipment_id: shipment_id@,
                payer: *payer,
                amount: *amount,
            },
            Event::MilestoneReleased { shipment_id, caller, index, amount } =>
                EventView::MilestoneReleased {
                shipment_id: shipment_id@,
                caller: *caller,
                index: *index,
                amount: *amount,
            },
            Event::DisputeRaised { shipment_id, caller } => EventView::DisputeRaised {
                shipment_id: shipment_id@,
                caller: *caller,
            },
            Event::DisputeResolved { shipment_id, resolver, to_payee } =>
                EventView::DisputeResolved {
                shipment_id: shipment_id@,
                resolver: *resolver,
                to_payee: *to_payee,
            },
        }
    }
}

/// A request that a contract call makes of the host.
#[derive(Debug)]
pub enum Effect {
    /// The call demands that this address authorized it (`require_auth`);
    /// the whole transaction fails if it did not.
    RequireAuth(Address),
    /// A transfer of `amount` units of the token contract `token`.
    Transfer { token: Address, from: Address, to: Address, amount: i128 },
    /// An event published by the contract.
    Publish(Event),
}

/// [`Effect`] with its event taken by view.
pub enum EffectView {
    RequireAuth(Address),
    Transfer { token: Address, from: Address, to: Address, amount: i128 },
    Publish(EventView),
}

impl View for Effect {
    type V = EffectView;

    open spec fn view(&self) -> EffectView {
        match self {
            Effect::RequireAuth(a) => EffectView::RequireAuth(*a),
            Effect::Transfer { token, from, to, amount } => EffectView::Transfer {
                token: *token,
                from: *from,
                to: *to,
                amount: *amount,
            },
            Effect::Publish(e) => EffectView::Publish(e@),
        }
    }
}

/// What a contract call sees of the ledger, and what it has asked of the host
/// so far.
pub struct Context {
    /// The ledger's close time, in seconds.
    pub timestamp: u64,
    /// The ledger's sequence number.
    pub sequence: u32,
    /// The address of the contract that is being called.
    pub current_contract: Address,
    /// The requests made of the host, oldest first.
    pub effects: Vec<Effect>,
}

impl Context {
    /// The requests made of the host so far, by view.
    pub open spec fn log(&self) -> Seq<EffectView> {
        self.effects@.map_values(|e: Effect| e@)
    }

    /// `new` and `other` run in the same ledger and contract.
    pub open spec fn same_ledger(&self, other: &Context) -> bool {
        &&& self.timestamp == other.timestamp
        &&& self.sequence == other.sequence
        &&& self.current_contract == other.current_contract
    }

    /// A call in the ledger closed at `timestamp` with number `sequence`, made
    /// to `current_contract`, that has asked nothing yet.
    pub fn new(timestamp: u64, sequence: u32, current_contract: Address) -> (ctx: Context)
        ensures
            ctx.timestamp == timestamp,
            ctx.sequence == sequence,
            ctx.current_contract == current_contract,
            ctx.log() == Seq::<EffectView>::empty(),
    {
        let ctx = Context { timestamp, sequence, current_contract, effects: Vec::new() };
        assert(ctx.log() =~= Seq::<EffectView>::empty());
        ctx
    }

    /// Records a request made of the host.
    pub fn record(&mut self, effect: Effect)
        ensures
            final(self).same_ledger(old(self)),
            final(self).log() == old(self).log().push(effect@),
    {
        self.effects.push(effect);
        assert(self.log() =~= old(self).log().push(effect@));
    }

    /// Demands that `address` authorized this call.
    pub fn require_auth(&mut self, address: &Address)
        ensures
            final(self).same_ledger(old(self)),
            final(self).log() == old(self).log().push(EffectView::RequireAuth(*address)),
    {
        self.record(Effect::RequireAuth(address.clone()));
    }
}

} // verus!
