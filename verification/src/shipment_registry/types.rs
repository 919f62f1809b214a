//! The records that the shipment registry keeps.

use vstd::prelude::*;
use crate::host::{Address, ShipmentId};

verus! {

/// Where a shipment stands in its lifecycle.
#[derive(Clone, Copy, PartialEq, Eq, Structural, Debug)]
pub enum ShipmentStatus {
    Created,
    InTransit,
    AtCheckpoint,
    Delivered,
    Disputed,
    Cancelled,
}

/// A GPS proof of location. Coordinates are degrees scaled by 1_000_000
/// (40.712776 degrees is 40712776).
#[derive(Debug)]
pub struct LocationProof {
    pub latitude: i64,
    pub longitude: i64,
    pub altitude_m: i32,
    pub timestamp: u64,
    pub reporter: Address,
    /// Free-form JSON: speed, heading, accuracy.
    pub metadata: String,
}

impl Clone for LocationProof {
    fn clone(&self) -> (res: Self)
        ensures
            res == *self,
    {
        LocationProof {
            latitude: self.latitude,
            longitude: self.longitude,
            altitude_m: self.altitude_m,
            timestamp: self.timestamp,
            reporter: self.reporter.clone(),
            metadata: self.metadata.clone(),
        }
    }
}

/// A checkpoint of the journey, confirmed by the receiver or the admin.
#[derive(Debug)]
pub struct Milestone {
    pub description: String,
    pub location_name: String,
    pub expected_ts: u64,
    pub actual_ts: u64,
    pub confirmed: bool,
    /// Who confirmed it; the shipper until it is confirmed.
    pub confirmed_by: Address,
}

impl Clone for Milestone {
    fn clone(&self) -> (res: Self)
        ensures
            res == *self,
    {
        Milestone {
            description: self.description.clone(),
            location_name: self.location_name.clone(),
            expected_ts: self.expected_ts,
            actual_ts: self.actual_ts,
            confirmed: self.confirmed,
            confirmed_by: self.confirmed_by.clone(),
        }
    }
}

/// A milestone as the shipper describes it when creating the shipment.
#[derive(Clone, Debug)]
pub struct MilestoneInput {
    pub description: String,
    pub location_name: String,
    pub expected_ts: u64,
}

/// What is being shipped. Weight and volume are in grams and cubic
/// centimetres, the declared value in stroops.
#[derive(Debug)]
pub struct CargoDetails {
    pub description: String,
    pub weight_g: u64,
    pub volume_cm3: u64,
    pub is_hazmat: bool,
    pub is_temperature_controlled: bool,
    pub declared_value_stroops: i128,
    pub tracking_number: String,
}

impl Clone for CargoDetails {
    fn clone(&self) -> (res: Self)
        ensures
            res == *self,
    {
        CargoDetails {
            description: self.description.clone(),
            weight_g: self.weight_g,
            volume_cm3: self.volume_cm3,
            is_hazmat: self.is_hazmat,
            is_temperature_controlled: self.is_temperature_controlled,
            declared_value_stroops: self.declared_value_stroops,
            tracking_number: self.tracking_number.clone(),
        }
    }
}

/// The full record of a shipment.
#[derive(Debug)]
pub struct Shipment {
    pub id: ShipmentId,
    pub shipper: Address,
    pub receiver: Address,
    pub carrier: Address,
    pub cargo: CargoDetails,
    pub status: ShipmentStatus,
    pub origin: String,
    pub destination: String,
    pub milestones: Vec<Milestone>,
    pub location_history: Vec<LocationProof>,
    pub created_at: u64,
    pub updated_at: u64,
    pub escrow_contract: Address,
}

/// [`Shipment`] with its identifier and lists taken as sequences.
pub struct ShipmentView {
    pub id: Seq<u8>,
    pub shipper: Address,
    pub receiver: Address,
    pub carrier: Address,
    pub cargo: CargoDetails,
    pub status: ShipmentStatus,
    pub origin: String,
    pub destination: String,
    pub milestones: Seq<Milestone>,
    pub location_history: Seq<LocationProof>,
    pub created_at: u64,
    pub updated_at: u64,
    pub escrow_contract: Address,
}

impl View for Shipment {
    type V = ShipmentView;

    open spec fn view(&self) -> ShipmentView {
        ShipmentView {
            id: self.id@,
            shipper: self.shipper,
            receiver: self.receiver,
            carrier: self.carrier,
            cargo: self.cargo,
            status: self.status,
            origin: self.origin,
            destination: self.destination,
            milestones: self.milestones@,
            location_history: self.location_history@,
            created_at: self.created_at,
            updated_at: self.updated_at,
            escrow_contract: self.escrow_contract,
        }
    }
}

impl Clone for Shipment {
    fn clone(&self) -> (res: Self)
        ensures
            res@ == self@,
    {
        let milestones = self.milestones.clone();
        let location_history = self.location_history.clone();
        assert(milestones@ =~= self.milestones@);
        assert(location_history@ =~= self.location_history@);
        Shipment {
            id: self.id,
            shipper: self.shipper.clone(),
            receiver: self.receiver.clone(),
            carrier: self.carrier.clone(),
            cargo: self.cargo.clone(),
            status: self.status,
            origin: self.origin.clone(),
            destination: self.destination.clone(),
            milestones,
            location_history,
            created_at: self.created_at,
            updated_at: self.updated_at,
            escrow_contract: self.escrow_contract.clone(),
        }
    }
}

} // verus!
