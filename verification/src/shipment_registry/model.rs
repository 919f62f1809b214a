//! The registry as a state machine over mathematical values: its storage, the
//! calls it accepts, and what each call returns, stores and asks of the host.

use vstd::prelude::*;
use crate::host::{Address, EffectView, EventView};
use crate::shipment_registry::errors::Error;
use crate::shipment_registry::ids::shipment_id_for;
use crate::shipment_registry::types::{
    CargoDetails, LocationProof, Milestone, MilestoneInput, ShipmentStatus, ShipmentView,
};

verus! {

/// The most milestones a shipment may have.
pub const MAX_MILESTONES: usize = 20;

/// The registry's storage.
pub struct RegistryModel {
    /// The admin, once `initialize` has set one.
    pub admin: Option<Address>,
    /// How many shipments were created.
    pub shipment_count: u64,
    /// Each shipment under its identifier.
    pub shipments: Map<Seq<u8>, ShipmentView>,
    /// For each address, the identifiers of the shipments it ships, oldest first.
    pub shipper_index: Map<Seq<char>, Seq<Seq<u8>>>,
    /// For each address, the identifiers of the shipments it carried or carries.
    pub carrier_index: Map<Seq<char>, Seq<Seq<u8>>>,
    /// For each address, the identifiers of the shipments it receives.
    pub receiver_index: Map<Seq<char>, Seq<Seq<u8>>>,
}

/// A call that changes the registry.
pub enum RegistryCall {
    Initialize { admin: Address },
    CreateShipment {
        shipper: Address,
        receiver: Address,
        carrier: Address,
        cargo: CargoDetails,
        origin: String,
        destination: String,
        milestones: Seq<MilestoneInput>,
        escrow_contract: Address,
    },
    UpdateLocation {
        caller: Address,
        shipment_id: Seq<u8>,
        latitude: i64,
        longitude: i64,
        altitude_m: i32,
        metadata: String,
    },
    ConfirmMilestone { caller: Address, shipment_id: Seq<u8>, milestone_index: u32 },
    UpdateStatus { caller: Address, shipment_id: Seq<u8>, new_status: ShipmentStatus },
    TransferCustody { caller: Address, shipment_id: Seq<u8>, new_carrier: Address },
}

/// What a call returns, the storage after it, and what it asked of the host.
pub struct RegistryTransition {
    pub result: Result<(), Error>,
    pub state: RegistryModel,
    pub effects: Seq<EffectView>,
}

/// The call is refused with `error` after asking `effects` of the host; the
/// storage stays as it was.
pub open spec fn refused(m: RegistryModel, error: Error, effects: Seq<EffectView>) -> RegistryTransition {
    RegistryTransition { result: Err(error), state: m, effects }
}

/// A delivered or cancelled shipment is closed.
pub open spec fn is_closed(status: ShipmentStatus) -> bool {
    status == ShipmentStatus::Delivered || status == ShipmentStatus::Cancelled
}

/// `who` is the registry's admin.
pub open spec fn is_admin(m: RegistryModel, who: Address) -> bool {
    m.admin matches Some(a) && a@ == who@
}

/// `who` is the shipper, the carrier or the receiver of `s`.
pub open spec fn is_party(s: ShipmentView, who: Address) -> bool {
    who@ == s.shipper@ || who@ == s.carrier@ || who@ == s.receiver@
}

/// Latitude within 90 degrees and longitude within 180 degrees of zero, both
/// scaled by 1_000_000.
pub open spec fn valid_coordinates(latitude: i64, longitude: i64) -> bool {
    &&& -90_000_000 <= latitude <= 90_000_000
    &&& -180_000_000 <= longitude <= 180_000_000
}

/// The identifiers that `index` lists for `who`; none if it has no entry.
pub open spec fn index_entries(index: Map<Seq<char>, Seq<Seq<u8>>>, who: Seq<char>) -> Seq<Seq<u8>> {
    if index.contains_key(who) {
        index[who]
    } else {
        Seq::empty()
    }
}

/// `index` with `id` appended to the list of `who`.
pub open spec fn index_append(index: Map<Seq<char>, Seq<Seq<u8>>>, who: Seq<char>, id: Seq<u8>) -> Map<
    Seq<char>,
    Seq<Seq<u8>>,
> {
    index.insert(who, index_entries(index, who).push(id))
}

/// The milestone that a shipment starts with for `input`: unconfirmed, with
/// no actual time, and the shipper in the place of its confirmer.
pub open spec fn new_milestone(input: MilestoneInput, shipper: Address) -> Milestone {
    Milestone {
        description: input.description,
        location_name: input.location_name,
        expected_ts: input.expected_ts,
        actual_ts: 0,
        confirmed: false,
        confirmed_by: shipper,
    }
}

/// The record of a shipment created at `now`.
pub open spec fn new_shipment(
    id: Seq<u8>,
    now: u64,
    shipper: Address,
    receiver: Address,
    carrier: Address,
    cargo: CargoDetails,
    origin: String,
    destination: String,
    milestones: Seq<MilestoneInput>,
    escrow_contract: Address,
) -> ShipmentView {
    ShipmentView {
        id,
        shipper,
        receiver,
        carrier,
        cargo,
        status: ShipmentStatus::Created,
        origin,
        destination,
        milestones: milestones.map_values(|input: MilestoneInput| new_milestone(input, shipper)),
        location_history: Seq::empty(),
        created_at: now,
        updated_at: now,
        escrow_contract,
    }
}

/// `initialize`: sets the admin, once.
pub open spec fn initialize_step(m: RegistryModel, admin: Address) -> RegistryTransition {
    if m.admin is Some {
        refused(m, Error::AlreadyInitialized, Seq::empty())
    } else {
        RegistryTransition {
            result: Ok(()),
            state: RegistryModel { admin: Some(admin), ..m },
            effects: seq![EffectView::RequireAuth(admin)],
        }
    }
}

/// `create_shipment`: stores a new shipment under a fresh identifier and
/// lists it for its shipper, carrier and receiver.
pub open spec fn create_shipment_step(
    m: RegistryModel,
    now: u64,
    sequence: u32,
    shipper: Address,
    receiver: Address,
    carrier: Address,
    cargo: CargoDetails,
    origin: String,
    destination: String,
    milestones: Seq<MilestoneInput>,
    escrow_contract: Address,
) -> RegistryTransition {
    if m.admin is None {
        refused(m, Error::NotInitialized, Seq::empty())
    } else if milestones.len() > MAX_MILESTONES {
        refused(m, Error::InvalidMilestoneCount, Seq::empty())
    } else {
        let id = shipment_id_for(now, sequence, m.shipment_count);
        let shipment = new_shipment(
            id,
            now,
            shipper,
            receiver,
            carrier,
            cargo,
            origin,
            destination,
            milestones,
            escrow_contract,
        );
        RegistryTransition {
            result: Ok(()),
            state: RegistryModel {
                admin: m.admin,
                shipment_count: (m.shipment_count + 1) as u64,
                shipments: m.shipments.insert(id, shipment),
                shipper_index: index_append(m.shipper_index, shipper@, id),
                carrier_index: index_append(m.carrier_index, carrier@, id),
                receiver_index: index_append(m.receiver_index, receiver@, id),
            },
            effects: seq![
                EffectView::RequireAuth(shipper),
                EffectView::Publish(EventView::ShipmentCreated { id, shipper, carrier }),
            ],
        }
    }
}

/// `update_location`: a party of the shipment or the admin appends a proof of
/// location to an open shipment; a created shipment goes in transit.
pub open spec fn update_location_step(
    m: RegistryModel,
    now: u64,
    caller: Address,
    id: Seq<u8>,
    latitude: i64,
    longitude: i64,
    altitude_m: i32,
    metadata: String,
) -> RegistryTransition {
    if !m.shipments.contains_key(id) {
        refused(m, Error::ShipmentNotFound, Seq::empty())
    } else {
        let s = m.shipments[id];
        let auth = seq![EffectView::RequireAuth(caller)];
        if !(is_party(s, caller) || is_admin(m, caller)) {
            refused(m, Error::Unauthorized, auth)
        } else if is_closed(s.status) {
            refused(m, Error::ShipmentClosed, auth)
        } else if !valid_coordinates(latitude, longitude) {
            refused(m, Error::InvalidLocationData, auth)
        } else {
            let proof = LocationProof {
                latitude,
                longitude,
                altitude_m,
                timestamp: now,
                reporter: caller,
                metadata,
            };
            let status = if s.status == ShipmentStatus::Created {
                ShipmentStatus::InTransit
            } else {
                s.status
            };
            let updated = ShipmentView {
                location_history: s.location_history.push(proof),
                updated_at: now,
                status,
                ..s
            };
            RegistryTransition {
                result: Ok(()),
                state: RegistryModel { shipments: m.shipments.insert(id, updated), ..m },
                effects: auth.push(
                    EffectView::Publish(
                        EventView::LocationUpdated { id, reporter: caller, latitude, longitude },
                    ),
                ),
            }
        }
    }
}

/// `confirm_milestone`: the receiver or the admin confirms a milestone, once.
pub open spec fn confirm_milestone_step(
    m: RegistryModel,
    now: u64,
    caller: Address,
    id: Seq<u8>,
    milestone_index: u32,
) -> RegistryTransition {
    if !m.shipments.contains_key(id) {
        refused(m, Error::ShipmentNotFound, Seq::empty())
    } else {
        let s = m.shipments[id];
        let auth = seq![EffectView::RequireAuth(caller)];
        if !(m.admin is Some && (caller@ == s.receiver@ || is_admin(m, caller))) {
            refused(m, Error::Unauthorized, auth)
        } else if milestone_index >= s.milestones.len() {
            refused(m, Error::MilestoneNotFound, auth)
        } else if s.milestones[milestone_index as int].confirmed {
            refused(m, Error::MilestoneAlreadyConfirmed, auth)
        } else {
            let old_milestone = s.milestones[milestone_index as int];
            let confirmed = Milestone {
                confirmed: true,
                actual_ts: now,
                confirmed_by: caller,
                ..old_milestone
            };
            let updated = ShipmentView {
                milestones: s.milestones.update(milestone_index as int, confirmed),
                updated_at: now,
                ..s
            };
            RegistryTransition {
                result: Ok(()),
                state: RegistryModel { shipments: m.shipments.insert(id, updated), ..m },
                effects: auth.push(
                    EffectView::Publish(
                        EventView::MilestoneConfirmed {
                            id,
                            index: milestone_index,
                            confirmed_by: caller,
                        },
                    ),
                ),
            }
        }
    }
}

/// `update_status`: the shipper or the admin sets the status of an open
/// shipment.
pub open spec fn update_status_step(
    m: RegistryModel,
    now: u64,
    caller: Address,
    id: Seq<u8>,
    new_status: ShipmentStatus,
) -> RegistryTransition {
    if !m.shipments.contains_key(id) {
        refused(m, Error::ShipmentNotFound, Seq::empty())
    } else {
        let s = m.shipments[id];
        let auth = seq![EffectView::RequireAuth(caller)];
        if !(m.admin is Some && (caller@ == s.shipper@ || is_admin(m, caller))) {
            refused(m, Error::Unauthorized, auth)
        } else if is_closed(s.status) {
            refused(m, Error::ShipmentClosed, auth)
        } else {
            let updated = ShipmentView { status: new_status, updated_at: now, ..s };
            RegistryTransition {
                result: Ok(()),
                state: RegistryModel { shipments: m.shipments.insert(id, updated), ..m },
                effects: auth.push(
                    EffectView::Publish(EventView::StatusChanged { id, caller, status: new_status }),
                ),
            }
        }
    }
}

/// `transfer_custody`: the carrier, the shipper or the admin hands an open
/// shipment to a new carrier, which lists it.
pub open spec fn transfer_custody_step(
    m: RegistryModel,
    now: u64,
    caller: Address,
    id: Seq<u8>,
    new_carrier: Address,
) -> RegistryTransition {
    if !m.shipments.contains_key(id) {
        refused(m, Error::ShipmentNotFound, Seq::empty())
    } else {
        let s = m.shipments[id];
        let auth = seq![EffectView::RequireAuth(caller)];
        if !(caller@ == s.carrier@ || caller@ == s.shipper@ || is_admin(m, caller)) {
            refused(m, Error::Unauthorized, auth)
        } else if is_closed(s.status) {
            refused(m, Error::ShipmentClosed, auth)
        } else {
            let updated = ShipmentView { carrier: new_carrier, updated_at: now, ..s };
            RegistryTransition {
                result: Ok(()),
                state: RegistryModel {
                    shipments: m.shipments.insert(id, updated),
                    carrier_index: index_append(m.carrier_index, new_carrier@, id),
                    ..m
                },
                effects: auth.push(
                    EffectView::Publish(
                        EventView::CustodyTransferred { id, from: s.carrier, to: new_carrier },
                    ),
                ),
            }
        }
    }
}

/// What `call` does to the registry `m`, in the ledger closed at `now` with
/// number `sequence`.
pub open spec fn registry_step(
    m: RegistryModel,
    now: u64,
    sequence: u32,
    call: RegistryCall,
) -> RegistryTransition {
    match call {
        RegistryCall::Initialize { admin } => initialize_step(m, admin),
        RegistryCall::CreateShipment {
            shipper,
            receiver,
            carrier,
            cargo,
            origin,
            destination,
            milestones,
            escrow_contract,
        } => create_shipment_step(
            m,
            now,
            sequence,
            shipper,
            receiver,
            carrier,
            cargo,
            origin,
            destination,
            milestones,
            escrow_contract,
        ),
        RegistryCall::UpdateLocation {
            caller,
            shipment_id,
            latitude,
            longitude,
            altitude_m,
            metadata,
        } => update_location_step(
            m,
            now,
            caller,
            shipment_id,
            latitude,
            longitude,
            altitude_m,
            metadata,
        ),
        RegistryCall::ConfirmMilestone { caller, shipment_id, milestone_index } =>
            confirm_milestone_step(m, now, caller, shipment_id, milestone_index),
        RegistryCall::UpdateStatus { caller, shipment_id, new_status } => update_status_step(
            m,
            now,
            caller,
            shipment_id,
            new_status,
        ),
        RegistryCall::TransferCustody { caller, shipment_id, new_carrier } =>
            transfer_custody_step(m, now, caller, shipment_id, new_carrier),
    }
}

} // verus!
