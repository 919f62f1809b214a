//! What each registry call does, stated directly over its inputs and the
//! registry it finds: when it succeeds and what it stores then, and which
//! error it gives otherwise, with nothing stored.

use vstd::prelude::*;
use crate::host::{Address, EffectView, EventView};
use crate::shipment_registry::errors::Error;
use crate::shipment_registry::ids::shipment_id_for;
use crate::shipment_registry::model::{registry_step, RegistryCall, RegistryModel};
use crate::shipment_registry::types::{
    CargoDetails, LocationProof, Milestone, MilestoneInput, ShipmentStatus, ShipmentView,
};

verus! {

/// The identifiers that `index` lists for `who`; none if it has no entry.
pub open spec fn listed_for(index: Map<Seq<char>, Seq<Seq<u8>>>, who: Seq<char>) -> Seq<Seq<u8>> {
    if index.contains_key(who) {
        index[who]
    } else {
        Seq::empty()
    }
}

/// `who` is the admin that `m` holds.
pub open spec fn admin_is(m: RegistryModel, who: Address) -> bool {
    m.admin is Some && m.admin.unwrap()@ == who@
}

/// A call that is refused leaves the registry as it was.
pub open spec fn refusal_keeps(m: RegistryModel, result: Result<(), Error>, state: RegistryModel) -> bool {
    result is Err ==> state == m
}

/// Setting the admin of a registry that has none succeeds and changes
/// nothing else.
pub proof fn law_initialize_sets_admin(m: RegistryModel, now: u64, sequence: u32, admin: Address)
    requires
        m.admin is None,
    ensures
        ({
            let t = registry_step(m, now, sequence, RegistryCall::Initialize { admin });
            &&& t.result == Ok::<(), Error>(())
            &&& t.state == RegistryModel { admin: Some(admin), ..m }
            &&& t.effects == seq![EffectView::RequireAuth(admin)]
        }),
{
}

/// Setting the admin is refused, with `AlreadyInitialized`, once one is set;
/// the registry stays as it was.
pub proof fn law_initialize_refusals(m: RegistryModel, now: u64, sequence: u32, admin: Address)
    ensures
        ({
            let t = registry_step(m, now, sequence, RegistryCall::Initialize { admin });
            &&& m.admin is Some ==> t.result == Err::<(), Error>(Error::AlreadyInitialized)
            &&& refusal_keeps(m, t.result, t.state)
            &&& t.result is Err ==> t.effects == Seq::<EffectView>::empty()
        }),
{
}

/// Creating a shipment with at most twenty milestones in an initialized
/// registry succeeds: under the identifier derived from the ledger and the
/// count, it stores a shipment that is created now, has the given parties,
/// cargo, route and escrow, no location proof, and one unconfirmed milestone
/// per input, in order; it lists the identifier last for the shipper, the
/// carrier and the receiver, counts one more shipment, and touches no other
/// shipment or list.
pub proof fn law_create_shipment_stores(
    m: RegistryModel,
    now: u64,
    sequence: u32,
    shipper: Address,
    receiver: Address,
    carrier: Address,
    cargo: CargoDetails,
    origin: String,
    destination: String,
    milestones: Seq<MilestoneInput>,
    escrow_contract: Address,
)
    requires
        m.admin is Some,
        milestones.len() <= 20,
    ensures
        ({
            let t = registry_step(
                m,
                now,
                sequence,
                RegistryCall::CreateShipment {
                    shipper,
                    receiver,
                    carrier,
                    cargo,
                    origin,
                    destination,
                    milestones,
                    escrow_contract,
                },
            );
            let id = shipment_id_for(now, sequence, m.shipment_count);
            let n = t.state;
            let s = n.shipments[id];
            &&& t.result == Ok::<(), Error>(())
            &&& n.admin == m.admin
            &&& m.shipment_count < u64::MAX ==> n.shipment_count == m.shipment_count + 1
            &&& n.shipments.contains_key(id)
            &&& n.shipments.remove(id) == m.shipments.remove(id)
            &&& s.id == id
            &&& s.shipper == shipper
            &&& s.receiver == receiver
            &&& s.carrier == carrier
            &&& s.cargo == cargo
            &&& s.status == ShipmentStatus::Created
            &&& s.origin == origin
            &&& s.destination == destination
            &&& s.escrow_contract == escrow_contract
            &&& s.created_at == now
            &&& s.updated_at == now
            &&& s.location_history.len() == 0
            &&& s.milestones.len() == milestones.len()
            &&& forall|k: int|
                0 <= k < milestones.len() ==> #[trigger] s.milestones[k] == Milestone {
                    description: milestones[k].description,
                    location_name: milestones[k].location_name,
                    expected_ts: milestones[k].expected_ts,
                    actual_ts: 0,
                    confirmed: false,
                    confirmed_by: shipper,
                }
            &&& n.shipper_index == m.shipper_index.insert(
                shipper@,
                listed_for(m.shipper_index, shipper@).push(id),
            )
            &&& n.carrier_index == m.carrier_index.insert(
                carrier@,
                listed_for(m.carrier_index, carrier@).push(id),
            )
            &&& n.receiver_index == m.receiver_index.insert(
                receiver@,
                listed_for(m.receiver_index, receiver@).push(id),
            )
            &&& t.effects == seq![
                EffectView::RequireAuth(shipper),
                EffectView::Publish(EventView::ShipmentCreated { id, shipper, carrier }),
            ]
        }),
{
    let n = registry_step(
        m,
        now,
        sequence,
        RegistryCall::CreateShipment {
            shipper,
            receiver,
            carrier,
            cargo,
            origin,
            destination,
            milestones,
            escrow_contract,
        },
    ).state;
    let id = shipment_id_for(now, sequence, m.shipment_count);
    assert(n.shipments.remove(id) =~= m.shipments.remove(id));
}

/// Creating a shipment is refused before the registry is initialized
/// (`NotInitialized`) and with more than twenty milestones
/// (`InvalidMilestoneCount`); a refused creation stores nothing and asks
/// nothing of the host.
pub proof fn law_create_shipment_refusals(
    m: RegistryModel,
    now: u64,
    sequence: u32,
    shipper: Address,
    receiver: Address,
    carrier: Address,
    cargo: CargoDetails,
    origin: String,
    destination: String,
    milestones: Seq<MilestoneInput>,
    escrow_contract: Address,
)
    ensures
        ({
            let t = registry_step(
                m,
                now,
                sequence,
                RegistryCall::CreateShipment {
                    shipper,
                    receiver,
                    carrier,
                    cargo,
                    origin,
                    destination,
                    milestones,
                    escrow_contract,
                },
            );
            &&& m.admin is None ==> t.result == Err::<(), Error>(Error::NotInitialized)
            &&& m.admin is Some && milestones.len() > 20 ==> t.result == Err::<(), Error>(
                Error::InvalidMilestoneCount,
            )
            &&& refusal_keeps(m, t.result, t.state)
            &&& t.result is Err ==> t.effects == Seq::<EffectView>::empty()
        }),
{
}

/// A party of an open shipment, or the admin, records a location with
/// latitude within 90 and longitude within 180 degrees (scaled by
/// 1_000_000): the call succeeds, the proof (with the reporter and the
/// ledger's time) is appended to the shipment's history, a created shipment
/// goes in transit while any other status is kept, and nothing else changes.
pub proof fn law_update_location_records(
    m: RegistryModel,
    now: u64,
    sequence: u32,
    caller: Address,
    shipment_id: Seq<u8>,
    latitude: i64,
    longitude: i64,
    altitude_m: i32,
    metadata: String,
)
    requires
        m.shipments.contains_key(shipment_id),
        caller@ == m.shipments[shipment_id].shipper@ || caller@ == m.shipments[shipment_id].carrier@
            || caller@ == m.shipments[shipment_id].receiver@ || admin_is(m, caller),
        m.shipments[shipment_id].status != ShipmentStatus::Delivered,
        m.shipments[shipment_id].status != ShipmentStatus::Cancelled,
        -90_000_000 <= latitude <= 90_000_000,
        -180_000_000 <= longitude <= 180_000_000,
    ensures
        ({
            let t = registry_step(
                m,
                now,
                sequence,
                RegistryCall::UpdateLocation {
                    caller,
                    shipment_id,
                    latitude,
                    longitude,
                    altitude_m,
                    metadata,
                },
            );
            let s = m.shipments[shipment_id];
            let s2 = t.state.shipments[shipment_id];
            &&& t.result == Ok::<(), Error>(())
            &&& t.state == RegistryModel { shipments: m.shipments.insert(shipment_id, s2), ..m }
            &&& s2.location_history == s.location_history.push(
                LocationProof {
                    latitude,
                    longitude,
                    altitude_m,
                    timestamp: now,
                    reporter: caller,
                    metadata,
                },
            )
            &&& s.status == ShipmentStatus::Created ==> s2.status == ShipmentStatus::InTransit
            &&& s.status != ShipmentStatus::Created ==> s2.status == s.status
            &&& s2 == ShipmentView {
                location_history: s2.location_history,
                status: s2.status,
                updated_at: now,
                ..s
            }
            &&& t.effects == seq![
                EffectView::RequireAuth(caller),
                EffectView::Publish(
                    EventView::LocationUpdated {
                        id: shipment_id,
                        reporter: caller,
                        latitude,
                        longitude,
                    },
                ),
            ]
        }),
{
}

/// A location update is refused for an unknown shipment
/// (`ShipmentNotFound`), for a caller that is neither a party of it nor the
/// admin (`Unauthorized`), for a delivered or cancelled shipment
/// (`ShipmentClosed`), and for coordinates out of range
/// (`InvalidLocationData`); a refused update stores nothing.
pub proof fn law_update_location_refusals(
    m: RegistryModel,
    now: u64,
    sequence: u32,
    caller: Address,
    shipment_id: Seq<u8>,
    latitude: i64,
    longitude: i64,
    altitude_m: i32,
    metadata: String,
)
    ensures
        ({
            let t = registry_step(
                m,
                now,
                sequence,
                RegistryCall::UpdateLocation {
                    caller,
                    shipment_id,
                    latitude,
                    longitude,
                    altitude_m,
                    metadata,
                },
            );
            let found = m.shipments.contains_key(shipment_id);
            let s = m.shipments[shipment_id];
            let allowed = caller@ == s.shipper@ || caller@ == s.carrier@ || caller@ == s.receiver@
                || admin_is(m, caller);
            let open = s.status != ShipmentStatus::Delivered && s.status
                != ShipmentStatus::Cancelled;
            let in_range = -90_000_000 <= latitude <= 90_000_000 && -180_000_000 <= longitude
                <= 180_000_000;
            &&& !found ==> t.result == Err::<(), Error>(Error::ShipmentNotFound)
            &&& found && !allowed ==> t.result == Err::<(), Error>(Error::Unauthorized)
            &&& found && allowed && !open ==> t.result == Err::<(), Error>(Error::ShipmentClosed)
            &&& found && allowed && open && !in_range ==> t.result == Err::<(), Error>(
                Error::InvalidLocationData,
            )
            &&& refusal_keeps(m, t.result, t.state)
            &&& !found ==> t.effects == Seq::<EffectView>::empty()
            &&& found && t.result is Err ==> t.effects == seq![EffectView::RequireAuth(caller)]
        }),
{
}

/// The receiver or the admin of an initialized registry confirms a milestone
/// that is not confirmed yet: the call succeeds, that milestone alone is
/// marked confirmed, by the caller, at the ledger's time, every other
/// milestone (confirmed or not) stays exactly as it was, and nothing else of
/// the registry changes.
pub proof fn law_confirm_milestone_confirms_one(
    m: RegistryModel,
    now: u64,
    sequence: u32,
    caller: Address,
    shipment_id: Seq<u8>,
    milestone_index: u32,
)
    requires
        m.shipments.contains_key(shipment_id),
        m.admin is Some,
        caller@ == m.shipments[shipment_id].receiver@ || admin_is(m, caller),
        milestone_index < m.shipments[shipment_id].milestones.len(),
        !m.shipments[shipment_id].milestones[milestone_index as int].confirmed,
    ensures
        ({
            let t = registry_step(
                m,
                now,
                sequence,
                RegistryCall::ConfirmMilestone { caller, shipment_id, milestone_index },
            );
            let s = m.shipments[shipment_id];
            let s2 = t.state.shipments[shipment_id];
            let i = milestone_index as int;
            &&& t.result == Ok::<(), Error>(())
            &&& t.state == RegistryModel { shipments: m.shipments.insert(shipment_id, s2), ..m }
            &&& s2.milestones.len() == s.milestones.len()
            &&& s2.milestones[i] == Milestone {
                confirmed: true,
                actual_ts: now,
                confirmed_by: caller,
                ..s.milestones[i]
            }
            &&& forall|k: int|
                0 <= k < s.milestones.len() && k != i ==> #[trigger] s2.milestones[k]
                    == s.milestones[k]
            &&& s2 == ShipmentView { milestones: s2.milestones, updated_at: now, ..s }
            &&& t.effects == seq![
                EffectView::RequireAuth(caller),
                EffectView::Publish(
                    EventView::MilestoneConfirmed {
                        id: shipment_id,
                        index: milestone_index,
                        confirmed_by: caller,
                    },
                ),
            ]
        }),
{
}

/// Confirmations of different milestones do not interfere: after milestone
/// `i` of a shipment is confirmed, confirming another milestone `j` that was
/// not confirmed before succeeds, by the same caller, and confirming `i`
/// again is refused with `MilestoneAlreadyConfirmed`.
pub proof fn law_confirmations_are_independent(
    m: RegistryModel,
    now: u64,
    sequence: u32,
    later: u64,
    later_sequence: u32,
    caller: Address,
    shipment_id: Seq<u8>,
    i: u32,
    j: u32,
)
    requires
        registry_step(
            m,
            now,
            sequence,
            RegistryCall::ConfirmMilestone { caller, shipment_id, milestone_index: i },
        ).result is Ok,
        j != i,
        j < m.shipments[shipment_id].milestones.len(),
        !m.shipments[shipment_id].milestones[j as int].confirmed,
    ensures
        ({
            let m1 = registry_step(
                m,
                now,
                sequence,
                RegistryCall::ConfirmMilestone { caller, shipment_id, milestone_index: i },
            ).state;
            &&& registry_step(
                m1,
                later,
                later_sequence,
                RegistryCall::ConfirmMilestone { caller, shipment_id, milestone_index: j },
            ).result == Ok::<(), Error>(())
            &&& registry_step(
                m1,
                later,
                later_sequence,
                RegistryCall::ConfirmMilestone { caller, shipment_id, milestone_index: i },
            ).result == Err::<(), Error>(Error::MilestoneAlreadyConfirmed)
        }),
{
    law_confirm_milestone_refusals(m, now, sequence, caller, shipment_id, i);
    law_confirm_milestone_confirms_one(m, now, sequence, caller, shipment_id, i);
    let m1 = registry_step(
        m,
        now,
        sequence,
        RegistryCall::ConfirmMilestone { caller, shipment_id, milestone_index: i },
    ).state;
    assert(m1.shipments[shipment_id].milestones[j as int] == m.shipments[shipment_id].milestones[j as int]);
    law_confirm_milestone_confirms_one(m1, later, later_sequence, caller, shipment_id, j);
    law_confirm_milestone_refusals(m1, later, later_sequence, caller, shipment_id, i);
}

/// Confirming a milestone is refused for an unknown shipment
/// (`ShipmentNotFound`), before the registry is initialized or for a caller
/// that is neither the receiver nor the admin (`Unauthorized`), for an index
/// past the milestones (`MilestoneNotFound`), and for a milestone confirmed
/// before (`MilestoneAlreadyConfirmed`); a refused call stores nothing.
pub proof fn law_confirm_milestone_refusals(
    m: RegistryModel,
    now: u64,
    sequence: u32,
    caller: Address,
    shipment_id: Seq<u8>,
    milestone_index: u32,
)
    ensures
        ({
            let t = registry_step(
                m,
                now,
                sequence,
                RegistryCall::ConfirmMilestone { caller, shipment_id, milestone_index },
            );
            let found = m.shipments.contains_key(shipment_id);
            let s = m.shipments[shipment_id];
            let allowed = m.admin is Some && (caller@ == s.receiver@ || admin_is(m, caller));
            &&& !found ==> t.result == Err::<(), Error>(Error::ShipmentNotFound)
            &&& found && !allowed ==> t.result == Err::<(), Error>(Error::Unauthorized)
            &&& found && allowed && milestone_index >= s.milestones.len() ==> t.result == Err::<
                (),
                Error,
            >(Error::MilestoneNotFound)
            &&& found && allowed && milestone_index < s.milestones.len()
                && s.milestones[milestone_index as int].confirmed ==> t.result == Err::<(), Error>(
                Error::MilestoneAlreadyConfirmed,
            )
            &&& refusal_keeps(m, t.result, t.state)
            &&& !found ==> t.effects == Seq::<EffectView>::empty()
            &&& found && t.result is Err ==> t.effects == seq![EffectView::RequireAuth(caller)]
        }),
{
}

/// The shipper or the admin of an initialized registry sets the status of a
/// shipment that is neither delivered nor cancelled (a disputed one
/// included): the call succeeds, the shipment's status becomes `new_status`,
/// and nothing else changes.
pub proof fn law_update_status_sets(
    m: RegistryModel,
    now: u64,
    sequence: u32,
    caller: Address,
    shipment_id: Seq<u8>,
    new_status: ShipmentStatus,
)
    requires
        m.shipments.contains_key(shipment_id),
        m.admin is Some,
        caller@ == m.shipments[shipment_id].shipper@ || admin_is(m, caller),
        m.shipments[shipment_id].status != ShipmentStatus::Delivered,
        m.shipments[shipment_id].status != ShipmentStatus::Cancelled,
    ensures
        ({
            let t = registry_step(
                m,
                now,
                sequence,
                RegistryCall::UpdateStatus { caller, shipment_id, new_status },
            );
            let s = m.shipments[shipment_id];
            &&& t.result == Ok::<(), Error>(())
            &&& t.state.shipments[shipment_id].status == new_status
            &&& t.state == RegistryModel {
                shipments: m.shipments.insert(
                    shipment_id,
                    ShipmentView { status: new_status, updated_at: now, ..s },
                ),
                ..m
            }
            &&& t.effects == seq![
                EffectView::RequireAuth(caller),
                EffectView::Publish(
                    EventView::StatusChanged { id: shipment_id, caller, status: new_status },
                ),
            ]
        }),
{
}

/// Setting a status is refused for an unknown shipment (`ShipmentNotFound`),
/// before the registry is initialized or for a caller that is neither the
/// shipper nor the admin (`Unauthorized`), and for a delivered or cancelled
/// shipment (`ShipmentClosed`); a refused call stores nothing.
pub proof fn law_update_status_refusals(
    m: RegistryModel,
    now: u64,
    sequence: u32,
    caller: Address,
    shipment_id: Seq<u8>,
    new_status: ShipmentStatus,
)
    ensures
        ({
            let t = registry_step(
                m,
                now,
                sequence,
                RegistryCall::UpdateStatus { caller, shipment_id, new_status },
            );
            let found = m.shipments.contains_key(shipment_id);
            let s = m.shipments[shipment_id];
            let allowed = m.admin is Some && (caller@ == s.shipper@ || admin_is(m, caller));
            &&& !found ==> t.result == Err::<(), Error>(Error::ShipmentNotFound)
            &&& found && !allowed ==> t.result == Err::<(), Error>(Error::Unauthorized)
            &&& found && allowed && (s.status == ShipmentStatus::Delivered || s.status
                == ShipmentStatus::Cancelled) ==> t.result == Err::<(), Error>(Error::ShipmentClosed)
            &&& refusal_keeps(m, t.result, t.state)
            &&& !found ==> t.effects == Seq::<EffectView>::empty()
            &&& found && t.result is Err ==> t.effects == seq![EffectView::RequireAuth(caller)]
        }),
{
}

/// The carrier, the shipper or the admin hands an open shipment to a new
/// carrier: the call succeeds, the shipment's carrier becomes the new one,
/// whose list gets the shipment last, and nothing else changes (the former
/// carrier keeps the shipment in its list).
pub proof fn law_transfer_custody_hands_over(
    m: RegistryModel,
    now: u64,
    sequence: u32,
    caller: Address,
    shipment_id: Seq<u8>,
    new_carrier: Address,
)
    requires
        m.shipments.contains_key(shipment_id),
        caller@ == m.shipments[shipment_id].carrier@ || caller@ == m.shipments[shipment_id].shipper@
            || admin_is(m, caller),
        m.shipments[shipment_id].status != ShipmentStatus::Delivered,
        m.shipments[shipment_id].status != ShipmentStatus::Cancelled,
    ensures
        ({
            let t = registry_step(
                m,
                now,
                sequence,
                RegistryCall::TransferCustody { caller, shipment_id, new_carrier },
            );
            let s = m.shipments[shipment_id];
            &&& t.result == Ok::<(), Error>(())
            &&& t.state == RegistryModel {
                shipments: m.shipments.insert(
                    shipment_id,
                    ShipmentView { carrier: new_carrier, updated_at: now, ..s },
                ),
                carrier_index: m.carrier_index.insert(
                    new_carrier@,
                    listed_for(m.carrier_index, new_carrier@).push(shipment_id),
                ),
                ..m
            }
            &&& t.effects == seq![
                EffectView::RequireAuth(caller),
                EffectView::Publish(
                    EventView::CustodyTransferred { id: shipment_id, from: s.carrier, to: new_carrier },
                ),
            ]
        }),
{
}

/// Handing over custody is refused for an unknown shipment
/// (`ShipmentNotFound`), for a caller that is neither the carrier, the
/// shipper nor the admin (`Unauthorized`), and for a delivered or cancelled
/// shipment (`ShipmentClosed`); a refused call stores nothing.
pub proof fn law_transfer_custody_refusals(
    m: RegistryModel,
    now: u64,
    sequence: u32,
    caller: Address,
    shipment_id: Seq<u8>,
    new_carrier: Address,
)
    ensures
        ({
            let t = registry_step(
                m,
                now,
                sequence,
                RegistryCall::TransferCustody { caller, shipment_id, new_carrier },
            );
            let found = m.shipments.contains_key(shipment_id);
            let s = m.shipments[shipment_id];
            let allowed = caller@ == s.carrier@ || caller@ == s.shipper@ || admin_is(m, caller);
            &&& !found ==> t.result == Err::<(), Error>(Error::ShipmentNotFound)
            &&& found && !allowed ==> t.result == Err::<(), Error>(Error::Unauthorized)
            &&& found && allowed && (s.status == ShipmentStatus::Delivered || s.status
                == ShipmentStatus::Cancelled) ==> t.result == Err::<(), Error>(Error::ShipmentClosed)
            &&& refusal_keeps(m, t.result, t.state)
            &&& !found ==> t.effects == Seq::<EffectView>::empty()
            &&& found && t.result is Err ==> t.effects == seq![EffectView::RequireAuth(caller)]
        }),
{
}

} // verus!
