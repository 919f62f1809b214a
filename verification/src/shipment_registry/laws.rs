//! What holds of every registry call, proved over the state machine that the
//! contract's calls follow (see `model::registry_step`).

use vstd::prelude::*;
use crate::host::{Address, EffectView};
use crate::shipment_registry::ids::shipment_id_for;
use crate::shipment_registry::model::{
    index_entries, is_admin, is_closed, is_party, new_shipment, registry_step,
    valid_coordinates, RegistryCall, RegistryModel, MAX_MILESTONES,
};
use crate::shipment_registry::types::ShipmentStatus;

verus! {

/// `call` creates a shipment whose fresh identifier is `id`.
pub open spec fn creates_under(m: RegistryModel, now: u64, sequence: u32, call: RegistryCall, id: Seq<u8>) -> bool {
    call is CreateShipment && shipment_id_for(now, sequence, m.shipment_count) == id
}

/// The address that a call acts for, and whose authorization it demands.
pub open spec fn actor(call: RegistryCall) -> Address {
    match call {
        RegistryCall::Initialize { admin } => admin,
        RegistryCall::CreateShipment { shipper, .. } => shipper,
        RegistryCall::UpdateLocation { caller, .. } => caller,
        RegistryCall::ConfirmMilestone { caller, .. } => caller,
        RegistryCall::UpdateStatus { caller, .. } => caller,
        RegistryCall::TransferCustody { caller, .. } => caller,
    }
}

/// `call` targets the stored shipment `id` and its caller may act on it: a
/// location update by a party or the admin, a milestone confirmation by the
/// receiver or the admin, a status change by the shipper or the admin, a
/// custody transfer by the carrier, the shipper or the admin.
pub open spec fn may_change(m: RegistryModel, call: RegistryCall, id: Seq<u8>) -> bool {
    let s = m.shipments[id];
    match call {
        RegistryCall::UpdateLocation { caller, shipment_id, .. } => shipment_id == id && (is_party(
            s,
            caller,
        ) || is_admin(m, caller)),
        RegistryCall::ConfirmMilestone { caller, shipment_id, .. } => shipment_id == id && (caller@
            == s.receiver@ || is_admin(m, caller)),
        RegistryCall::UpdateStatus { caller, shipment_id, .. } => shipment_id == id && (caller@
            == s.shipper@ || is_admin(m, caller)),
        RegistryCall::TransferCustody { caller, shipment_id, .. } => shipment_id == id && (caller@
            == s.carrier@ || caller@ == s.shipper@ || is_admin(m, caller)),
        _ => false,
    }
}

/// Every stored shipment has at most `MAX_MILESTONES` milestones, and every
/// location proof it holds has valid coordinates.
pub open spec fn shipments_valid(m: RegistryModel) -> bool {
    forall|id: Seq<u8>| #[trigger]
        m.shipments.contains_key(id) ==> {
            let s = m.shipments[id];
            &&& s.milestones.len() <= MAX_MILESTONES
            &&& forall|k: int|
                0 <= k < s.location_history.len() ==> valid_coordinates(
                    #[trigger] s.location_history[k].latitude,
                    s.location_history[k].longitude,
                )
        }
}

/// A refused call leaves the registry's storage as it was.
pub proof fn lemma_refused_call_changes_nothing(
    m: RegistryModel,
    now: u64,
    sequence: u32,
    call: RegistryCall,
)
    ensures
        registry_step(m, now, sequence, call).result is Err ==> registry_step(
            m,
            now,
            sequence,
            call,
        ).state == m,
{
}

/// The admin is set once: `initialize` succeeds only while there is no
/// admin, and no call changes an admin that is set.
pub proof fn lemma_admin_is_set_once(m: RegistryModel, now: u64, sequence: u32, call: RegistryCall)
    requires
        m.admin is Some,
    ensures
        registry_step(m, now, sequence, call).state.admin == m.admin,
        call is Initialize ==> registry_step(m, now, sequence, call).result is Err,
{
}

/// A call that succeeds first demands the authorization of the address it
/// acts for.
pub proof fn lemma_success_demands_authorization(
    m: RegistryModel,
    now: u64,
    sequence: u32,
    call: RegistryCall,
)
    ensures
        registry_step(m, now, sequence, call).result is Ok ==> {
            let t = registry_step(m, now, sequence, call);
            t.effects.len() > 0 && t.effects[0] == EffectView::RequireAuth(actor(call))
        },
{
}

/// A created shipment is stored under the identifier derived for it, as a
/// fresh record, and listed last for its shipper, carrier and receiver; the
/// shipment count goes up by one.
pub proof fn lemma_created_shipment_is_stored_and_listed(
    m: RegistryModel,
    now: u64,
    sequence: u32,
    call: RegistryCall,
)
    requires
        call is CreateShipment,
        registry_step(m, now, sequence, call).result is Ok,
        m.shipment_count < u64::MAX,
    ensures
        ({
            let t = registry_step(m, now, sequence, call);
            let id = shipment_id_for(now, sequence, m.shipment_count);
            match call {
                RegistryCall::CreateShipment {
                    shipper,
                    receiver,
                    carrier,
                    cargo,
                    origin,
                    destination,
                    milestones,
                    escrow_contract,
                } => {
                    &&& t.state.shipments.contains_key(id)
                    &&& t.state.shipments[id] == new_shipment(
                        id,
                        now,
                        shipper,
                        receiver,
                        carrier,
                        cargo,
                        origin,
                        destination,
                        milestones,
                        escrow_contract,
                    )
                    &&& t.state.shipments[id].status == ShipmentStatus::Created
                    &&& index_entries(t.state.shipper_index, shipper@).last() == id
                    &&& index_entries(t.state.carrier_index, carrier@).last() == id
                    &&& index_entries(t.state.receiver_index, receiver@).last() == id
                    &&& t.state.shipment_count == m.shipment_count + 1
                },
                _ => true,
            }
        }),
{
}

/// Every stored shipment stays stored; its location history only grows at
/// the end, and it keeps its number of milestones. (A creation whose fresh
/// identifier is that of a stored shipment replaces it.)
pub proof fn lemma_location_history_only_grows(
    m: RegistryModel,
    now: u64,
    sequence: u32,
    call: RegistryCall,
    id: Seq<u8>,
)
    requires
        m.shipments.contains_key(id),
        !creates_under(m, now, sequence, call, id),
    ensures
        ({
            let t = registry_step(m, now, sequence, call);
            let before = m.shipments[id];
            &&& t.state.shipments.contains_key(id)
            &&& before.location_history.len() <= t.state.shipments[id].location_history.len()
            &&& t.state.shipments[id].location_history.take(before.location_history.len() as int)
                == before.location_history
            &&& t.state.shipments[id].milestones.len() == before.milestones.len()
        }),
{
    let t = registry_step(m, now, sequence, call);
    let before = m.shipments[id];
    assert(before.location_history.take(before.location_history.len() as int)
        =~= before.location_history);
    if t.state.shipments[id].location_history != before.location_history {
        assert(t.state.shipments[id].location_history.take(before.location_history.len() as int)
            =~= before.location_history);
    }
}

/// A delivered or cancelled shipment is frozen: its status, its carrier and
/// its location history never change again.
pub proof fn lemma_closed_shipment_is_frozen(
    m: RegistryModel,
    now: u64,
    sequence: u32,
    call: RegistryCall,
    id: Seq<u8>,
)
    requires
        m.shipments.contains_key(id),
        is_closed(m.shipments[id].status),
        !creates_under(m, now, sequence, call, id),
    ensures
        ({
            let t = registry_step(m, now, sequence, call);
            &&& t.state.shipments.contains_key(id)
            &&& t.state.shipments[id].status == m.shipments[id].status
            &&& t.state.shipments[id].carrier == m.shipments[id].carrier
            &&& t.state.shipments[id].location_history == m.shipments[id].location_history
        }),
{
}

/// A confirmed milestone stays confirmed, with the same time and confirmer.
pub proof fn lemma_confirmed_milestone_is_permanent(
    m: RegistryModel,
    now: u64,
    sequence: u32,
    call: RegistryCall,
    id: Seq<u8>,
    k: int,
)
    requires
        m.shipments.contains_key(id),
        0 <= k < m.shipments[id].milestones.len(),
        m.shipments[id].milestones[k].confirmed,
        !creates_under(m, now, sequence, call, id),
    ensures
        ({
            let t = registry_step(m, now, sequence, call);
            &&& t.state.shipments.contains_key(id)
            &&& t.state.shipments[id].milestones.len() == m.shipments[id].milestones.len()
            &&& t.state.shipments[id].milestones[k] == m.shipments[id].milestones[k]
        }),
{
}

/// Only a caller allowed to act on a shipment changes it, and only by a call
/// that targets it.
pub proof fn lemma_only_authorized_callers_change_shipments(
    m: RegistryModel,
    now: u64,
    sequence: u32,
    call: RegistryCall,
    id: Seq<u8>,
)
    requires
        m.shipments.contains_key(id),
        !creates_under(m, now, sequence, call, id),
    ensures
        ({
            let t = registry_step(m, now, sequence, call);
            t.state.shipments[id] != m.shipments[id] ==> may_change(m, call, id)
        }),
{
}

/// The shipper, carrier and receiver indexes only grow: what an address had
/// listed stays listed, in the same order, at the front.
pub proof fn lemma_indexes_only_grow(
    m: RegistryModel,
    now: u64,
    sequence: u32,
    call: RegistryCall,
    who: Seq<char>,
)
    ensures
        ({
            let t = registry_step(m, now, sequence, call);
            let s0 = index_entries(m.shipper_index, who);
            let c0 = index_entries(m.carrier_index, who);
            let r0 = index_entries(m.receiver_index, who);
            let s1 = index_entries(t.state.shipper_index, who);
            let c1 = index_entries(t.state.carrier_index, who);
            let r1 = index_entries(t.state.receiver_index, who);
            &&& s0.len() <= s1.len() && s1.take(s0.len() as int) == s0
            &&& c0.len() <= c1.len() && c1.take(c0.len() as int) == c0
            &&& r0.len() <= r1.len() && r1.take(r0.len() as int) == r0
        }),
{
    let t = registry_step(m, now, sequence, call);
    let s0 = index_entries(m.shipper_index, who);
    let c0 = index_entries(m.carrier_index, who);
    let r0 = index_entries(m.receiver_index, who);
    assert(s0.take(s0.len() as int) =~= s0);
    assert(c0.take(c0.len() as int) =~= c0);
    assert(r0.take(r0.len() as int) =~= r0);
    assert(s0.push(Seq::empty()).take(s0.len() as int) =~= s0);
    assert forall|x: Seq<u8>| #[trigger] s0.push(x).take(s0.len() as int) == s0 by {
        assert(s0.push(x).take(s0.len() as int) =~= s0);
    }
    assert forall|x: Seq<u8>| #[trigger] c0.push(x).take(c0.len() as int) == c0 by {
        assert(c0.push(x).take(c0.len() as int) =~= c0);
    }
    assert forall|x: Seq<u8>| #[trigger] r0.push(x).take(r0.len() as int) == r0 by {
        assert(r0.push(x).take(r0.len() as int) =~= r0);
    }
}

/// Stored shipments stay valid: no call stores a shipment with more than
/// `MAX_MILESTONES` milestones or a location proof out of range.
pub proof fn lemma_shipments_stay_valid(m: RegistryModel, now: u64, sequence: u32, call: RegistryCall)
    requires
        shipments_valid(m),
    ensures
        shipments_valid(registry_step(m, now, sequence, call).state),
{
    let t = registry_step(m, now, sequence, call);
    assert forall|id: Seq<u8>| #[trigger] t.state.shipments.contains_key(id) implies {
        let s = t.state.shipments[id];
        &&& s.milestones.len() <= MAX_MILESTONES
        &&& forall|k: int|
            0 <= k < s.location_history.len() ==> valid_coordinates(
                #[trigger] s.location_history[k].latitude,
                s.location_history[k].longitude,
            )
    } by {
        if m.shipments.contains_key(id) {
            let s0 = m.shipments[id];
            assert(s0.milestones.len() <= MAX_MILESTONES);
            assert(forall|k: int|
                0 <= k < s0.location_history.len() ==> valid_coordinates(
                    #[trigger] s0.location_history[k].latitude,
                    s0.location_history[k].longitude,
                ));
        }
    }
}

/// The first location update of a created shipment puts it in transit.
pub proof fn lemma_first_location_update_starts_transit(
    m: RegistryModel,
    now: u64,
    sequence: u32,
    call: RegistryCall,
    id: Seq<u8>,
)
    requires
        m.shipments.contains_key(id),
        m.shipments[id].status == ShipmentStatus::Created,
        call matches RegistryCall::UpdateLocation { shipment_id, .. } && shipment_id == id,
        registry_step(m, now, sequence, call).result is Ok,
    ensures
        registry_step(m, now, sequence, call).state.shipments[id].status
            == ShipmentStatus::InTransit,
{
}

} // verus!
