//! Laws over whole runs of registry calls: the invariant holds all along,
//! each address's lists are what the run appended to them, and a shipment's
//! location history is the proofs that the run's location updates recorded.

use vstd::prelude::*;
use crate::shipment_registry::ids::shipment_id_for;
use crate::shipment_registry::invariants::{
    appended_carrier, appended_receiver, appended_shipper, lemma_list_updates,
    lemma_new_shipment_id_is_fresh, lemma_registry_invariant_is_kept, registry_invariant,
    sha256_injective_on_seeds,
};
use crate::shipment_registry::model::{index_entries, registry_step, RegistryCall, RegistryModel};
use crate::shipment_registry::types::LocationProof;

verus! {

/// A registry call made in the ledger closed at `timestamp` with number
/// `sequence`.
pub struct LedgerCall {
    pub timestamp: u64,
    pub sequence: u32,
    pub call: RegistryCall,
}

/// The storage after the calls of `steps`, in order, starting from `m`
/// (a refused call leaves the storage as it was).
pub open spec fn run(m: RegistryModel, steps: Seq<LedgerCall>) -> RegistryModel
    decreases steps.len(),
{
    if steps.len() == 0 {
        m
    } else {
        let l = steps.last();
        registry_step(run(m, steps.drop_last()), l.timestamp, l.sequence, l.call).state
    }
}

/// What the calls of `steps` append to `who`'s shipper list.
pub open spec fn run_appended_shipper(m: RegistryModel, steps: Seq<LedgerCall>, who: Seq<char>) -> Seq<
    Seq<u8>,
>
    decreases steps.len(),
{
    if steps.len() == 0 {
        Seq::empty()
    } else {
        let l = steps.last();
        run_appended_shipper(m, steps.drop_last(), who) + appended_shipper(
            run(m, steps.drop_last()),
            l.timestamp,
            l.sequence,
            l.call,
            who,
        )
    }
}

/// What the calls of `steps` append to `who`'s receiver list.
pub open spec fn run_appended_receiver(m: RegistryModel, steps: Seq<LedgerCall>, who: Seq<char>) -> Seq<
    Seq<u8>,
>
    decreases steps.len(),
{
    if steps.len() == 0 {
        Seq::empty()
    } else {
        let l = steps.last();
        run_appended_receiver(m, steps.drop_last(), who) + appended_receiver(
            run(m, steps.drop_last()),
            l.timestamp,
            l.sequence,
            l.call,
            who,
        )
    }
}

/// What the calls of `steps` append to `who`'s carrier list.
pub open spec fn run_appended_carrier(m: RegistryModel, steps: Seq<LedgerCall>, who: Seq<char>) -> Seq<
    Seq<u8>,
>
    decreases steps.len(),
{
    if steps.len() == 0 {
        Seq::empty()
    } else {
        let l = steps.last();
        run_appended_carrier(m, steps.drop_last(), who) + appended_carrier(
            run(m, steps.drop_last()),
            l.timestamp,
            l.sequence,
            l.call,
            who,
        )
    }
}

/// The proof of location that `call` records for shipment `id`: one if it
/// is a successful location update of `id`, else none.
pub open spec fn appended_proofs(
    m: RegistryModel,
    now: u64,
    sequence: u32,
    call: RegistryCall,
    id: Seq<u8>,
) -> Seq<LocationProof> {
    match call {
        RegistryCall::UpdateLocation {
            caller,
            shipment_id,
            latitude,
            longitude,
            altitude_m,
            metadata,
        } => if shipment_id == id && registry_step(m, now, sequence, call).result is Ok {
            seq![
                LocationProof {
                    latitude,
                    longitude,
                    altitude_m,
                    timestamp: now,
                    reporter: caller,
                    metadata,
                },
            ]
        } else {
            Seq::empty()
        },
        _ => Seq::empty(),
    }
}

/// The proofs of location that the calls of `steps` record for `id`, in order.
pub open spec fn run_appended_proofs(m: RegistryModel, steps: Seq<LedgerCall>, id: Seq<u8>) -> Seq<
    LocationProof,
>
    decreases steps.len(),
{
    if steps.len() == 0 {
        Seq::empty()
    } else {
        let l = steps.last();
        run_appended_proofs(m, steps.drop_last(), id) + appended_proofs(
            run(m, steps.drop_last()),
            l.timestamp,
            l.sequence,
            l.call,
            id,
        )
    }
}

/// A run of `n` calls raises the shipment count by at most `n`.
pub proof fn lemma_run_count(m: RegistryModel, steps: Seq<LedgerCall>)
    requires
        m.shipment_count + steps.len() <= u64::MAX,
    ensures
        m.shipment_count <= run(m, steps).shipment_count <= m.shipment_count + steps.len(),
    decreases steps.len(),
{
    if steps.len() > 0 {
        lemma_run_count(m, steps.drop_last());
    }
}

/// Along any run whose count stays within its limit, the registry's
/// invariant holds, given that SHA-256 does not collide on seeds: so from
/// empty storage, identifiers stay fresh and the shipper and receiver lists
/// stay exact.
pub proof fn lemma_run_keeps_invariant(m: RegistryModel, steps: Seq<LedgerCall>)
    requires
        registry_invariant(m),
        sha256_injective_on_seeds(),
        m.shipment_count + steps.len() <= u64::MAX,
    ensures
        registry_invariant(run(m, steps)),
    decreases steps.len(),
{
    if steps.len() > 0 {
        let l = steps.last();
        lemma_run_keeps_invariant(m, steps.drop_last());
        lemma_run_count(m, steps.drop_last());
        lemma_registry_invariant_is_kept(run(m, steps.drop_last()), l.timestamp, l.sequence, l.call);
    }
}

/// After any run, each address's shipper, carrier and receiver lists are
/// what they were followed by what the run appended to them: the
/// identifiers of the successful creations naming the address, in order
/// (and, for carriers, of the successful custody transfers to it). An
/// address the run never names keeps its lists, empty ones included.
pub proof fn lemma_run_lists(m: RegistryModel, steps: Seq<LedgerCall>, who: Seq<char>)
    ensures
        index_entries(run(m, steps).shipper_index, who) == index_entries(m.shipper_index, who)
            + run_appended_shipper(m, steps, who),
        index_entries(run(m, steps).receiver_index, who) == index_entries(m.receiver_index, who)
            + run_appended_receiver(m, steps, who),
        index_entries(run(m, steps).carrier_index, who) == index_entries(m.carrier_index, who)
            + run_appended_carrier(m, steps, who),
    decreases steps.len(),
{
    if steps.len() == 0 {
        assert(index_entries(m.shipper_index, who) + Seq::<Seq<u8>>::empty() =~= index_entries(
            m.shipper_index,
            who,
        ));
        assert(index_entries(m.receiver_index, who) + Seq::<Seq<u8>>::empty() =~= index_entries(
            m.receiver_index,
            who,
        ));
        assert(index_entries(m.carrier_index, who) + Seq::<Seq<u8>>::empty() =~= index_entries(
            m.carrier_index,
            who,
        ));
    } else {
        let l = steps.last();
        let prev = run(m, steps.drop_last());
        lemma_run_lists(m, steps.drop_last(), who);
        lemma_list_updates(prev, l.timestamp, l.sequence, l.call, who);
        let s0 = index_entries(m.shipper_index, who);
        let r0 = index_entries(m.receiver_index, who);
        let c0 = index_entries(m.carrier_index, who);
        assert(s0 + run_appended_shipper(m, steps.drop_last(), who) + appended_shipper(
            prev,
            l.timestamp,
            l.sequence,
            l.call,
            who,
        ) =~= s0 + run_appended_shipper(m, steps, who));
        assert(r0 + run_appended_receiver(m, steps.drop_last(), who) + appended_receiver(
            prev,
            l.timestamp,
            l.sequence,
            l.call,
            who,
        ) =~= r0 + run_appended_receiver(m, steps, who));
        assert(c0 + run_appended_carrier(m, steps.drop_last(), who) + appended_carrier(
            prev,
            l.timestamp,
            l.sequence,
            l.call,
            who,
        ) =~= c0 + run_appended_carrier(m, steps, who));
    }
}

/// One call changes the location history of a stored shipment (other than
/// by a creation under its identifier) only by appending the proof of a
/// successful location update of it.
pub proof fn lemma_history_update(
    m: RegistryModel,
    now: u64,
    sequence: u32,
    call: RegistryCall,
    id: Seq<u8>,
)
    requires
        m.shipments.contains_key(id),
        !(call is CreateShipment && shipment_id_for(now, sequence, m.shipment_count) == id),
    ensures
        registry_step(m, now, sequence, call).state.shipments.contains_key(id),
        registry_step(m, now, sequence, call).state.shipments[id].location_history
            == m.shipments[id].location_history + appended_proofs(m, now, sequence, call, id),
{
    let h = m.shipments[id].location_history;
    assert(h + Seq::<LocationProof>::empty() =~= h);
    assert forall|p: LocationProof| #[trigger] (h + seq![p]) == h.push(p) by {
        assert(h + seq![p] =~= h.push(p));
    }
}

/// The location history of a stored shipment, after any run whose count
/// stays within its limit, is what it was followed by the proofs that the
/// run's successful location updates of it recorded, oldest first (given
/// that SHA-256 does not collide on seeds, so no creation replaces it).
pub proof fn lemma_run_history(m: RegistryModel, steps: Seq<LedgerCall>, id: Seq<u8>)
    requires
        registry_invariant(m),
        sha256_injective_on_seeds(),
        m.shipment_count + steps.len() <= u64::MAX,
        m.shipments.contains_key(id),
    ensures
        run(m, steps).shipments.contains_key(id),
        run(m, steps).shipments[id].location_history == m.shipments[id].location_history
            + run_appended_proofs(m, steps, id),
    decreases steps.len(),
{
    let h = m.shipments[id].location_history;
    if steps.len() == 0 {
        assert(h + Seq::<LocationProof>::empty() =~= h);
    } else {
        let l = steps.last();
        let prev = run(m, steps.drop_last());
        lemma_run_history(m, steps.drop_last(), id);
        lemma_run_keeps_invariant(m, steps.drop_last());
        lemma_new_shipment_id_is_fresh(prev, l.timestamp, l.sequence);
        lemma_history_update(prev, l.timestamp, l.sequence, l.call, id);
        assert(h + run_appended_proofs(m, steps.drop_last(), id) + appended_proofs(
            prev,
            l.timestamp,
            l.sequence,
            l.call,
            id,
        ) =~= h + run_appended_proofs(m, steps, id));
    }
}

} // verus!
