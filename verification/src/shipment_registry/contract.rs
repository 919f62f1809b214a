//! The shipment registry contract: its storage and its calls.

use vstd::prelude::*;
use crate::host::{Address, Context, EffectView, EventView, ShipmentId};
use crate::table::{
    lemma_table_absent, lemma_table_get, lemma_table_push, lemma_table_update, table_map,
    unique_keys,
};
use crate::shipment_registry::errors::Error;
use crate::shipment_registry::events;
use crate::shipment_registry::ids::{derive_shipment_id, shipment_id_for};
use crate::shipment_registry::model::{
    index_append, index_entries, is_admin, is_party, new_milestone, new_shipment, registry_step,
    RegistryCall, RegistryModel, MAX_MILESTONES,
};
use crate::shipment_registry::types::{
    CargoDetails, LocationProof, Milestone, MilestoneInput, Shipment, ShipmentStatus,
    ShipmentView,
};

verus! {

/// The shipments listed for one address.
struct AddressIndex {
    address: Address,
    ids: Vec<ShipmentId>,
}

/// The storage of the shipment registry.
pub struct ShipmentRegistryContract {
    admin: Option<Address>,
    shipment_count: u64,
    shipments: Vec<Shipment>,
    shipper_index: Vec<AddressIndex>,
    carrier_index: Vec<AddressIndex>,
    receiver_index: Vec<AddressIndex>,
}

spec fn shipment_key() -> spec_fn(Shipment) -> Seq<u8> {
    |s: Shipment| s.id@
}

spec fn shipment_val() -> spec_fn(Shipment) -> ShipmentView {
    |s: Shipment| s@
}

spec fn index_key() -> spec_fn(AddressIndex) -> Seq<char> {
    |e: AddressIndex| e.address@
}

spec fn ids_view(ids: Seq<ShipmentId>) -> Seq<Seq<u8>> {
    ids.map_values(|a: ShipmentId| a@)
}

spec fn index_val() -> spec_fn(AddressIndex) -> Seq<Seq<u8>> {
    |e: AddressIndex| ids_view(e.ids@)
}

spec fn index_map(index: Seq<AddressIndex>) -> Map<Seq<char>, Seq<Seq<u8>>> {
    table_map(index, index_key(), index_val())
}

impl View for ShipmentRegistryContract {
    type V = RegistryModel;

    closed spec fn view(&self) -> RegistryModel {
        RegistryModel {
            admin: self.admin,
            shipment_count: self.shipment_count,
            shipments: table_map(self.shipments@, shipment_key(), shipment_val()),
            shipper_index: index_map(self.shipper_index@),
            carrier_index: index_map(self.carrier_index@),
            receiver_index: index_map(self.receiver_index@),
        }
    }
}

/// `a` and `b` are the same address.
fn same_address(a: &Address, b: &Address) -> (r: bool)
    ensures
        r == (a@ == b@),
{
    a.eq(b)
}

/// `stored` holds the bytes of `key`.
fn id_matches(stored: &ShipmentId, key: &[u8]) -> (r: bool)
    ensures
        r == (stored@ == key@),
{
    if key.len() != 32 {
        return false;
    }
    let mut i: usize = 0;
    while i < 32
        invariant
            i <= 32,
            stored@.len() == 32,
            key@.len() == 32,
            forall|j: int| 0 <= j < i ==> stored@[j] == key@[j],
        decreases 32 - i,
    {
        if stored[i] != key[i] {
            return false;
        }
        i = i + 1;
    }
    assert(stored@ =~= key@);
    true
}

/// The position of the entry for `who` in `index`, if it has one.
fn find_index(index: &Vec<AddressIndex>, who: &Address) -> (r: Option<usize>)
    ensures
        r matches Some(i) ==> i < index@.len() && index@[i as int].address@ == who@,
        r is None ==> forall|j: int| 0 <= j < index@.len() ==> index@[j].address@ != who@,
{
    let mut i: usize = 0;
    while i < index.len()
        invariant
            i <= index@.len(),
            forall|j: int| 0 <= j < i ==> index@[j].address@ != who@,
        decreases index@.len() - i,
    {
        if same_address(&index[i].address, who) {
            return Some(i);
        }
        i = i + 1;
    }
    None
}

/// A copy of a list of identifiers.
fn copy_ids(ids: &Vec<ShipmentId>) -> (res: Vec<ShipmentId>)
    ensures
        res@ == ids@,
{
    let mut res: Vec<ShipmentId> = Vec::new();
    let mut i: usize = 0;
    while i < ids.len()
        invariant
            i <= ids@.len(),
            res@ == ids@.take(i as int),
        decreases ids@.len() - i,
    {
        res.push(ids[i]);
        i = i + 1;
        assert(res@ =~= ids@.take(i as int));
    }
    assert(ids@.take(ids@.len() as int) =~= ids@);
    res
}

/// Appends `id` to the list of `who` in `index`.
fn append_to_address_index(index: &mut Vec<AddressIndex>, who: &Address, id: ShipmentId)
    requires
        unique_keys(old(index)@, index_key()),
    ensures
        unique_keys(final(index)@, index_key()),
        index_map(final(index)@) == index_append(index_map(old(index)@), who@, id@),
{
    match find_index(index, who) {
        Some(i) => {
            let mut ids = copy_ids(&index[i].ids);
            ids.push(id);
            let entry = AddressIndex { address: index[i].address.clone(), ids };
            proof {
                lemma_table_get(old(index)@, index_key(), index_val(), i as int);
                lemma_table_update(old(index)@, index_key(), index_val(), i as int, entry);
                assert(ids_view(entry.ids@) =~= ids_view(old(index)@[i as int].ids@).push(id@));
            }
            index.set(i, entry);
        },
        None => {
            let mut ids: Vec<ShipmentId> = Vec::new();
            ids.push(id);
            let entry = AddressIndex { address: who.clone(), ids };
            proof {
                lemma_table_absent(old(index)@, index_key(), index_val(), who@);
                lemma_table_push(old(index)@, index_key(), index_val(), entry);
                assert(ids_view(entry.ids@) =~= Seq::<Seq<u8>>::empty().push(id@));
            }
            index.push(entry);
        },
    }
}

/// The identifiers listed in `index` for `who`.
fn index_lookup(index: &Vec<AddressIndex>, who: &Address) -> (ids: Vec<ShipmentId>)
    requires
        unique_keys(index@, index_key()),
    ensures
        ids_view(ids@) == index_entries(index_map(index@), who@),
{
    match find_index(index, who) {
        Some(i) => {
            proof {
                lemma_table_get(index@, index_key(), index_val(), i as int);
            }
            copy_ids(&index[i].ids)
        },
        None => {
            proof {
                lemma_table_absent(index@, index_key(), index_val(), who@);
            }
            let ids: Vec<ShipmentId> = Vec::new();
            assert(ids_view(ids@) =~= Seq::<Seq<u8>>::empty());
            ids
        },
    }
}

/// The map of the shipments in `s` by identifier; a later one with the same
/// identifier replaces an earlier one.
pub open spec fn shipments_map(s: Seq<Shipment>) -> Map<Seq<u8>, ShipmentView>
    decreases s.len(),
{
    if s.len() == 0 {
        Map::empty()
    } else {
        shipments_map(s.drop_last()).insert(s.last().id@, s.last()@)
    }
}

/// The index listing the identifiers in each entry of `s` for its address; a
/// later entry for the same address replaces an earlier one.
pub open spec fn index_entries_map(s: Seq<(Address, Vec<ShipmentId>)>) -> Map<Seq<char>, Seq<Seq<u8>>>
    decreases s.len(),
{
    if s.len() == 0 {
        Map::empty()
    } else {
        index_entries_map(s.drop_last()).insert(
            s.last().0@,
            s.last().1@.map_values(|a: ShipmentId| a@),
        )
    }
}

/// Makes `ids` the list of `who` in `index`.
fn set_address_index(index: &mut Vec<AddressIndex>, who: &Address, ids: Vec<ShipmentId>)
    requires
        unique_keys(old(index)@, index_key()),
    ensures
        unique_keys(final(index)@, index_key()),
        index_map(final(index)@) == index_map(old(index)@).insert(who@, ids_view(ids@)),
{
    let entry = AddressIndex { address: who.clone(), ids };
    match find_index(index, who) {
        Some(i) => {
            proof {
                lemma_table_update(old(index)@, index_key(), index_val(), i as int, entry);
            }
            index.set(i, entry);
        },
        None => {
            proof {
                lemma_table_push(old(index)@, index_key(), index_val(), entry);
            }
            index.push(entry);
        },
    }
}

/// An index holding the entries of `entries`.
fn build_index(entries: &Vec<(Address, Vec<ShipmentId>)>) -> (index: Vec<AddressIndex>)
    ensures
        unique_keys(index@, index_key()),
        index_map(index@) == index_entries_map(entries@),
{
    let mut index: Vec<AddressIndex> = Vec::new();
    let mut k: usize = 0;
    assert(index_map(index@) =~= index_entries_map(entries@.take(0)));
    while k < entries.len()
        invariant
            k <= entries@.len(),
            unique_keys(index@, index_key()),
            index_map(index@) == index_entries_map(entries@.take(k as int)),
        decreases entries@.len() - k,
    {
        let entry = &entries[k];
        let ids = copy_ids(&entry.1);
        set_address_index(&mut index, &entry.0, ids);
        assert(entries@.take(k + 1).drop_last() =~= entries@.take(k as int));
        k = k + 1;
    }
    assert(entries@.take(entries@.len() as int) =~= entries@);
    index
}

impl ShipmentRegistryContract {
    /// The internal tables are consistent: no identifier is stored twice and
    /// no address has two index entries.
    pub closed spec fn wf(&self) -> bool {
        &&& unique_keys(self.shipments@, shipment_key())
        &&& unique_keys(self.shipper_index@, index_key())
        &&& unique_keys(self.carrier_index@, index_key())
        &&& unique_keys(self.receiver_index@, index_key())
    }

    /// Empty storage: no admin, no shipments.
    pub fn new() -> (c: Self)
        ensures
            c.wf(),
            c@.admin is None,
            c@.shipment_count == 0,
            c@.shipments == Map::<Seq<u8>, ShipmentView>::empty(),
            c@.shipper_index == Map::<Seq<char>, Seq<Seq<u8>>>::empty(),
            c@.carrier_index == Map::<Seq<char>, Seq<Seq<u8>>>::empty(),
            c@.receiver_index == Map::<Seq<char>, Seq<Seq<u8>>>::empty(),
    {
        let c = ShipmentRegistryContract {
            admin: None,
            shipment_count: 0,
            shipments: Vec::new(),
            shipper_index: Vec::new(),
            carrier_index: Vec::new(),
            receiver_index: Vec::new(),
        };
        assert(c@.shipments =~= Map::<Seq<u8>, ShipmentView>::empty());
        assert(c@.shipper_index =~= Map::<Seq<char>, Seq<Seq<u8>>>::empty());
        assert(c@.carrier_index =~= Map::<Seq<char>, Seq<Seq<u8>>>::empty());
        assert(c@.receiver_index =~= Map::<Seq<char>, Seq<Seq<u8>>>::empty());
        c
    }

    /// Storage holding `admin`, the count `shipment_count`, the shipments of
    /// `shipments` and the index entries given for shippers, carriers and
    /// receivers (where a list repeats a key, the later entry is kept).
    pub fn restore(
        admin: Option<Address>,
        shipment_count: u64,
        shipments: Vec<Shipment>,
        shipper_index: Vec<(Address, Vec<ShipmentId>)>,
        carrier_index: Vec<(Address, Vec<ShipmentId>)>,
        receiver_index: Vec<(Address, Vec<ShipmentId>)>,
    ) -> (c: Self)
        ensures
            c.wf(),
            c@.admin == admin,
            c@.shipment_count == shipment_count,
            c@.shipments == shipments_map(shipments@),
            c@.shipper_index == index_entries_map(shipper_index@),
            c@.carrier_index == index_entries_map(carrier_index@),
            c@.receiver_index == index_entries_map(receiver_index@),
    {
        let mut c = Self::new();
        let mut k: usize = 0;
        assert(c@.shipments =~= shipments_map(shipments@.take(0)));
        while k < shipments.len()
            invariant
                k <= shipments@.len(),
                c.wf(),
                c@.shipments == shipments_map(shipments@.take(k as int)),
            decreases shipments@.len() - k,
        {
            let s = shipments[k].clone();
            c.save_shipment(s);
            assert(shipments@.take(k + 1).drop_last() =~= shipments@.take(k as int));
            k = k + 1;
        }
        assert(shipments@.take(shipments@.len() as int) =~= shipments@);
        c.admin = admin;
        c.shipment_count = shipment_count;
        c.shipper_index = build_index(&shipper_index);
        c.carrier_index = build_index(&carrier_index);
        c.receiver_index = build_index(&receiver_index);
        c
    }

    /// How many shipments were created.
    pub fn shipment_count(&self) -> (n: u64)
        ensures
            n == self@.shipment_count,
    {
        self.shipment_count
    }

    /// The position of the shipment stored under `id`, if there is one.
    fn find_shipment(&self, id: &[u8]) -> (r: Option<usize>)
        requires
            self.wf(),
        ensures
            r matches Some(i) ==> {
                &&& i < self.shipments@.len()
                &&& self.shipments@[i as int].id@ == id@
                &&& self@.shipments.contains_key(id@)
                &&& self@.shipments[id@] == self.shipments@[i as int]@
            },
            r is None ==> !self@.shipments.contains_key(id@),
    {
        let mut i: usize = 0;
        while i < self.shipments.len()
            invariant
                self.wf(),
                i <= self.shipments@.len(),
                forall|j: int| 0 <= j < i ==> self.shipments@[j].id@ != id@,
            decreases self.shipments@.len() - i,
        {
            if id_matches(&self.shipments[i].id, id) {
                proof {
                    lemma_table_get(self.shipments@, shipment_key(), shipment_val(), i as int);
                }
                return Some(i);
            }
            i = i + 1;
        }
        proof {
            lemma_table_absent(self.shipments@, shipment_key(), shipment_val(), id@);
        }
        None
    }

    /// Puts `shipment` in the place of the one stored at position `i`, which
    /// has the same identifier.
    fn store_at(&mut self, i: usize, shipment: Shipment)
        requires
            old(self).wf(),
            i < old(self).shipments@.len(),
            old(self).shipments@[i as int].id@ == shipment.id@,
        ensures
            final(self).wf(),
            final(self)@ == (RegistryModel {
                shipments: old(self)@.shipments.insert(shipment.id@, shipment@),
                ..old(self)@
            }),
    {
        proof {
            lemma_table_update(self.shipments@, shipment_key(), shipment_val(), i as int, shipment);
        }
        self.shipments.set(i, shipment);
    }

    /// Stores `shipment` under its identifier, in the place of any shipment
    /// stored there before.
    fn save_shipment(&mut self, shipment: Shipment)
        requires
            old(self).wf(),
        ensures
            final(self).wf(),
            final(self)@ == (RegistryModel {
                shipments: old(self)@.shipments.insert(shipment.id@, shipment@),
                ..old(self)@
            }),
    {
        let found = self.find_shipment(vstd::array::array_as_slice(&shipment.id));
        match found {
            Some(i) => {
                self.store_at(i, shipment);
            },
            None => {
                proof {
                    assert forall|j: int| 0 <= j < self.shipments@.len() implies
                        #[trigger] self.shipments@[j].id@ != shipment.id@ by {
                        if self.shipments@[j].id@ == shipment.id@ {
                            lemma_table_get(self.shipments@, shipment_key(), shipment_val(), j);
                        }
                    }
                    lemma_table_push(self.shipments@, shipment_key(), shipment_val(), shipment);
                }
                self.shipments.push(shipment);
            },
        }
    }

    /// Takes the next identifier and counts the shipment it is for.
    fn generate_id(&mut self, ctx: &Context) -> (id: ShipmentId)
        requires
            old(self).wf(),
            old(self).shipment_count < u64::MAX,
        ensures
            final(self).wf(),
            id@ == shipment_id_for(ctx.timestamp, ctx.sequence, old(self).shipment_count),
            final(self)@ == (RegistryModel {
                shipment_count: (old(self).shipment_count + 1) as u64,
                ..old(self)@
            }),
    {
        let count = self.shipment_count;
        self.shipment_count = count + 1;
        derive_shipment_id(ctx.timestamp, ctx.sequence, count)
    }

    /// Demands the caller's authorization, then lets a party of `shipment`
    /// or the admin through.
    fn only_authorized(&self, ctx: &mut Context, shipment: &Shipment, caller: &Address) -> (r:
        Result<(), Error>)
        ensures
            final(ctx).same_ledger(old(ctx)),
            final(ctx).log() == old(ctx).log().push(EffectView::RequireAuth(*caller)),
            r is Ok <==> (is_party(shipment@, *caller) || is_admin(self@, *caller)),
            r is Err ==> r == Err::<(), Error>(Error::Unauthorized),
    {
        ctx.require_auth(caller);
        if !same_address(caller, &shipment.shipper) && !same_address(caller, &shipment.carrier)
            && !same_address(caller, &shipment.receiver) {
            match &self.admin {
                None => {
                    return Err(Error::Unauthorized);
                },
                Some(admin) => {
                    if !same_address(caller, admin) {
                        return Err(Error::Unauthorized);
                    }
                },
            }
        }
        Ok(())
    }

    /// One-time setup: sets the admin.
    pub fn initialize(&mut self, ctx: &mut Context, admin: Address) -> (res: Result<(), Error>)
        requires
            old(self).wf(),
        ensures
            final(self).wf(),
            final(ctx).same_ledger(old(ctx)),
            ({
                let t = registry_step(
                    old(self)@,
                    old(ctx).timestamp,
                    old(ctx).sequence,
                    RegistryCall::Initialize { admin },
                );
                &&& res == t.result
                &&& final(self)@ == t.state
                &&& final(ctx).log() == old(ctx).log() + t.effects
            }),
    {
        if self.admin.is_some() {
            assert(old(ctx).log() + Seq::<EffectView>::empty() =~= old(ctx).log());
            return Err(Error::AlreadyInitialized);
        }
        ctx.require_auth(&admin);
        self.admin = Some(admin);
        assert(old(ctx).log().push(EffectView::RequireAuth(admin)) =~= old(ctx).log()
            + seq![EffectView::RequireAuth(admin)]);
        Ok(())
    }

    /// Creates a shipment for `shipper` and returns its identifier.
    pub fn create_shipment(
        &mut self,
        ctx: &mut Context,
        shipper: Address,
        receiver: Address,
        carrier: Address,
        cargo: CargoDetails,
        origin: String,
        destination: String,
        milestones: Vec<MilestoneInput>,
        escrow_contract: Address,
    ) -> (res: Result<ShipmentId, Error>)
        requires
            old(self).wf(),
            old(self)@.admin is Some && milestones@.len() <= MAX_MILESTONES
                ==> old(self)@.shipment_count < u64::MAX,
        ensures
            final(self).wf(),
            final(ctx).same_ledger(old(ctx)),
            ({
                let t = registry_step(
                    old(self)@,
                    old(ctx).timestamp,
                    old(ctx).sequence,
                    RegistryCall::CreateShipment {
                        shipper,
                        receiver,
                        carrier,
                        cargo,
                        origin,
                        destination,
                        milestones: milestones@,
                        escrow_contract,
                    },
                );
                &&& match res {
                    Ok(id) => t.result is Ok && id@ == shipment_id_for(
                        old(ctx).timestamp,
                        old(ctx).sequence,
                        old(self)@.shipment_count,
                    ),
                    Err(e) => t.result == Err::<(), Error>(e),
                }
                &&& final(self)@ == t.state
                &&& final(ctx).log() == old(ctx).log() + t.effects
            }),
    {
        if self.admin.is_none() {
            assert(old(ctx).log() + Seq::<EffectView>::empty() =~= old(ctx).log());
            return Err(Error::NotInitialized);
        }
        if milestones.len() > MAX_MILESTONES {
            assert(old(ctx).log() + Seq::<EffectView>::empty() =~= old(ctx).log());
            return Err(Error::InvalidMilestoneCount);
        }
        ctx.require_auth(&shipper);
        let id = self.generate_id(ctx);
        let now = ctx.timestamp;

        let mut milestone_vec: Vec<Milestone> = Vec::new();
        let mut k: usize = 0;
        while k < milestones.len()
            invariant
                k <= milestones@.len(),
                milestone_vec@ == milestones@.take(k as int).map_values(
                    |input: MilestoneInput| new_milestone(input, shipper),
                ),
            decreases milestones@.len() - k,
        {
            let m = &milestones[k];
            milestone_vec.push(
                Milestone {
                    description: m.description.clone(),
                    location_name: m.location_name.clone(),
                    expected_ts: m.expected_ts,
                    actual_ts: 0,
                    confirmed: false,
                    confirmed_by: shipper.clone(),
                },
            );
            k = k + 1;
            assert(milestone_vec@ =~= milestones@.take(k as int).map_values(
                |input: MilestoneInput| new_milestone(input, shipper),
            ));
        }
        assert(milestones@.take(milestones@.len() as int) =~= milestones@);

        let shipment = Shipment {
            id,
            shipper: shipper.clone(),
            receiver: receiver.clone(),
            carrier: carrier.clone(),
            cargo,
            status: ShipmentStatus::Created,
            origin,
            destination,
            milestones: milestone_vec,
            location_history: Vec::new(),
            created_at: now,
            updated_at: now,
            escrow_contract,
        };
        assert(shipment@ =~= new_shipment(
            id@,
            now,
            shipper,
            receiver,
            carrier,
            cargo,
            origin,
            destination,
            milestones@,
            escrow_contract,
        ));
        self.save_shipment(shipment);
        append_to_address_index(&mut self.shipper_index, &shipper, id);
        append_to_address_index(&mut self.carrier_index, &carrier, id);
        append_to_address_index(&mut self.receiver_index, &receiver, id);
        events::shipment_created(ctx, &id, &shipper, &carrier);
        assert(ctx.log() =~= old(ctx).log() + seq![
            EffectView::RequireAuth(shipper),
            EffectView::Publish(EventView::ShipmentCreated { id: id@, shipper, carrier }),
        ]);
        Ok(id)
    }

    /// Records a proof of location for the shipment stored under
    /// `shipment_id`, made by a party of the shipment or the admin.
    pub fn update_location(
        &mut self,
        ctx: &mut Context,
        caller: Address,
        shipment_id: &[u8],
        latitude: i64,
        longitude: i64,
        altitude_m: i32,
        metadata: String,
    ) -> (res: Result<(), Error>)
        requires
            old(self).wf(),
        ensures
            final(self).wf(),
            final(ctx).same_ledger(old(ctx)),
            ({
                let t = registry_step(
                    old(self)@,
                    old(ctx).timestamp,
                    old(ctx).sequence,
                    RegistryCall::UpdateLocation {
                        caller,
                        shipment_id: shipment_id@,
                        latitude,
                        longitude,
                        altitude_m,
                        metadata,
                    },
                );
                &&& res == t.result
                &&& final(self)@ == t.state
                &&& final(ctx).log() == old(ctx).log() + t.effects
            }),
    {
        let i = match self.find_shipment(shipment_id) {
            Some(i) => i,
            None => {
                assert(old(ctx).log() + Seq::<EffectView>::empty() =~= old(ctx).log());
                return Err(Error::ShipmentNotFound);
            },
        };
        let mut shipment = self.shipments[i].clone();
        let authorized = self.only_authorized(ctx, &shipment, &caller);
        assert(ctx.log() =~= old(ctx).log() + seq![EffectView::RequireAuth(caller)]);
        if authorized.is_err() {
            return Err(Error::Unauthorized);
        }
        if shipment.status == ShipmentStatus::Delivered || shipment.status
            == ShipmentStatus::Cancelled {
            return Err(Error::ShipmentClosed);
        }
        if latitude < -90_000_000 || latitude > 90_000_000 {
            return Err(Error::InvalidLocationData);
        }
        if longitude < -180_000_000 || longitude > 180_000_000 {
            return Err(Error::InvalidLocationData);
        }
        let now = ctx.timestamp;
        let proof = LocationProof {
            latitude,
            longitude,
            altitude_m,
            timestamp: now,
            reporter: caller.clone(),
            metadata,
        };
        shipment.location_history.push(proof);
        shipment.updated_at = now;
        if shipment.status == ShipmentStatus::Created {
            shipment.status = ShipmentStatus::InTransit;
        }
        let id = shipment.id;
        self.store_at(i, shipment);
        events::location_updated(ctx, &id, &caller, latitude, longitude);
        assert(ctx.log() =~= old(ctx).log() + seq![EffectView::RequireAuth(caller)].push(
            EffectView::Publish(
                EventView::LocationUpdated {
                    id: shipment_id@,
                    reporter: caller,
                    latitude,
                    longitude,
                },
            ),
        ));
        Ok(())
    }

    /// Confirms milestone `milestone_index` of the shipment stored under
    /// `shipment_id`; the receiver or the admin may do so, once.
    pub fn confirm_milestone(
        &mut self,
        ctx: &mut Context,
        caller: Address,
        shipment_id: &[u8],
        milestone_index: u32,
    ) -> (res: Result<(), Error>)
        requires
            old(self).wf(),
        ensures
            final(self).wf(),
            final(ctx).same_ledger(old(ctx)),
            ({
                let t = registry_step(
                    old(self)@,
                    old(ctx).timestamp,
                    old(ctx).sequence,
                    RegistryCall::ConfirmMilestone {
                        caller,
                        shipment_id: shipment_id@,
                        milestone_index,
                    },
                );
                &&& res == t.result
                &&& final(self)@ == t.state
                &&& final(ctx).log() == old(ctx).log() + t.effects
            }),
    {
        let i = match self.find_shipment(shipment_id) {
            Some(i) => i,
            None => {
                assert(old(ctx).log() + Seq::<EffectView>::empty() =~= old(ctx).log());
                return Err(Error::ShipmentNotFound);
            },
        };
        let mut shipment = self.shipments[i].clone();
        ctx.require_auth(&caller);
        assert(ctx.log() =~= old(ctx).log() + seq![EffectView::RequireAuth(caller)]);
        match &self.admin {
            None => {
                return Err(Error::Unauthorized);
            },
            Some(admin) => {
                if !same_address(&caller, &shipment.receiver) && !same_address(&caller, admin) {
                    return Err(Error::Unauthorized);
                }
            },
        }
        if milestone_index as usize >= shipment.milestones.len() {
            return Err(Error::MilestoneNotFound);
        }
        let index = milestone_index as usize;
        let mut milestone = shipment.milestones[index].clone();
        if milestone.confirmed {
            return Err(Error::MilestoneAlreadyConfirmed);
        }
        let now = ctx.timestamp;
        milestone.confirmed = true;
        milestone.actual_ts = now;
        milestone.confirmed_by = caller.clone();
        shipment.milestones.set(index, milestone);
        shipment.updated_at = now;
        let id = shipment.id;
        self.store_at(i, shipment);
        events::milestone_confirmed(ctx, &id, milestone_index, &caller);
        assert(ctx.log() =~= old(ctx).log() + seq![EffectView::RequireAuth(caller)].push(
            EffectView::Publish(
                EventView::MilestoneConfirmed {
                    id: shipment_id@,
                    index: milestone_index,
                    confirmed_by: caller,
                },
            ),
        ));
        Ok(())
    }

    /// Sets the status of the shipment stored under `shipment_id`; the
    /// shipper or the admin may do so while the shipment is open.
    pub fn update_status(
        &mut self,
        ctx: &mut Context,
        caller: Address,
        shipment_id: &[u8],
        new_status: ShipmentStatus,
    ) -> (res: Result<(), Error>)
        requires
            old(self).wf(),
        ensures
            final(self).wf(),
            final(ctx).same_ledger(old(ctx)),
            ({
                let t = registry_step(
                    old(self)@,
                    old(ctx).timestamp,
                    old(ctx).sequence,
                    RegistryCall::UpdateStatus { caller, shipment_id: shipment_id@, new_status },
                );
                &&& res == t.result
                &&& final(self)@ == t.state
                &&& final(ctx).log() == old(ctx).log() + t.effects
            }),
    {
        let i = match self.find_shipment(shipment_id) {
            Some(i) => i,
            None => {
                assert(old(ctx).log() + Seq::<EffectView>::empty() =~= old(ctx).log());
                return Err(Error::ShipmentNotFound);
            },
        };
        let mut shipment = self.shipments[i].clone();
        ctx.require_auth(&caller);
        assert(ctx.log() =~= old(ctx).log() + seq![EffectView::RequireAuth(caller)]);
        match &self.admin {
            None => {
                return Err(Error::Unauthorized);
            },
            Some(admin) => {
                if !same_address(&caller, &shipment.shipper) && !same_address(&caller, admin) {
                    return Err(Error::Unauthorized);
                }
            },
        }
        if shipment.status == ShipmentStatus::Delivered || shipment.status
            == ShipmentStatus::Cancelled {
            return Err(Error::ShipmentClosed);
        }
        shipment.status = new_status;
        shipment.updated_at = ctx.timestamp;
        let id = shipment.id;
        self.store_at(i, shipment);
        events::status_changed(ctx, &id, &caller, &new_status);
        assert(ctx.log() =~= old(ctx).log() + seq![EffectView::RequireAuth(caller)].push(
            EffectView::Publish(
                EventView::StatusChanged { id: shipment_id@, caller, status: new_status },
            ),
        ));
        Ok(())
    }

    /// Hands the shipment stored under `shipment_id` to `new_carrier`; the
    /// current carrier, the shipper or the admin may do so while the
    /// shipment is open.
    pub fn transfer_custody(
        &mut self,
        ctx: &mut Context,
        caller: Address,
        shipment_id: &[u8],
        new_carrier: Address,
    ) -> (res: Result<(), Error>)
        requires
            old(self).wf(),
        ensures
            final(self).wf(),
            final(ctx).same_ledger(old(ctx)),
            ({
                let t = registry_step(
                    old(self)@,
                    old(ctx).timestamp,
                    old(ctx).sequence,
                    RegistryCall::TransferCustody { caller, shipment_id: shipment_id@, new_carrier },
                );
                &&& res == t.result
                &&& final(self)@ == t.state
                &&& final(ctx).log() == old(ctx).log() + t.effects
            }),
    {
        let i = match self.find_shipment(shipment_id) {
            Some(i) => i,
            None => {
                assert(old(ctx).log() + Seq::<EffectView>::empty() =~= old(ctx).log());
                return Err(Error::ShipmentNotFound);
            },
        };
        let mut shipment = self.shipments[i].clone();
        ctx.require_auth(&caller);
        assert(ctx.log() =~= old(ctx).log() + seq![EffectView::RequireAuth(caller)]);
        if !same_address(&caller, &shipment.carrier) && !same_address(&caller, &shipment.shipper) {
            match &self.admin {
                None => {
                    return Err(Error::Unauthorized);
                },
                Some(admin) => {
                    if !same_address(&caller, admin) {
                        return Err(Error::Unauthorized);
                    }
                },
            }
        }
        if shipment.status == ShipmentStatus::Delivered || shipment.status
            == ShipmentStatus::Cancelled {
            return Err(Error::ShipmentClosed);
        }
        let old_carrier = shipment.carrier.clone();
        shipment.carrier = new_carrier.clone();
        shipment.updated_at = ctx.timestamp;
        let id = shipment.id;
        append_to_address_index(&mut self.carrier_index, &new_carrier, id);
        self.store_at(i, shipment);
        events::custody_transferred(ctx, &id, &old_carrier, &new_carrier);
        assert(ctx.log() =~= old(ctx).log() + seq![EffectView::RequireAuth(caller)].push(
            EffectView::Publish(
                EventView::CustodyTransferred {
                    id: shipment_id@,
                    from: old(self)@.shipments[shipment_id@].carrier,
                    to: new_carrier,
                },
            ),
        ));
        Ok(())
    }

    /// The shipment stored under `shipment_id`.
    pub fn get_shipment(&self, shipment_id: &[u8]) -> (res: Result<Shipment, Error>)
        requires
            self.wf(),
        ensures
            match res {
                Ok(s) => self@.shipments.contains_key(shipment_id@) && s@ == self@.shipments[shipment_id@],
                Err(e) => !self@.shipments.contains_key(shipment_id@) && e == Error::ShipmentNotFound,
            },
    {
        match self.find_shipment(shipment_id) {
            Some(i) => Ok(self.shipments[i].clone()),
            None => Err(Error::ShipmentNotFound),
        }
    }

    /// The identifiers of the shipments that `shipper` ships, oldest first.
    pub fn get_shipments_by_shipper(&self, shipper: Address) -> (ids: Vec<ShipmentId>)
        requires
            self.wf(),
        ensures
            ids@.map_values(|a: ShipmentId| a@) == index_entries(self@.shipper_index, shipper@),
    {
        index_lookup(&self.shipper_index, &shipper)
    }

    /// The identifiers of the shipments that `carrier` carries or carried,
    /// oldest first.
    pub fn get_shipments_by_carrier(&self, carrier: Address) -> (ids: Vec<ShipmentId>)
        requires
            self.wf(),
        ensures
            ids@.map_values(|a: ShipmentId| a@) == index_entries(self@.carrier_index, carrier@),
    {
        index_lookup(&self.carrier_index, &carrier)
    }

    /// The identifiers of the shipments that `receiver` receives, oldest first.
    pub fn get_shipments_by_receiver(&self, receiver: Address) -> (ids: Vec<ShipmentId>)
        requires
            self.wf(),
        ensures
            ids@.map_values(|a: ShipmentId| a@) == index_entries(self@.receiver_index, receiver@),
    {
        index_lookup(&self.receiver_index, &receiver)
    }

    /// The location proofs of the shipment stored under `shipment_id`,
    /// oldest first.
    pub fn get_location_history(&self, shipment_id: &[u8]) -> (res: Result<Vec<LocationProof>, Error>)
        requires
            self.wf(),
        ensures
            match res {
                Ok(h) => self@.shipments.contains_key(shipment_id@) && h@ == self@.shipments[shipment_id@].location_history,
                Err(e) => !self@.shipments.contains_key(shipment_id@) && e == Error::ShipmentNotFound,
            },
    {
        match self.find_shipment(shipment_id) {
            Some(i) => {
                let h = self.shipments[i].location_history.clone();
                assert(h@ =~= self.shipments@[i as int].location_history@);
                Ok(h)
            },
            None => Err(Error::ShipmentNotFound),
        }
    }

    /// The admin.
    pub fn get_admin(&self) -> (res: Result<Address, Error>)
        ensures
            match res {
                Ok(a) => self@.admin == Some(a),
                Err(e) => self@.admin is None && e == Error::NotInitialized,
            },
    {
        match &self.admin {
            Some(a) => Ok(a.clone()),
            None => Err(Error::NotInitialized),
        }
    }
}

} // verus!
