//! What holds of every registry storage reachable from empty storage: each
//! stored identifier was derived from an earlier count, so a new one is
//! fresh (given that SHA-256 does not collide on seeds), and the shipper and
//! receiver lists hold exactly the shipments of each address, each once.

use vstd::prelude::*;
use crate::shipment_registry::ids::{
    id_seed_spec, lemma_seeds_differ_by_count, sha256_digest, shipment_id_for,
};
use crate::shipment_registry::model::{
    index_append, index_entries, registry_step, RegistryCall, RegistryModel,
};

verus! {

/// SHA-256 gives different digests for different 32-byte inputs. The laws
/// that need fresh identifiers take this as a hypothesis; nothing here
/// proves it.
pub open spec fn sha256_injective_on_seeds() -> bool {
    forall|a: Seq<u8>, b: Seq<u8>|
        #![trigger sha256_digest(a), sha256_digest(b)]
        a.len() == 32 && b.len() == 32 && sha256_digest(a) == sha256_digest(b) ==> a == b
}

/// Every stored identifier was derived from a count below the current one.
pub open spec fn ids_from_earlier_counts(m: RegistryModel) -> bool {
    forall|id: Seq<u8>| #[trigger]
        m.shipments.contains_key(id) ==> exists|ts: u64, sq: u32, c: u64|
            c < m.shipment_count && id == shipment_id_for(ts, sq, c)
}

/// The shipper lists hold exactly the stored shipments of each shipper, each
/// once.
pub open spec fn shipper_lists_exact(m: RegistryModel) -> bool {
    &&& forall|a: Seq<char>, x: Seq<u8>| #[trigger]
        index_entries(m.shipper_index, a).contains(x) ==> m.shipments.contains_key(x)
            && m.shipments[x].shipper@ == a
    &&& forall|x: Seq<u8>| #[trigger]
        m.shipments.contains_key(x) ==> index_entries(
            m.shipper_index,
            m.shipments[x].shipper@,
        ).contains(x)
    &&& forall|a: Seq<char>| #[trigger] index_entries(m.shipper_index, a).no_duplicates()
}

/// The receiver lists hold exactly the stored shipments of each receiver,
/// each once.
pub open spec fn receiver_lists_exact(m: RegistryModel) -> bool {
    &&& forall|a: Seq<char>, x: Seq<u8>| #[trigger]
        index_entries(m.receiver_index, a).contains(x) ==> m.shipments.contains_key(x)
            && m.shipments[x].receiver@ == a
    &&& forall|x: Seq<u8>| #[trigger]
        m.shipments.contains_key(x) ==> index_entries(
            m.receiver_index,
            m.shipments[x].receiver@,
        ).contains(x)
    &&& forall|a: Seq<char>| #[trigger] index_entries(m.receiver_index, a).no_duplicates()
}

/// The carrier lists hold only stored shipments, and each stored shipment is
/// listed for its current carrier (earlier carriers keep it listed too).
pub open spec fn carrier_lists_cover(m: RegistryModel) -> bool {
    &&& forall|a: Seq<char>, x: Seq<u8>| #[trigger]
        index_entries(m.carrier_index, a).contains(x) ==> m.shipments.contains_key(x)
    &&& forall|x: Seq<u8>| #[trigger]
        m.shipments.contains_key(x) ==> index_entries(
            m.carrier_index,
            m.shipments[x].carrier@,
        ).contains(x)
}

/// The registry's reachable-state invariant.
pub open spec fn registry_invariant(m: RegistryModel) -> bool {
    &&& ids_from_earlier_counts(m)
    &&& shipper_lists_exact(m)
    &&& receiver_lists_exact(m)
    &&& carrier_lists_cover(m)
}

/// A creation by `call` does not run the shipment count past its limit.
pub open spec fn count_fits(m: RegistryModel, call: RegistryCall) -> bool {
    call is CreateShipment ==> m.shipment_count < u64::MAX
}

/// The identifiers appended to `who`'s shipper, carrier and receiver lists by
/// `call` (see `lemma_list_updates`).
pub open spec fn appended_shipper(
    m: RegistryModel,
    now: u64,
    sequence: u32,
    call: RegistryCall,
    who: Seq<char>,
) -> Seq<Seq<u8>> {
    if registry_step(m, now, sequence, call).result is Ok && (call matches RegistryCall::CreateShipment {
        shipper,
        ..
    } && shipper@ == who) {
        seq![shipment_id_for(now, sequence, m.shipment_count)]
    } else {
        Seq::empty()
    }
}

/// See [`appended_shipper`].
pub open spec fn appended_receiver(
    m: RegistryModel,
    now: u64,
    sequence: u32,
    call: RegistryCall,
    who: Seq<char>,
) -> Seq<Seq<u8>> {
    if registry_step(m, now, sequence, call).result is Ok && (call matches RegistryCall::CreateShipment {
        receiver,
        ..
    } && receiver@ == who) {
        seq![shipment_id_for(now, sequence, m.shipment_count)]
    } else {
        Seq::empty()
    }
}

/// See [`appended_shipper`]: a creation naming `who` as carrier appends the
/// new identifier; a custody transfer to `who` appends the shipment's.
pub open spec fn appended_carrier(
    m: RegistryModel,
    now: u64,
    sequence: u32,
    call: RegistryCall,
    who: Seq<char>,
) -> Seq<Seq<u8>> {
    if registry_step(m, now, sequence, call).result is Err {
        Seq::empty()
    } else {
        match call {
            RegistryCall::CreateShipment { carrier, .. } => if carrier@ == who {
                seq![shipment_id_for(now, sequence, m.shipment_count)]
            } else {
                Seq::empty()
            },
            RegistryCall::TransferCustody { shipment_id, new_carrier, .. } => if new_carrier@
                == who {
                seq![shipment_id]
            } else {
                Seq::empty()
            },
            _ => Seq::empty(),
        }
    }
}

proof fn lemma_push_contains(s: Seq<Seq<u8>>, v: Seq<u8>, x: Seq<u8>)
    ensures
        s.push(v).contains(x) <==> (s.contains(x) || x == v),
{
    if s.contains(x) {
        let i = choose|i: int| 0 <= i < s.len() && s[i] == x;
        assert(s.push(v)[i] == x);
    }
    if x == v {
        assert(s.push(v)[s.len() as int] == x);
    }
    if s.push(v).contains(x) {
        let i = choose|i: int| 0 <= i < s.push(v).len() && s.push(v)[i] == x;
        if i < s.len() {
            assert(s[i] == x);
        }
    }
}

proof fn lemma_push_no_duplicates(s: Seq<Seq<u8>>, v: Seq<u8>)
    requires
        s.no_duplicates(),
        !s.contains(v),
    ensures
        s.push(v).no_duplicates(),
{
    let t = s.push(v);
    assert forall|i: int, j: int| 0 <= i < t.len() && 0 <= j < t.len() && i != j implies t[i]
        != t[j] by {
        if i < s.len() && j < s.len() {
            assert(t[i] == s[i] && t[j] == s[j]);
        } else if i < s.len() {
            assert(t[i] == s[i]);
            assert(s.contains(s[i]));
        } else if j < s.len() {
            assert(t[j] == s[j]);
            assert(s.contains(s[j]));
        }
    }
}

proof fn lemma_append_entries(index: Map<Seq<char>, Seq<Seq<u8>>>, who: Seq<char>, id: Seq<u8>, a: Seq<char>)
    ensures
        index_entries(index_append(index, who, id), a) == if a == who {
            index_entries(index, a).push(id)
        } else {
            index_entries(index, a)
        },
{
}

/// Empty storage keeps the invariant.
pub proof fn lemma_empty_registry_keeps_invariant(m: RegistryModel)
    requires
        m.shipments == Map::<Seq<u8>, crate::shipment_registry::types::ShipmentView>::empty(),
        m.shipper_index == Map::<Seq<char>, Seq<Seq<u8>>>::empty(),
        m.carrier_index == Map::<Seq<char>, Seq<Seq<u8>>>::empty(),
        m.receiver_index == Map::<Seq<char>, Seq<Seq<u8>>>::empty(),
    ensures
        registry_invariant(m),
{
    assert forall|a: Seq<char>| #[trigger] index_entries(m.shipper_index, a).no_duplicates() by {
        assert(index_entries(m.shipper_index, a) =~= Seq::<Seq<u8>>::empty());
    }
    assert forall|a: Seq<char>| #[trigger] index_entries(m.receiver_index, a).no_duplicates() by {
        assert(index_entries(m.receiver_index, a) =~= Seq::<Seq<u8>>::empty());
    }
}

/// Given that SHA-256 does not collide on seeds, the identifier that the
/// next creation derives is not that of any stored shipment: no creation
/// overwrites a record, and the identifiers that creations return are
/// pairwise distinct.
pub proof fn lemma_new_shipment_id_is_fresh(m: RegistryModel, now: u64, sequence: u32)
    requires
        sha256_injective_on_seeds(),
        ids_from_earlier_counts(m),
    ensures
        !m.shipments.contains_key(shipment_id_for(now, sequence, m.shipment_count)),
{
    let id = shipment_id_for(now, sequence, m.shipment_count);
    if m.shipments.contains_key(id) {
        let (ts, sq, c) = choose|ts: u64, sq: u32, c: u64|
            c < m.shipment_count && id == shipment_id_for(ts, sq, c);
        let a = id_seed_spec(ts, sq, c);
        let b = id_seed_spec(now, sequence, m.shipment_count);
        assert(a.len() == 32 && b.len() == 32);
        assert(sha256_digest(a) == sha256_digest(b));
        lemma_seeds_differ_by_count(ts, sq, c, now, sequence, m.shipment_count);
    }
}

/// Each call changes the shipper, carrier and receiver lists of an address
/// only by appending what it names for that address: a successful creation
/// appends the new identifier to the lists of its shipper, carrier and
/// receiver, and a successful custody transfer appends the shipment to the
/// new carrier's list. An address never named so keeps its lists.
pub proof fn lemma_list_updates(m: RegistryModel, now: u64, sequence: u32, call: RegistryCall, who: Seq<char>)
    ensures
        ({
            let t = registry_step(m, now, sequence, call);
            &&& index_entries(t.state.shipper_index, who) == index_entries(m.shipper_index, who)
                + appended_shipper(m, now, sequence, call, who)
            &&& index_entries(t.state.receiver_index, who) == index_entries(m.receiver_index, who)
                + appended_receiver(m, now, sequence, call, who)
            &&& index_entries(t.state.carrier_index, who) == index_entries(m.carrier_index, who)
                + appended_carrier(m, now, sequence, call, who)
        }),
{
    let s0 = index_entries(m.shipper_index, who);
    let r0 = index_entries(m.receiver_index, who);
    let c0 = index_entries(m.carrier_index, who);
    assert(s0 + Seq::<Seq<u8>>::empty() =~= s0);
    assert(r0 + Seq::<Seq<u8>>::empty() =~= r0);
    assert(c0 + Seq::<Seq<u8>>::empty() =~= c0);
    assert forall|x: Seq<u8>| #[trigger] (s0 + seq![x]) == s0.push(x) by {
        assert(s0 + seq![x] =~= s0.push(x));
    }
    assert forall|x: Seq<u8>| #[trigger] (r0 + seq![x]) == r0.push(x) by {
        assert(r0 + seq![x] =~= r0.push(x));
    }
    assert forall|x: Seq<u8>| #[trigger] (c0 + seq![x]) == c0.push(x) by {
        assert(c0 + seq![x] =~= c0.push(x));
    }
}

/// Every call keeps the registry's invariant, given that SHA-256 does not
/// collide on seeds and that a creation does not run the count past its
/// limit.
pub proof fn lemma_registry_invariant_is_kept(m: RegistryModel, now: u64, sequence: u32, call: RegistryCall)
    requires
        registry_invariant(m),
        sha256_injective_on_seeds(),
        count_fits(m, call),
    ensures
        registry_invariant(registry_step(m, now, sequence, call).state),
{
    let t = registry_step(m, now, sequence, call);
    let n = t.state;
    if t.result is Err {
        return;
    }
    match call {
        RegistryCall::Initialize { .. } => {},
        RegistryCall::CreateShipment { shipper, receiver, carrier, .. } => {
            let id = shipment_id_for(now, sequence, m.shipment_count);
            lemma_new_shipment_id_is_fresh(m, now, sequence);
            // identifiers
            assert forall|x: Seq<u8>| #[trigger] n.shipments.contains_key(x) implies exists|
                ts: u64,
                sq: u32,
                c: u64,
            | c < n.shipment_count && x == shipment_id_for(ts, sq, c) by {
                if x == id {
                    assert(m.shipment_count < n.shipment_count && x == shipment_id_for(
                        now,
                        sequence,
                        m.shipment_count,
                    ));
                } else {
                    assert(m.shipments.contains_key(x));
                    let (ts, sq, c) = choose|ts: u64, sq: u32, c: u64|
                        c < m.shipment_count && x == shipment_id_for(ts, sq, c);
                    assert(c < n.shipment_count && x == shipment_id_for(ts, sq, c));
                }
            }
            // an identifier listed anywhere before is stored, so it is not `id`
            assert forall|a: Seq<char>|
                !#[trigger] index_entries(m.shipper_index, a).contains(id) by {}
            assert forall|a: Seq<char>|
                !#[trigger] index_entries(m.receiver_index, a).contains(id) by {}
            assert forall|a: Seq<char>|
                !#[trigger] index_entries(m.carrier_index, a).contains(id) by {}
            // shipper lists
            assert forall|a: Seq<char>, x: Seq<u8>| #[trigger]
                index_entries(n.shipper_index, a).contains(x) implies n.shipments.contains_key(x)
                && n.shipments[x].shipper@ == a by {
                lemma_append_entries(m.shipper_index, shipper@, id, a);
                lemma_push_contains(index_entries(m.shipper_index, a), id, x);
            }
            assert forall|x: Seq<u8>| #[trigger] n.shipments.contains_key(x) implies index_entries(
                n.shipper_index,
                n.shipments[x].shipper@,
            ).contains(x) by {
                let a = n.shipments[x].shipper@;
                lemma_append_entries(m.shipper_index, shipper@, id, a);
                lemma_push_contains(index_entries(m.shipper_index, a), id, x);
                if x != id {
                    assert(index_entries(m.shipper_index, m.shipments[x].shipper@).contains(x));
                }
            }
            assert forall|a: Seq<char>| #[trigger]
                index_entries(n.shipper_index, a).no_duplicates() by {
                lemma_append_entries(m.shipper_index, shipper@, id, a);
                if a == shipper@ {
                    lemma_push_no_duplicates(index_entries(m.shipper_index, a), id);
                }
            }
            // receiver lists
            assert forall|a: Seq<char>, x: Seq<u8>| #[trigger]
                index_entries(n.receiver_index, a).contains(x) implies n.shipments.contains_key(x)
                && n.shipments[x].receiver@ == a by {
                lemma_append_entries(m.receiver_index, receiver@, id, a);
                lemma_push_contains(index_entries(m.receiver_index, a), id, x);
            }
            assert forall|x: Seq<u8>| #[trigger] n.shipments.contains_key(x) implies index_entries(
                n.receiver_index,
                n.shipments[x].receiver@,
            ).contains(x) by {
                let a = n.shipments[x].receiver@;
                lemma_append_entries(m.receiver_index, receiver@, id, a);
                lemma_push_contains(index_entries(m.receiver_index, a), id, x);
                if x != id {
                    assert(index_entries(m.receiver_index, m.shipments[x].receiver@).contains(x));
                }
            }
            assert forall|a: Seq<char>| #[trigger]
                index_entries(n.receiver_index, a).no_duplicates() by {
                lemma_append_entries(m.receiver_index, receiver@, id, a);
                if a == receiver@ {
                    lemma_push_no_duplicates(index_entries(m.receiver_index, a), id);
                }
            }
            // carrier lists
            assert forall|a: Seq<char>, x: Seq<u8>| #[trigger]
                index_entries(n.carrier_index, a).contains(x) implies n.shipments.contains_key(
                x,
            ) by {
                lemma_append_entries(m.carrier_index, carrier@, id, a);
                lemma_push_contains(index_entries(m.carrier_index, a), id, x);
            }
            assert forall|x: Seq<u8>| #[trigger] n.shipments.contains_key(x) implies index_entries(
                n.carrier_index,
                n.shipments[x].carrier@,
            ).contains(x) by {
                let a = n.shipments[x].carrier@;
                lemma_append_entries(m.carrier_index, carrier@, id, a);
                lemma_push_contains(index_entries(m.carrier_index, a), id, x);
                if x != id {
                    assert(index_entries(m.carrier_index, m.shipments[x].carrier@).contains(x));
                }
            }
        },
        RegistryCall::TransferCustody { shipment_id, new_carrier, .. } => {
            let id = shipment_id;
            assert(m.shipments.contains_key(id));
            assert forall|x: Seq<u8>| #[trigger] n.shipments.contains_key(x) implies exists|
                ts: u64,
                sq: u32,
                c: u64,
            | c < n.shipment_count && x == shipment_id_for(ts, sq, c) by {
                assert(m.shipments.contains_key(x));
            }
            assert forall|a: Seq<char>, x: Seq<u8>| #[trigger]
                index_entries(n.carrier_index, a).contains(x) implies n.shipments.contains_key(
                x,
            ) by {
                lemma_append_entries(m.carrier_index, new_carrier@, id, a);
                lemma_push_contains(index_entries(m.carrier_index, a), id, x);
            }
            assert forall|x: Seq<u8>| #[trigger] n.shipments.contains_key(x) implies index_entries(
                n.carrier_index,
                n.shipments[x].carrier@,
            ).contains(x) by {
                let a = n.shipments[x].carrier@;
                lemma_append_entries(m.carrier_index, new_carrier@, id, a);
                lemma_push_contains(index_entries(m.carrier_index, a), id, x);
                if x != id {
                    assert(index_entries(m.carrier_index, m.shipments[x].carrier@).contains(x));
                }
            }
            assert forall|x: Seq<u8>| #[trigger] n.shipments.contains_key(x) implies index_entries(
                n.shipper_index,
                n.shipments[x].shipper@,
            ).contains(x) by {
                assert(index_entries(m.shipper_index, m.shipments[x].shipper@).contains(x));
            }
            assert forall|x: Seq<u8>| #[trigger] n.shipments.contains_key(x) implies index_entries(
                n.receiver_index,
                n.shipments[x].receiver@,
            ).contains(x) by {
                assert(index_entries(m.receiver_index, m.shipments[x].receiver@).contains(x));
            }
        },
        _ => {
            assert forall|x: Seq<u8>| #[trigger] n.shipments.contains_key(x) implies exists|
                ts: u64,
                sq: u32,
                c: u64,
            | c < n.shipment_count && x == shipment_id_for(ts, sq, c) by {
                assert(m.shipments.contains_key(x));
            }
            assert forall|x: Seq<u8>| #[trigger] n.shipments.contains_key(x) implies index_entries(
                n.shipper_index,
                n.shipments[x].shipper@,
            ).contains(x) by {
                assert(index_entries(m.shipper_index, m.shipments[x].shipper@).contains(x));
            }
            assert forall|x: Seq<u8>| #[trigger] n.shipments.contains_key(x) implies index_entries(
                n.receiver_index,
                n.shipments[x].receiver@,
            ).contains(x) by {
                assert(index_entries(m.receiver_index, m.shipments[x].receiver@).contains(x));
            }
            assert forall|x: Seq<u8>| #[trigger] n.shipments.contains_key(x) implies index_entries(
                n.carrier_index,
                n.shipments[x].carrier@,
            ).contains(x) by {
                assert(index_entries(m.carrier_index, m.shipments[x].carrier@).contains(x));
            }
        },
    }
}

} // verus!
