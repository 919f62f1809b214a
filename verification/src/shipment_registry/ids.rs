//! How a shipment's identifier is derived: the SHA-256 digest of a 32-byte
//! seed made of the ledger timestamp, the ledger sequence number and the
//! number of shipments created before.

use vstd::prelude::*;
use crate::host::ShipmentId;
use soroban_sdk::{Bytes, Env};

verus! {

/// The SHA-256 digest of `data`, as the ledger host computes it.
pub uninterp spec fn sha256_digest(data: Seq<u8>) -> Seq<u8>;

/// Byte `i` (0 is the most significant) of the big-endian encoding of `x`.
pub open spec fn be_byte_u64(x: u64, i: int) -> u8 {
    (x >> ((56 - 8 * i) as u64)) as u8
}

/// Byte `i` (0 is the most significant) of the big-endian encoding of `x`.
pub open spec fn be_byte_u32(x: u32, i: int) -> u8 {
    (x >> ((24 - 8 * i) as u32)) as u8
}

/// The seed of a shipment identifier: the timestamp in bytes 0..8, the
/// sequence number in bytes 8..12 and the count in bytes 12..20, each
/// big-endian, and zeros in bytes 20..32.
pub open spec fn id_seed_spec(timestamp: u64, sequence: u32, count: u64) -> Seq<u8> {
    Seq::new(
        32,
        |i: int|
            if i < 8 {
                be_byte_u64(timestamp, i)
            } else if i < 12 {
                be_byte_u32(sequence, i - 8)
            } else if i < 20 {
                be_byte_u64(count, i - 12)
            } else {
                0u8
            },
    )
}

/// The identifier given to the shipment created in the ledger closed at
/// `timestamp` with number `sequence`, after `count` earlier shipments.
pub open spec fn shipment_id_for(timestamp: u64, sequence: u32, count: u64) -> Seq<u8> {
    sha256_digest(id_seed_spec(timestamp, sequence, count))
}

/// Different counts give different seeds, whatever the ledger: the seeds of
/// the shipments a registry creates, one count apart each, are pairwise
/// distinct (their digests are distinct unless SHA-256 collides).
pub proof fn lemma_seeds_differ_by_count(
    timestamp1: u64,
    sequence1: u32,
    count1: u64,
    timestamp2: u64,
    sequence2: u32,
    count2: u64,
)
    requires
        count1 != count2,
    ensures
        id_seed_spec(timestamp1, sequence1, count1) != id_seed_spec(timestamp2, sequence2, count2),
{
    let a = id_seed_spec(timestamp1, sequence1, count1);
    let b = id_seed_spec(timestamp2, sequence2, count2);
    if a == b {
        assert(forall|i: int| 12 <= i < 20 ==> a[i] == b[i]);
        assert(a[12] == be_byte_u64(count1, 0) && b[12] == be_byte_u64(count2, 0));
        assert(a[13] == be_byte_u64(count1, 1) && b[13] == be_byte_u64(count2, 1));
        assert(a[14] == be_byte_u64(count1, 2) && b[14] == be_byte_u64(count2, 2));
        assert(a[15] == be_byte_u64(count1, 3) && b[15] == be_byte_u64(count2, 3));
        assert(a[16] == be_byte_u64(count1, 4) && b[16] == be_byte_u64(count2, 4));
        assert(a[17] == be_byte_u64(count1, 5) && b[17] == be_byte_u64(count2, 5));
        assert(a[18] == be_byte_u64(count1, 6) && b[18] == be_byte_u64(count2, 6));
        assert(a[19] == be_byte_u64(count1, 7) && b[19] == be_byte_u64(count2, 7));
        let x = count1;
        let y = count2;
        assert(x == y) by (bit_vector)
            requires
                (x >> 56u64) as u8 == (y >> 56u64) as u8,
                (x >> 48u64) as u8 == (y >> 48u64) as u8,
                (x >> 40u64) as u8 == (y >> 40u64) as u8,
                (x >> 32u64) as u8 == (y >> 32u64) as u8,
                (x >> 24u64) as u8 == (y >> 24u64) as u8,
                (x >> 16u64) as u8 == (y >> 16u64) as u8,
                (x >> 8u64) as u8 == (y >> 8u64) as u8,
                (x >> 0u64) as u8 == (y >> 0u64) as u8,
        ;
    }
}

/// Builds the seed of a shipment identifier.
pub fn id_seed(timestamp: u64, sequence: u32, count: u64) -> (seed: [u8; 32])
    ensures
        seed@ == id_seed_spec(timestamp, sequence, count),
{
    let mut buf = [0u8; 32];
    let mut i: usize = 0;
    while i < 8
        invariant
            i <= 8,
            buf@.len() == 32,
            forall|j: int| 0 <= j < i ==> buf@[j] == be_byte_u64(timestamp, j),
            forall|j: int| 8 <= j < 32 ==> buf@[j] == 0u8,
        decreases 8 - i,
    {
        let byte: u8 = (timestamp >> (56 - 8 * (i as u64))) as u8;
        buf[i] = byte;
        i = i + 1;
    }
    let mut i: usize = 0;
    while i < 4
        invariant
            i <= 4,
            buf@.len() == 32,
            forall|j: int| 0 <= j < 8 ==> buf@[j] == be_byte_u64(timestamp, j),
            forall|j: int| 8 <= j < 8 + i ==> buf@[j] == be_byte_u32(sequence, j - 8),
            forall|j: int| 8 + i <= j < 32 ==> buf@[j] == 0u8,
        decreases 4 - i,
    {
        let byte: u8 = (sequence >> (24 - 8 * (i as u32))) as u8;
        buf[8 + i] = byte;
        i = i + 1;
    }
    let mut i: usize = 0;
    while i < 8
        invariant
            i <= 8,
            buf@.len() == 32,
            forall|j: int| 0 <= j < 8 ==> buf@[j] == be_byte_u64(timestamp, j),
            forall|j: int| 8 <= j < 12 ==> buf@[j] == be_byte_u32(sequence, j - 8),
            forall|j: int| 12 <= j < 12 + i ==> buf@[j] == be_byte_u64(count, j - 12),
            forall|j: int| 12 + i <= j < 32 ==> buf@[j] == 0u8,
        decreases 8 - i,
    {
        let byte: u8 = (count >> (56 - 8 * (i as u64))) as u8;
        buf[12 + i] = byte;
        i = i + 1;
    }
    assert(buf@ =~= id_seed_spec(timestamp, sequence, count));
    buf
}

/// Calls `soroban_sdk::crypto::Crypto::sha256` on `data`, in a host
/// environment of its own. The contract claims only that the digest is
/// `sha256_digest` of the input bytes (its length, 32, is the array's).
#[verifier::external_body]
fn sha256(data: &[u8; 32]) -> (digest: [u8; 32])
    ensures
        digest@ == sha256_digest(data@),
{
    let env = Env::default();
    let input = Bytes::from_array(&env, data);
    env.crypto().sha256(&input).to_array()
}

/// The identifier of the shipment created in the ledger closed at
/// `timestamp` with number `sequence`, after `count` earlier shipments.
pub fn derive_shipment_id(timestamp: u64, sequence: u32, count: u64) -> (id: ShipmentId)
    ensures
        id@ == shipment_id_for(timestamp, sequence, count),
{
    let seed = id_seed(timestamp, sequence, count);
    sha256(&seed)
}

} // verus!
