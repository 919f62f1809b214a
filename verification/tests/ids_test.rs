use aethertrack::shipment_registry::ids::{derive_shipment_id, id_seed};

fn hex(bytes: &[u8]) -> String {
    bytes.iter().map(|b| format!("{:02x}", b)).collect()
}

#[test]
fn test_id_seed_layout() {
    let seed = id_seed(1_700_000_000, 42, 7);
    assert_eq!(
        hex(&seed),
        "000000006553f1000000002a0000000000000007000000000000000000000000"
    );
    let seed = id_seed(u64::MAX, u32::MAX, 0x0102030405060708);
    assert_eq!(&seed[0..8], &[0xff; 8]);
    assert_eq!(&seed[8..12], &[0xff; 4]);
    assert_eq!(&seed[12..20], &[1, 2, 3, 4, 5, 6, 7, 8]);
    assert_eq!(&seed[20..32], &[0; 12]);
}

#[test]
fn test_shipment_id_is_sha256_of_seed() {
    assert_eq!(
        hex(&derive_shipment_id(0, 0, 0)),
        "66687aadf862bd776c8fc18b8e9f8e20089714856ee233b3902a591d0d5f2925"
    );
    assert_eq!(
        hex(&derive_shipment_id(1_700_000_000, 42, 7)),
        "13d2b000a0b2b9e8c573e0081e3e4e04e007063f1a0875490f829431ce49f8e1"
    );
}
