use aethertrack::host::{Context, Effect, Event};
use aethertrack::shipment_registry::errors::Error;
use aethertrack::shipment_registry::types::{CargoDetails, MilestoneInput, ShipmentStatus};
use aethertrack::shipment_registry::ShipmentRegistryContract;

fn address(n: u32) -> String {
    format!("G{:0>55}", n)
}

fn setup_env() -> (Context, String, ShipmentRegistryContract) {
    let mut ctx = Context::new(0, 0, format!("C{:0>55}", 1));
    let mut client = ShipmentRegistryContract::new();
    let admin = address(1);
    client.initialize(&mut ctx, admin.clone()).unwrap();
    (ctx, admin, client)
}

fn make_cargo() -> CargoDetails {
    CargoDetails {
        description: String::from("Electronics — 50 units"),
        weight_g: 25_000,
        volume_cm3: 50_000,
        is_hazmat: false,
        is_temperature_controlled: false,
        declared_value_stroops: 10_000_000_000,
        tracking_number: String::from("TRK-2024-001"),
    }
}

fn make_milestones() -> Vec<MilestoneInput> {
    vec![
        MilestoneInput {
            description: String::from("Pickup from warehouse"),
            location_name: String::from("Lagos, Nigeria"),
            expected_ts: 1_700_000_000,
        },
        MilestoneInput {
            description: String::from("Port clearance"),
            location_name: String::from("Apapa Port, Lagos"),
            expected_ts: 1_700_086_400,
        },
        MilestoneInput {
            description: String::from("Delivery to destination"),
            location_name: String::from("Nairobi, Kenya"),
            expected_ts: 1_700_432_000,
        },
    ]
}

#[test]
fn test_create_shipment() {
    let (mut env, _admin, mut client) = setup_env();

    let shipper = address(10);
    let receiver = address(11);
    let carrier = address(12);
    let escrow = address(13);
    let cargo = make_cargo();
    let milestones = make_milestones();

    let id = client
        .create_shipment(
            &mut env,
            shipper.clone(),
            receiver.clone(),
            carrier.clone(),
            cargo,
            String::from("Lagos, Nigeria"),
            String::from("Nairobi, Kenya"),
            milestones,
            escrow,
        )
        .unwrap();

    let shipment = client.get_shipment(&id).unwrap();
    assert_eq!(shipment.shipper, shipper);
    assert_eq!(shipment.carrier, carrier);
    assert_eq!(shipment.receiver, receiver);
    assert_eq!(shipment.milestones.len(), 3);
    assert!(matches!(shipment.status, ShipmentStatus::Created));
}

#[test]
fn test_update_location_and_status_transition() {
    let (mut env, _admin, mut client) = setup_env();

    let shipper = address(10);
    let receiver = address(11);
    let carrier = address(12);
    let escrow = address(13);

    let id = client
        .create_shipment(
            &mut env,
            shipper,
            receiver,
            carrier.clone(),
            make_cargo(),
            String::from("Lagos"),
            String::from("Nairobi"),
            make_milestones(),
            escrow,
        )
        .unwrap();

    // First location update should move status -> InTransit
    client
        .update_location(
            &mut env,
            carrier,
            &id,
            6_454_000i64,
            3_396_000i64,
            0i32,
            String::from(r#"{"speed_kmh":60,"heading":90}"#),
        )
        .unwrap();

    let shipment = client.get_shipment(&id).unwrap();
    assert!(matches!(shipment.status, ShipmentStatus::InTransit));
    assert_eq!(shipment.location_history.len(), 1);
}

#[test]
fn test_confirm_milestone() {
    let (mut env, _admin, mut client) = setup_env();

    let shipper = address(10);
    let receiver = address(11);
    let carrier = address(12);
    let escrow = address(13);

    let id = client
        .create_shipment(
            &mut env,
            shipper,
            receiver.clone(),
            carrier,
            make_cargo(),
            String::from("Lagos"),
            String::from("Nairobi"),
            make_milestones(),
            escrow,
        )
        .unwrap();

    // Receiver confirms milestone 0
    client.confirm_milestone(&mut env, receiver.clone(), &id, 0).unwrap();

    let shipment = client.get_shipment(&id).unwrap();
    let m0 = &shipment.milestones[0];
    assert!(m0.confirmed);
    assert_eq!(m0.confirmed_by, receiver);
}

#[test]
fn test_transfer_custody() {
    let (mut env, _admin, mut client) = setup_env();

    let shipper = address(10);
    let receiver = address(11);
    let carrier_a = address(12);
    let carrier_b = address(14);
    let escrow = address(13);

    let id = client
        .create_shipment(
            &mut env,
            shipper,
            receiver,
            carrier_a.clone(),
            make_cargo(),
            String::from("Lagos"),
            String::from("Nairobi"),
            make_milestones(),
            escrow,
        )
        .unwrap();

    client.transfer_custody(&mut env, carrier_a, &id, carrier_b.clone()).unwrap();

    let shipment = client.get_shipment(&id).unwrap();
    assert_eq!(shipment.carrier, carrier_b);
}

#[test]
fn test_unauthorized_location_update_rejected() {
    let (mut env, _admin, mut client) = setup_env();

    let shipper = address(10);
    let receiver = address(11);
    let carrier = address(12);
    let stranger = address(15);
    let escrow = address(13);

    let id = client
        .create_shipment(
            &mut env,
            shipper,
            receiver,
            carrier,
            make_cargo(),
            String::from("Lagos"),
            String::from("Nairobi"),
            make_milestones(),
            escrow,
        )
        .unwrap();

    let result = client.update_location(
        &mut env,
        stranger,
        &id,
        6_454_000i64,
        3_396_000i64,
        0i32,
        String::from("{}"),
    );
    assert!(result.is_err());
}

#[test]
fn test_duplicate_milestone_confirm_rejected() {
    let (mut env, _admin, mut client) = setup_env();

    let shipper = address(10);
    let receiver = address(11);
    let carrier = address(12);
    let escrow = address(13);

    let id = client
        .create_shipment(
            &mut env,
            shipper,
            receiver.clone(),
            carrier,
            make_cargo(),
            String::from("Lagos"),
            String::from("Nairobi"),
            make_milestones(),
            escrow,
        )
        .unwrap();

    client.confirm_milestone(&mut env, receiver.clone(), &id, 0).unwrap();

    let result = client.confirm_milestone(&mut env, receiver, &id, 0);
    assert!(result.is_err());
}

#[test]
fn test_index_queries() {
    let (mut env, _admin, mut client) = setup_env();

    let shipper = address(10);
    let receiver = address(11);
    let carrier = address(12);
    let escrow = address(13);

    // Create two shipments for the same shipper
    client
        .create_shipment(
            &mut env,
            shipper.clone(),
            receiver.clone(),
            carrier.clone(),
            make_cargo(),
            String::from("Lagos"),
            String::from("Nairobi"),
            make_milestones(),
            escrow.clone(),
        )
        .unwrap();

    env.sequence += 1;

    client
        .create_shipment(
            &mut env,
            shipper.clone(),
            receiver,
            carrier,
            make_cargo(),
            String::from("Accra"),
            String::from("Cairo"),
            make_milestones(),
            escrow,
        )
        .unwrap();

    let ids = client.get_shipments_by_shipper(shipper);
    assert_eq!(ids.len(), 2);
}

// ── Further scenarios ───────────────────────────────────────────────────────

fn created(client: &mut ShipmentRegistryContract, env: &mut Context) -> [u8; 32] {
    client
        .create_shipment(
            env,
            address(10),
            address(11),
            address(12),
            make_cargo(),
            String::from("Lagos"),
            String::from("Nairobi"),
            make_milestones(),
            address(13),
        )
        .unwrap()
}

#[test]
fn test_initialize_twice_is_refused() {
    let (mut env, admin, mut client) = setup_env();
    assert_eq!(client.initialize(&mut env, address(2)), Err(Error::AlreadyInitialized));
    assert_eq!(client.get_admin(), Ok(admin));
}

#[test]
fn test_get_admin_before_initialize() {
    let client = ShipmentRegistryContract::new();
    assert_eq!(client.get_admin(), Err(Error::NotInitialized));
}

#[test]
fn test_create_before_initialize_is_refused() {
    let mut env = Context::new(0, 0, address(1));
    let mut client = ShipmentRegistryContract::new();
    let result = client.create_shipment(
        &mut env,
        address(10),
        address(11),
        address(12),
        make_cargo(),
        String::from("Lagos"),
        String::from("Nairobi"),
        make_milestones(),
        address(13),
    );
    assert_eq!(result, Err(Error::NotInitialized));
    assert!(env.effects.is_empty());
    assert_eq!(client.shipment_count(), 0);
}

#[test]
fn test_more_than_twenty_milestones_is_refused() {
    let (mut env, _admin, mut client) = setup_env();
    let mut milestones = Vec::new();
    for i in 0..21u64 {
        milestones.push(MilestoneInput {
            description: format!("leg {}", i),
            location_name: String::from("somewhere"),
            expected_ts: i,
        });
    }
    let result = client.create_shipment(
        &mut env,
        address(10),
        address(11),
        address(12),
        make_cargo(),
        String::from("Lagos"),
        String::from("Nairobi"),
        milestones.clone(),
        address(13),
    );
    assert_eq!(result, Err(Error::InvalidMilestoneCount));
    milestones.pop();
    let result = client.create_shipment(
        &mut env,
        address(10),
        address(11),
        address(12),
        make_cargo(),
        String::from("Lagos"),
        String::from("Nairobi"),
        milestones,
        address(13),
    );
    assert!(result.is_ok());
}

#[test]
fn test_created_shipment_record_and_effects() {
    let (mut env, _admin, mut client) = setup_env();
    env.timestamp = 1_700_000_000;
    env.sequence = 42;
    env.effects.clear();
    let id = created(&mut client, &mut env);
    // the identifier is the SHA-256 digest of the seed (timestamp, sequence, count 0)
    let expected = aethertrack::shipment_registry::ids::derive_shipment_id(1_700_000_000, 42, 0);
    assert_eq!(id, expected);
    let shipment = client.get_shipment(&id).unwrap();
    assert_eq!(shipment.id, id);
    assert_eq!(shipment.created_at, 1_700_000_000);
    assert_eq!(shipment.updated_at, 1_700_000_000);
    assert_eq!(shipment.origin, "Lagos");
    assert_eq!(shipment.destination, "Nairobi");
    assert_eq!(shipment.escrow_contract, address(13));
    assert_eq!(shipment.cargo.tracking_number, "TRK-2024-001");
    assert!(shipment.location_history.is_empty());
    for m in shipment.milestones.iter() {
        assert!(!m.confirmed);
        assert_eq!(m.actual_ts, 0);
        assert_eq!(m.confirmed_by, address(10));
    }
    assert_eq!(shipment.milestones[1].description, "Port clearance");
    assert_eq!(shipment.milestones[2].expected_ts, 1_700_432_000);
    assert_eq!(client.shipment_count(), 1);
    assert_eq!(env.effects.len(), 2);
    assert!(matches!(&env.effects[0], Effect::RequireAuth(a) if *a == address(10)));
    assert!(matches!(&env.effects[1],
        Effect::Publish(Event::ShipmentCreated { id: i, shipper, carrier })
            if *i == id && *shipper == address(10) && *carrier == address(12)));
    assert_eq!(client.get_shipments_by_carrier(address(12)), vec![id]);
    assert_eq!(client.get_shipments_by_receiver(address(11)), vec![id]);
    assert!(client.get_shipments_by_receiver(address(10)).is_empty());
}

#[test]
fn test_consecutive_shipments_get_distinct_ids() {
    let (mut env, _admin, mut client) = setup_env();
    let a = created(&mut client, &mut env);
    let b = created(&mut client, &mut env);
    assert_ne!(a, b);
    assert_eq!(client.get_shipments_by_shipper(address(10)), vec![a, b]);
    assert_eq!(client.shipment_count(), 2);
}

#[test]
fn test_unknown_shipment_is_not_found() {
    let (mut env, admin, mut client) = setup_env();
    let id = created(&mut client, &mut env);
    let mut other = id;
    other[0] ^= 1;
    assert_eq!(client.get_shipment(&other).unwrap_err(), Error::ShipmentNotFound);
    assert_eq!(client.get_shipment(&id[..31]).unwrap_err(), Error::ShipmentNotFound);
    assert_eq!(client.get_location_history(&other).unwrap_err(), Error::ShipmentNotFound);
    let before = env.effects.len();
    assert_eq!(
        client.update_location(&mut env, admin.clone(), &other, 0, 0, 0, String::new()),
        Err(Error::ShipmentNotFound)
    );
    assert_eq!(client.confirm_milestone(&mut env, admin.clone(), &other, 0), Err(Error::ShipmentNotFound));
    assert_eq!(
        client.update_status(&mut env, admin.clone(), &other, ShipmentStatus::Delivered),
        Err(Error::ShipmentNotFound)
    );
    assert_eq!(
        client.transfer_custody(&mut env, admin, &other, address(20)),
        Err(Error::ShipmentNotFound)
    );
    assert_eq!(env.effects.len(), before);
}

#[test]
fn test_location_bounds() {
    let (mut env, _admin, mut client) = setup_env();
    let id = created(&mut client, &mut env);
    let carrier = address(12);
    for (lat, lon) in [(90_000_001i64, 0i64), (-90_000_001, 0), (0, 180_000_001), (0, -180_000_001)] {
        assert_eq!(
            client.update_location(&mut env, carrier.clone(), &id, lat, lon, 0, String::new()),
            Err(Error::InvalidLocationData)
        );
    }
    assert!(client.get_location_history(&id).unwrap().is_empty());
    for (lat, lon) in [(90_000_000i64, 180_000_000i64), (-90_000_000, -180_000_000)] {
        client.update_location(&mut env, carrier.clone(), &id, lat, lon, 12, String::new()).unwrap();
    }
    let history = client.get_location_history(&id).unwrap();
    assert_eq!(history.len(), 2);
    assert_eq!(history[0].latitude, 90_000_000);
    assert_eq!(history[1].longitude, -180_000_000);
    assert_eq!(history[1].altitude_m, 12);
}

#[test]
fn test_location_proof_record_and_effects() {
    let (mut env, admin, mut client) = setup_env();
    let id = created(&mut client, &mut env);
    env.timestamp = 500;
    env.effects.clear();
    // the admin may report too
    client
        .update_location(&mut env, admin.clone(), &id, 40_712_776, -74_005_974, 10, String::from("{}"))
        .unwrap();
    let shipment = client.get_shipment(&id).unwrap();
    let proof = &shipment.location_history[0];
    assert_eq!(proof.latitude, 40_712_776);
    assert_eq!(proof.longitude, -74_005_974);
    assert_eq!(proof.timestamp, 500);
    assert_eq!(proof.reporter, admin);
    assert_eq!(shipment.updated_at, 500);
    assert!(matches!(&env.effects[1],
        Effect::Publish(Event::LocationUpdated { reporter, latitude: 40_712_776, longitude: -74_005_974, .. })
            if *reporter == admin));
    // a status set by the shipper is not overwritten by a later location
    client.update_status(&mut env, address(10), &id, ShipmentStatus::AtCheckpoint).unwrap();
    client.update_location(&mut env, address(11), &id, 1, 1, 0, String::new()).unwrap();
    assert_eq!(client.get_shipment(&id).unwrap().status, ShipmentStatus::AtCheckpoint);
}

#[test]
fn test_milestone_rules() {
    let (mut env, admin, mut client) = setup_env();
    let id = created(&mut client, &mut env);
    // shipper and carrier may not confirm
    assert_eq!(client.confirm_milestone(&mut env, address(10), &id, 0), Err(Error::Unauthorized));
    assert_eq!(client.confirm_milestone(&mut env, address(12), &id, 0), Err(Error::Unauthorized));
    assert_eq!(client.confirm_milestone(&mut env, address(11), &id, 3), Err(Error::MilestoneNotFound));
    env.timestamp = 77;
    client.confirm_milestone(&mut env, admin.clone(), &id, 2).unwrap();
    let m = &client.get_shipment(&id).unwrap().milestones[2];
    assert!(m.confirmed);
    assert_eq!(m.actual_ts, 77);
    assert_eq!(m.confirmed_by, admin);
    assert_eq!(
        client.confirm_milestone(&mut env, address(11), &id, 2),
        Err(Error::MilestoneAlreadyConfirmed)
    );
    assert!(matches!(env.effects.last().unwrap(), Effect::RequireAuth(a) if *a == address(11)));
}

#[test]
fn test_status_rules_and_closed_shipments() {
    let (mut env, admin, mut client) = setup_env();
    let id = created(&mut client, &mut env);
    assert_eq!(
        client.update_status(&mut env, address(12), &id, ShipmentStatus::Delivered),
        Err(Error::Unauthorized)
    );
    client.update_status(&mut env, address(10), &id, ShipmentStatus::Delivered).unwrap();
    assert!(matches!(env.effects.last().unwrap(),
        Effect::Publish(Event::StatusChanged { status: ShipmentStatus::Delivered, .. })));
    // a delivered shipment is closed to every change but milestone confirmation
    assert_eq!(
        client.update_status(&mut env, admin.clone(), &id, ShipmentStatus::InTransit),
        Err(Error::ShipmentClosed)
    );
    assert_eq!(
        client.update_location(&mut env, address(12), &id, 0, 0, 0, String::new()),
        Err(Error::ShipmentClosed)
    );
    assert_eq!(
        client.transfer_custody(&mut env, address(12), &id, address(20)),
        Err(Error::ShipmentClosed)
    );
    client.confirm_milestone(&mut env, address(11), &id, 0).unwrap();
    let shipment = client.get_shipment(&id).unwrap();
    assert_eq!(shipment.status, ShipmentStatus::Delivered);
    assert_eq!(shipment.carrier, address(12));
    assert!(shipment.location_history.is_empty());
}

#[test]
fn test_custody_rules_and_carrier_index() {
    let (mut env, admin, mut client) = setup_env();
    let id = created(&mut client, &mut env);
    assert_eq!(
        client.transfer_custody(&mut env, address(11), &id, address(20)),
        Err(Error::Unauthorized)
    );
    client.transfer_custody(&mut env, address(10), &id, address(20)).unwrap();
    assert!(matches!(env.effects.last().unwrap(),
        Effect::Publish(Event::CustodyTransferred { from, to, .. })
            if *from == address(12) && *to == address(20)));
    client.transfer_custody(&mut env, admin, &id, address(21)).unwrap();
    assert_eq!(client.get_shipment(&id).unwrap().carrier, address(21));
    // earlier carriers keep the shipment in their lists
    assert_eq!(client.get_shipments_by_carrier(address(12)), vec![id]);
    assert_eq!(client.get_shipments_by_carrier(address(20)), vec![id]);
    assert_eq!(client.get_shipments_by_carrier(address(21)), vec![id]);
    // the former carrier may no longer report
    assert_eq!(
        client.update_location(&mut env, address(12), &id, 0, 0, 0, String::new()),
        Err(Error::Unauthorized)
    );
}

#[test]
fn test_restore_keeps_records() {
    let (mut env, admin, mut client) = setup_env();
    let id = created(&mut client, &mut env);
    let shipment = client.get_shipment(&id).unwrap();
    let restored = ShipmentRegistryContract::restore(
        Some(admin.clone()),
        client.shipment_count(),
        vec![shipment],
        vec![(address(10), vec![id])],
        vec![(address(12), vec![id])],
        vec![(address(11), vec![id])],
    );
    assert_eq!(restored.get_admin(), Ok(admin));
    assert_eq!(restored.shipment_count(), 1);
    assert_eq!(restored.get_shipment(&id).unwrap().carrier, address(12));
    assert_eq!(restored.get_shipments_by_shipper(address(10)), vec![id]);
    assert_eq!(restored.get_shipments_by_receiver(address(11)), vec![id]);
}

#[test]
fn test_refused_calls_leave_the_shipment_unchanged() {
    let (mut env, _admin, mut client) = setup_env();
    let id = created(&mut client, &mut env);
    env.timestamp = 900;
    let stranger = address(30);
    assert_eq!(
        client.update_location(&mut env, stranger.clone(), &id, 1, 1, 0, String::new()),
        Err(Error::Unauthorized)
    );
    assert_eq!(
        client.update_status(&mut env, stranger.clone(), &id, ShipmentStatus::Cancelled),
        Err(Error::Unauthorized)
    );
    assert_eq!(client.confirm_milestone(&mut env, stranger.clone(), &id, 0), Err(Error::Unauthorized));
    assert_eq!(
        client.transfer_custody(&mut env, stranger.clone(), &id, stranger.clone()),
        Err(Error::Unauthorized)
    );
    let shipment = client.get_shipment(&id).unwrap();
    assert_eq!(shipment.status, ShipmentStatus::Created);
    assert_eq!(shipment.updated_at, 0);
    assert_eq!(shipment.carrier, address(12));
    assert!(shipment.location_history.is_empty());
    assert!(shipment.milestones.iter().all(|m| !m.confirmed));
    assert!(client.get_shipments_by_carrier(stranger).is_empty());
    // each refused call still demanded the caller's authorization
    let demands = env
        .effects
        .iter()
        .filter(|e| matches!(e, Effect::RequireAuth(a) if *a == address(30)))
        .count();
    assert_eq!(demands, 4);
}

#[test]
fn test_receiver_list_is_the_created_ids_in_order() {
    let (mut env, _admin, mut client) = setup_env();
    let receiver = address(11);
    let mut expected = Vec::new();
    for k in 0..4u32 {
        env.sequence = k;
        // alternate receivers; only those for `receiver` are listed for it
        let r = if k % 2 == 0 { receiver.clone() } else { address(40) };
        let id = client
            .create_shipment(
                &mut env,
                address(10),
                r,
                address(12),
                make_cargo(),
                String::from("Lagos"),
                String::from("Nairobi"),
                make_milestones(),
                address(13),
            )
            .unwrap();
        if k % 2 == 0 {
            expected.push(id);
        }
        client.transfer_custody(&mut env, address(12), &id, address(41)).unwrap();
    }
    assert_eq!(client.get_shipments_by_receiver(receiver), expected);
    assert_eq!(client.get_shipments_by_shipper(address(10)).len(), 4);
    assert!(client.get_shipments_by_carrier(address(42)).is_empty());
}

#[test]
fn test_location_history_round_trip() {
    let (mut env, admin, mut client) = setup_env();
    let id = created(&mut client, &mut env);
    let reports = [
        (address(12), 10i64, 20i64, 1i32, 100u64, "a"),
        (address(11), -30, 40, 2, 200, "b"),
        (admin.clone(), 50, -60, 3, 300, "c"),
    ];
    for (who, lat, lon, alt, ts, meta) in reports.iter() {
        env.timestamp = *ts;
        client
            .update_location(&mut env, who.clone(), &id, *lat, *lon, *alt, String::from(*meta))
            .unwrap();
    }
    let history = client.get_location_history(&id).unwrap();
    assert_eq!(history.len(), 3);
    for (k, (who, lat, lon, alt, ts, meta)) in reports.iter().enumerate() {
        assert_eq!(history[k].reporter, *who);
        assert_eq!(history[k].latitude, *lat);
        assert_eq!(history[k].longitude, *lon);
        assert_eq!(history[k].altitude_m, *alt);
        assert_eq!(history[k].timestamp, *ts);
        assert_eq!(history[k].metadata, *meta);
    }
}
