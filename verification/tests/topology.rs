use hubpower::topology::{resolve_topology, resolve_topology_checked, DeviceRecord};

fn record(bus: &str, chain: &[u8], product: Option<&str>) -> DeviceRecord {
    DeviceRecord {
        vendor_id: 0xffff,
        product_id: 0xffff,
        usb_version: 0x0200,
        bus_id: bus.to_owned(),
        class: 0,
        port_chain: chain.to_vec(),
        product_string: product.map(|p| p.to_owned()),
        manufacturer_string: None,
        serial_number: None,
    }
}

#[test]
fn children_assigned_by_chain_prefix() {
    let hub = record("bus0", &[2], None);
    let devices = vec![
        record("bus0", &[2, 1], Some("KeyPad")),
        record("bus0", &[2, 3], Some("Camera")),
        record("bus0", &[5, 1], Some("Elsewhere")),
    ];
    let t = resolve_topology(&hub, 3, &devices);
    assert_eq!(t.names.len(), 3);
    assert!(t.names[0].starts_with("KeyPad"));
    assert_eq!(t.names[1], "<no device>");
    assert!(t.names[2].starts_with("Camera"));
    assert!(t.errors.is_empty());
}

#[test]
fn candidate_on_other_bus_is_excluded() {
    let hub = record("bus0", &[2], None);
    let devices = vec![record("bus1", &[2, 1], Some("OtherBus"))];
    let t = resolve_topology(&hub, 2, &devices);
    assert_eq!(t.names, vec!["<no device>", "<no device>"]);
    assert!(t.errors.is_empty());
}

#[test]
fn deeper_descendants_are_not_direct_children() {
    let hub = record("bus0", &[2], None);
    let devices = vec![record("bus0", &[2, 1, 4], Some("Grandchild"))];
    let t = resolve_topology(&hub, 2, &devices);
    assert_eq!(t.names, vec!["<no device>", "<no device>"]);
    assert!(t.errors.is_empty());
}

#[test]
fn port_zero_is_reported_and_excluded() {
    let hub = record("bus0", &[2], None);
    let devices = vec![
        record("bus0", &[2, 0], Some("Broken")),
        record("bus0", &[2, 2], Some("Fine")),
    ];
    let t = resolve_topology(&hub, 2, &devices);
    assert_eq!(t.errors, vec![0]);
    assert_eq!(t.names[0], "<no device>");
    assert!(t.names[1].starts_with("Fine"));
}

#[test]
fn every_invalid_record_is_reported_by_index() {
    let hub = record("bus0", &[2], None);
    let devices = vec![
        record("bus0", &[2, 0], Some("BrokenA")),
        record("bus0", &[2, 1], Some("Fine")),
        record("bus0", &[2, 0], Some("BrokenB")),
    ];
    let t = resolve_topology(&hub, 2, &devices);
    assert_eq!(t.errors, vec![0, 2]);
    assert!(t.names[0].starts_with("Fine"));
}

#[test]
fn later_record_overrides_same_port() {
    let hub = record("bus0", &[7, 1], None);
    let devices = vec![
        record("bus0", &[7, 1, 2], Some("First")),
        record("bus0", &[7, 1, 2], Some("Second")),
    ];
    let t = resolve_topology(&hub, 2, &devices);
    assert!(t.names[1].starts_with("Second"));
}

#[test]
fn hub_with_empty_chain_matches_root_devices() {
    let hub = record("bus0", &[], None);
    let devices = vec![record("bus0", &[3], Some("RootChild"))];
    let t = resolve_topology(&hub, 4, &devices);
    assert!(t.names[2].starts_with("RootChild"));
    assert_eq!(t.names[0], "<no device>");
}

#[test]
fn zero_port_count_yields_empty_map() {
    let hub = record("bus0", &[2], None);
    let devices: Vec<DeviceRecord> = Vec::new();
    let t = resolve_topology(&hub, 0, &devices);
    assert!(t.names.is_empty());
    assert!(t.errors.is_empty());
}

#[test]
fn checked_resolver_rejects_out_of_range_port() {
    let hub = record("bus0", &[2], None);
    let devices = vec![record("bus0", &[2, 9], Some("TooFar"))];
    assert!(resolve_topology_checked(&hub, 3, &devices).is_none());
    let t = resolve_topology_checked(&hub, 9, &devices).unwrap();
    assert!(t.names[8].starts_with("TooFar"));
}
