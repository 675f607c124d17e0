use hubpower::ports::HubPorts;

fn sample() -> HubPorts {
    HubPorts::new(
        vec!["Mouse".to_owned(), "<no device>".to_owned(), "Disk".to_owned()],
        vec![true, false, true],
    )
}

#[test]
fn new_pairs_names_with_states() {
    let hub = sample();
    assert_eq!(hub.len(), 3);
    assert_eq!(hub.children[0], ("Mouse".to_owned(), true));
    assert_eq!(hub.children[1], ("<no device>".to_owned(), false));
    assert_eq!(hub.children[2], ("Disk".to_owned(), true));
}

#[test]
fn selection_rows_carry_one_based_indices() {
    let rows = sample().selection();
    assert_eq!(rows.len(), 3);
    for (i, row) in rows.iter().enumerate() {
        assert_eq!(row.index as usize, i + 1);
    }
    assert_eq!(rows[0].name, "Mouse");
    assert!(rows[0].powered);
    assert_eq!(rows[1].name, "<no device>");
    assert!(!rows[1].powered);
}

#[test]
fn set_toggled_flips_only_that_port() {
    let mut hub = sample();
    hub.set_toggled(2);
    assert_eq!(hub.children[0], ("Mouse".to_owned(), true));
    assert_eq!(hub.children[1], ("<no device>".to_owned(), true));
    assert_eq!(hub.children[2], ("Disk".to_owned(), true));
}

#[test]
fn toggling_twice_restores_cached_state() {
    let mut hub = sample();
    hub.set_toggled(1);
    hub.set_toggled(1);
    assert_eq!(hub.children[0], ("Mouse".to_owned(), true));
}
