use hubpower::names::child_display_name;

#[test]
fn database_product_name_wins() {
    assert_eq!(child_display_name(0x1d6b, 0x0002, &None), "2.0 root hub");
    // The database entry beats a reported product string.
    assert_eq!(
        child_display_name(0x1d6b, 0x0003, &Some("ignored".to_owned())),
        "3.0 root hub"
    );
}

#[test]
fn product_string_with_database_vendor() {
    // Vendor 0x1d6b is in the database, product 0xeeee is not.
    assert_eq!(
        child_display_name(0x1d6b, 0xeeee, &Some("Widget".to_owned())),
        "Widget from Linux Foundation"
    );
}

#[test]
fn product_string_with_unknown_vendor() {
    assert_eq!(
        child_display_name(0xffff, 0x0001, &Some("Widget".to_owned())),
        "Widget from [unknown vendor]"
    );
}

#[test]
fn unknown_without_product_string() {
    assert_eq!(child_display_name(0xffff, 0x0001, &None), "<unknown>");
}
