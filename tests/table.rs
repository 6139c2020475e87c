use monort::table::{table_kind, TableKind};

#[test]
fn known_table_names_resolve() {
    assert_eq!(table_kind("default"), Some(TableKind::Default));
    assert_eq!(table_kind("demo"), Some(TableKind::Demo));
}

#[test]
fn other_table_names_are_rejected() {
    assert_eq!(table_kind(""), None);
    assert_eq!(table_kind("Default"), None);
    assert_eq!(table_kind("default "), None);
    assert_eq!(table_kind("dem"), None);
    assert_eq!(table_kind("démo"), None);
}

#[test]
fn table_names_round_trip() {
    assert_eq!(TableKind::Default.name(), "default");
    assert_eq!(TableKind::Demo.name(), "demo");
    assert_eq!(table_kind(TableKind::Demo.name()), Some(TableKind::Demo));
}
