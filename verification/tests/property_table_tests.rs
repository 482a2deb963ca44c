use sophia_x_authority::authority_ids::NamespaceId;
use sophia_x_authority::property::{
    read_property_value, XPropertyChange, XPropertyError, XPropertyMode, XPropertyRead,
    XPropertyTable, X_PROPERTY_ANY_TYPE, X_PROPERTY_MAX_TABLE_BYTES, X_PROPERTY_MAX_VALUE_BYTES,
};
use sophia_x_authority::resource::XResourceId;

const STRING: u32 = 31;
const CARDINAL: u32 = 6;

fn ns(raw: u64) -> NamespaceId {
    NamespaceId::new(raw)
}

fn window(raw: u64) -> XResourceId {
    XResourceId::new(raw, 1)
}

fn change(mode: XPropertyMode, window: XResourceId, property: u32, bytes: &[u8]) -> XPropertyChange {
    XPropertyChange { mode, window, property, property_type: STRING, format: 8, bytes: bytes.to_vec() }
}

fn read_all(window: XResourceId, property: u32, delete: bool) -> XPropertyRead {
    XPropertyRead { delete, window, property, property_type: X_PROPERTY_ANY_TYPE, long_offset: 0, long_length: 1024 }
}

#[test]
fn read_returns_what_replace_wrote() {
    let mut table = XPropertyTable::new();
    let record = table.apply_change(ns(1), change(XPropertyMode::Replace, window(5), 39, b"xterm")).unwrap();
    assert_eq!(record.generation, 1);
    let outcome = table.read_property(ns(1), read_all(window(5), 39, false)).unwrap();
    assert_eq!(outcome.reply.bytes, b"xterm".to_vec());
    assert_eq!(outcome.reply.property_type, STRING);
    assert_eq!(outcome.reply.format, 8);
    assert_eq!(outcome.reply.bytes_after, 0);
    assert_eq!(outcome.reply.item_count, 5);
    assert!(!outcome.deleted);
    assert_eq!(table.len(), 1);
}

#[test]
fn append_and_prepend_concatenate_and_bump_generation() {
    let mut table = XPropertyTable::new();
    table.apply_change(ns(1), change(XPropertyMode::Replace, window(5), 39, b"bc")).unwrap();
    let appended = table.apply_change(ns(1), change(XPropertyMode::Append, window(5), 39, b"d")).unwrap();
    assert_eq!(appended.bytes, b"bcd".to_vec());
    assert_eq!(appended.generation, 2);
    let prepended = table.apply_change(ns(1), change(XPropertyMode::Prepend, window(5), 39, b"a")).unwrap();
    assert_eq!(prepended.bytes, b"abcd".to_vec());
    assert_eq!(prepended.generation, 3);
}

#[test]
fn append_to_missing_property_stores_new_value() {
    let mut table = XPropertyTable::new();
    let record = table.apply_change(ns(1), change(XPropertyMode::Append, window(5), 39, b"x")).unwrap();
    assert_eq!(record.bytes, b"x".to_vec());
    assert_eq!(record.generation, 1);
}

#[test]
fn append_with_other_type_is_a_type_mismatch() {
    let mut table = XPropertyTable::new();
    table.apply_change(ns(1), change(XPropertyMode::Replace, window(5), 39, b"bc")).unwrap();
    let mut other = change(XPropertyMode::Append, window(5), 39, b"1234");
    other.property_type = CARDINAL;
    other.format = 32;
    assert_eq!(table.apply_change(ns(1), other), Err(XPropertyError::TypeMismatch));
    let outcome = table.read_property(ns(1), read_all(window(5), 39, false)).unwrap();
    assert_eq!(outcome.reply.bytes, b"bc".to_vec());
}

#[test]
fn invalid_changes_are_refused() {
    let mut table = XPropertyTable::new();
    assert_eq!(
        table.apply_change(ns(0), change(XPropertyMode::Replace, window(5), 39, b"x")),
        Err(XPropertyError::InvalidNamespace)
    );
    assert_eq!(
        table.apply_change(ns(1), change(XPropertyMode::Replace, XResourceId::new(0, 1), 39, b"x")),
        Err(XPropertyError::InvalidWindow)
    );
    let mut bad_format = change(XPropertyMode::Replace, window(5), 39, b"x");
    bad_format.format = 12;
    assert_eq!(table.apply_change(ns(1), bad_format), Err(XPropertyError::InvalidFormat(12)));
    let too_large = vec![0u8; X_PROPERTY_MAX_VALUE_BYTES + 1];
    assert_eq!(
        table.apply_change(ns(1), change(XPropertyMode::Replace, window(5), 39, &too_large)),
        Err(XPropertyError::ValueTooLarge { len: X_PROPERTY_MAX_VALUE_BYTES + 1, max: X_PROPERTY_MAX_VALUE_BYTES })
    );
    assert!(table.is_empty());
}

#[test]
fn append_beyond_value_bound_is_refused() {
    let mut table = XPropertyTable::new();
    let full = vec![1u8; X_PROPERTY_MAX_VALUE_BYTES];
    table.apply_change(ns(1), change(XPropertyMode::Replace, window(5), 39, &full)).unwrap();
    assert_eq!(
        table.apply_change(ns(1), change(XPropertyMode::Append, window(5), 39, b"x")),
        Err(XPropertyError::ValueTooLarge { len: X_PROPERTY_MAX_VALUE_BYTES + 1, max: X_PROPERTY_MAX_VALUE_BYTES })
    );
}

#[test]
fn table_bound_refuses_the_value_that_would_exceed_it() {
    let mut table = XPropertyTable::new();
    let full = vec![1u8; X_PROPERTY_MAX_VALUE_BYTES];
    let fits = X_PROPERTY_MAX_TABLE_BYTES / X_PROPERTY_MAX_VALUE_BYTES;
    for property in 0..fits as u32 {
        table.apply_change(ns(1), change(XPropertyMode::Replace, window(5), 100 + property, &full)).unwrap();
    }
    assert_eq!(
        table.apply_change(ns(1), change(XPropertyMode::Replace, window(6), 1, b"x")),
        Err(XPropertyError::TableTooLarge { len: X_PROPERTY_MAX_TABLE_BYTES + 1, max: X_PROPERTY_MAX_TABLE_BYTES })
    );
    // Replacing a stored value by a same-sized one still fits.
    table.apply_change(ns(1), change(XPropertyMode::Replace, window(5), 100, &full)).unwrap();
    assert_eq!(table.len(), fits);
}

#[test]
fn delete_read_removes_whole_value_only() {
    let mut table = XPropertyTable::new();
    table.apply_change(ns(1), change(XPropertyMode::Replace, window(5), 39, b"abcdefgh")).unwrap();
    let mut partial = read_all(window(5), 39, true);
    partial.long_length = 1;
    let outcome = table.read_property(ns(1), partial).unwrap();
    assert_eq!(outcome.reply.bytes, b"abcd".to_vec());
    assert_eq!(outcome.reply.bytes_after, 4);
    assert!(!outcome.deleted);
    let outcome = table.read_property(ns(1), read_all(window(5), 39, true)).unwrap();
    assert!(outcome.deleted);
    assert!(table.get(ns(1), window(5), 39).is_none());
    let missing = table.read_property(ns(1), read_all(window(5), 39, false)).unwrap();
    assert_eq!(missing.reply.property_type, X_PROPERTY_ANY_TYPE);
    assert_eq!(missing.reply.format, 0);
    assert!(missing.reply.bytes.is_empty());
}

#[test]
fn namespaces_do_not_see_each_others_properties() {
    let mut table = XPropertyTable::new();
    table.apply_change(ns(1), change(XPropertyMode::Replace, window(5), 39, b"one")).unwrap();
    assert!(table.get(ns(2), window(5), 39).is_none());
    let outcome = table.read_property(ns(2), read_all(window(5), 39, false)).unwrap();
    assert!(outcome.reply.bytes.is_empty());
}

#[test]
fn read_value_slices_by_four_byte_units() {
    let bytes = b"0123456789";
    let reply = read_property_value(STRING, 8, bytes, X_PROPERTY_ANY_TYPE, 1, 1).unwrap();
    assert_eq!(reply.bytes, b"4567".to_vec());
    assert_eq!(reply.bytes_after, 2);
    assert_eq!(reply.item_count, 4);
    let reply = read_property_value(CARDINAL, 32, bytes, CARDINAL, 0, 100).unwrap();
    assert_eq!(reply.item_count, 2);
    assert_eq!(read_property_value(STRING, 8, bytes, X_PROPERTY_ANY_TYPE, 3, 1), Err(XPropertyError::InvalidOffset));
    let mismatch = read_property_value(STRING, 8, bytes, CARDINAL, 0, 1).unwrap();
    assert_eq!(mismatch.property_type, STRING);
    assert_eq!(mismatch.bytes_after, 10);
    assert_eq!(mismatch.item_count, 0);
    assert!(mismatch.bytes.is_empty());
}

#[test]
fn window_queries_list_in_order_and_remove_window_counts() {
    let mut table = XPropertyTable::new();
    for (w, p) in [(7u64, 40u32), (5, 39), (5, 12), (9, 39)] {
        table.apply_change(ns(1), change(XPropertyMode::Replace, window(w), p, b"v")).unwrap();
    }
    table.apply_change(ns(2), change(XPropertyMode::Replace, window(5), 1, b"v")).unwrap();
    assert_eq!(table.properties_for_window(ns(1), window(5)), vec![12, 39]);
    assert_eq!(table.windows_with_property(ns(1), 39), vec![window(5), window(9)]);
    assert_eq!(table.remove_window(ns(1), window(5)), 2);
    assert_eq!(table.len(), 3);
    assert!(table.properties_for_window(ns(1), window(5)).is_empty());
    assert_eq!(table.properties_for_window(ns(2), window(5)), vec![1]);
    let removed = table.remove(ns(1), window(7), 40).unwrap();
    assert_eq!(removed.bytes, b"v".to_vec());
    assert!(table.remove(ns(1), window(7), 40).is_none());
}
