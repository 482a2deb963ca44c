use sophia_x_authority::authority_ids::NamespaceId;
use sophia_x_authority::resource::{XAuthorityAccessError, XResourceId, XResourceKind, XResourceRecord, XResourceTable};

#[test]
fn lookup_finds_what_insert_filed() {
    let mut table = XResourceTable::new();
    let id = XResourceId::new(0x20_0001, 1);
    table.insert(id, XResourceKind::Window, NamespaceId::new(3), 7).unwrap();
    let record = table.lookup(NamespaceId::new(3), id, XResourceKind::Window).unwrap();
    assert_eq!(
        *record,
        XResourceRecord { id, kind: XResourceKind::Window, owner_namespace: NamespaceId::new(3), generation: 7 }
    );
    assert_eq!(table.len(), 1);
}

#[test]
fn lookup_refusals() {
    let mut table = XResourceTable::new();
    let id = XResourceId::new(0x20_0001, 1);
    table.insert(id, XResourceKind::Pixmap, NamespaceId::new(3), 1).unwrap();
    assert_eq!(table.lookup(NamespaceId::new(0), id, XResourceKind::Pixmap).err(), Some(XAuthorityAccessError::InvalidNamespace));
    assert_eq!(
        table.lookup(NamespaceId::new(3), XResourceId::new(9, 1), XResourceKind::Pixmap).err(),
        Some(XAuthorityAccessError::UnknownResource)
    );
    assert_eq!(table.lookup(NamespaceId::new(3), id, XResourceKind::Window).err(), Some(XAuthorityAccessError::WrongResourceKind));
    assert_eq!(table.lookup(NamespaceId::new(4), id, XResourceKind::Pixmap).err(), Some(XAuthorityAccessError::CrossNamespaceDenied));
}

#[test]
fn insert_refuses_invalid_ids_and_namespaces() {
    let mut table = XResourceTable::new();
    assert_eq!(
        table.insert(XResourceId::none(), XResourceKind::Font, NamespaceId::new(1), 1),
        Err(XAuthorityAccessError::InvalidResource)
    );
    assert_eq!(
        table.insert(XResourceId::new(1, 1), XResourceKind::Font, NamespaceId::new(0), 1),
        Err(XAuthorityAccessError::InvalidNamespace)
    );
    assert!(table.is_empty());
}

#[test]
fn insert_replaces_and_remove_forgets() {
    let mut table = XResourceTable::new();
    let id = XResourceId::new(5, 2);
    table.insert(id, XResourceKind::Font, NamespaceId::new(1), 1).unwrap();
    table.insert(id, XResourceKind::Cursor, NamespaceId::new(1), 2).unwrap();
    assert_eq!(table.len(), 1);
    assert_eq!(table.get(id).unwrap().kind, XResourceKind::Cursor);
    let removed = table.remove(id).unwrap();
    assert_eq!(removed.generation, 2);
    assert!(table.get(id).is_none());
    assert!(table.remove(id).is_none());
    assert!(table.is_empty());
}
