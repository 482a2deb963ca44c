use sophia_x_authority::atom_names::{lookup_atom, XAtomName};
use sophia_x_authority::authority_ids::NamespaceId;
use sophia_x_authority::metadata::XMetadataAtoms;
use sophia_x_authority::property::XPropertyRecord;
use sophia_x_authority::resource::XResourceId;
use sophia_x_authority::window_hints::{decode_x_window_type_client_positioned, XHintAtoms};
use sophia_x_authority::wire::XByteOrder;

fn interned(pairs: &[(&str, u32)]) -> Vec<XAtomName> {
    pairs
        .iter()
        .map(|(name, atom)| XAtomName { name: name.as_bytes().to_vec(), atom: *atom })
        .collect()
}

fn names() -> Vec<XAtomName> {
    interned(&[
        ("ATOM", 4),
        ("WM_NAME", 39),
        ("WM_CLASS", 67),
        ("WM_TRANSIENT_FOR", 68),
        ("_NET_WM_WINDOW_TYPE", 300),
        ("_NET_WM_WINDOW_TYPE_NORMAL", 301),
        ("_NET_WM_WINDOW_TYPE_DIALOG", 302),
        ("_NET_WM_WINDOW_TYPE_DOCK", 303),
        ("_NET_WM_WINDOW_TYPE_DND", 304),
        ("_NET_WM_NAME", 305),
        ("UTF8_STRING", 306),
        ("_NET_WM_PID", 307),
    ])
}

fn window_types(values: &[u32]) -> XPropertyRecord {
    XPropertyRecord {
        namespace: NamespaceId::new(1),
        window: XResourceId::new(0x20_0001, 1),
        property: 300,
        property_type: 4,
        format: 32,
        bytes: values.iter().flat_map(|v| v.to_le_bytes()).collect(),
        generation: 1,
    }
}

#[test]
fn lookup_finds_the_first_interned_name() {
    let n = interned(&[("A", 1), ("B", 2), ("A", 3)]);
    assert_eq!(lookup_atom(&n, b"A"), Some(1));
    assert_eq!(lookup_atom(&n, b"B"), Some(2));
    assert_eq!(lookup_atom(&n, b"C"), None);
}

#[test]
fn hint_atoms_fix_the_ewmh_self_placing_types() {
    let atoms = XHintAtoms::from_atom_names(&names());
    assert_eq!(atoms.atom, Some(4));
    assert_eq!(atoms.wm_transient_for, Some(68));
    assert_eq!(atoms.net_wm_window_type, Some(300));
    assert_eq!(atoms.window_type_normal, Some(301));
    assert_eq!(atoms.window, None);
    assert_eq!(atoms.client_positioned_window_types, vec![303, 302, 304]);
    let decode = |values: &[u32]| {
        decode_x_window_type_client_positioned(&window_types(values), &atoms, XByteOrder::LittleEndian)
    };
    assert_eq!(decode(&[999, 302]), Some(Ok(true)));
    assert_eq!(decode(&[301, 303]), Some(Ok(false)));
    assert_eq!(decode(&[307, 304]), Some(Ok(true)));
    assert_eq!(decode(&[999]), Some(Ok(false)));
}

#[test]
fn metadata_atoms_fix_the_identity_properties() {
    let atoms = XMetadataAtoms::from_atom_names(&names());
    assert_eq!(atoms.wm_name, Some(39));
    assert_eq!(atoms.net_wm_name, Some(305));
    assert_eq!(atoms.wm_class, Some(67));
    assert_eq!(atoms.utf8_string, Some(306));
    assert_eq!(atoms.candidate_properties, vec![39, 305, 67]);
}
