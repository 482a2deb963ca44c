use sophia_x_authority::authority_ids::{NamespaceId, SurfaceId};
use sophia_x_authority::metadata::{
    reduce_metadata_property, reduce_window_metadata, MetadataDisclosure, MetadataDisclosureRule,
    XMetadataAtoms, MAX_CHROME_LABEL_LEN,
};
use sophia_x_authority::property::{XPropertyChange, XPropertyMode, XPropertyTable};
use sophia_x_authority::resource::XResourceId;

const WM_NAME: u32 = 39;
const WM_CLASS: u32 = 67;
const STRING: u32 = 31;
const NET_WM_NAME: u32 = 300;
const UTF8_STRING: u32 = 301;
const NET_WM_PID: u32 = 302;
const CARDINAL: u32 = 6;

fn atoms() -> XMetadataAtoms {
    XMetadataAtoms {
        wm_name: Some(WM_NAME),
        net_wm_name: Some(NET_WM_NAME),
        wm_class: Some(WM_CLASS),
        utf8_string: Some(UTF8_STRING),
        candidate_properties: vec![WM_NAME, WM_CLASS, NET_WM_NAME, NET_WM_PID],
    }
}

fn ns() -> NamespaceId {
    NamespaceId::new(1)
}

fn window() -> XResourceId {
    XResourceId::new(0x20_0001, 1)
}

fn surface() -> SurfaceId {
    SurfaceId { index: 4, generation: 1 }
}

fn rule(disclosure: MetadataDisclosure) -> Option<MetadataDisclosureRule> {
    Some(MetadataDisclosureRule { surface: surface(), disclosure })
}

fn set(table: &mut XPropertyTable, property: u32, property_type: u32, format: u8, bytes: &[u8]) -> u64 {
    table
        .apply_change(
            ns(),
            XPropertyChange {
                mode: XPropertyMode::Replace,
                window: window(),
                property,
                property_type,
                format,
                bytes: bytes.to_vec(),
            },
        )
        .unwrap()
        .generation
}

fn editor_window() -> (XPropertyTable, u64) {
    let mut table = XPropertyTable::new();
    set(&mut table, WM_NAME, STRING, 8, b"secret plans.txt - Editor");
    let newest = set(&mut table, WM_CLASS, STRING, 8, b"editor\0Editor\0");
    (table, newest)
}

#[test]
fn class_only_discloses_the_class_and_never_the_title() {
    let (table, newest) = editor_window();
    let candidate = reduce_window_metadata(
        &table,
        &atoms(),
        ns(),
        window(),
        surface(),
        rule(MetadataDisclosure::ClassOnly),
    )
    .unwrap();
    let label = candidate.label.unwrap();
    assert_eq!(label.text, "Editor");
    assert!(!label.redacted);
    assert_eq!(candidate.disclosure, MetadataDisclosure::ClassOnly);
    assert_eq!(candidate.surface, surface());
    assert_eq!(candidate.generation, newest);
}

#[test]
fn full_prefers_the_net_wm_name_title() {
    let (mut table, _) = editor_window();
    let newest = set(&mut table, NET_WM_NAME, UTF8_STRING, 8, "Café menu".as_bytes());
    let candidate =
        reduce_window_metadata(&table, &atoms(), ns(), window(), surface(), rule(MetadataDisclosure::Full))
            .unwrap();
    assert_eq!(candidate.label.unwrap().text, "Café menu");
    assert_eq!(candidate.generation, newest);
}

#[test]
fn full_falls_back_to_wm_name_then_class() {
    let (table, _) = editor_window();
    let candidate =
        reduce_window_metadata(&table, &atoms(), ns(), window(), surface(), rule(MetadataDisclosure::Full))
            .unwrap();
    assert_eq!(candidate.label.unwrap().text, "secret plans.txt - Editor");

    let mut table = XPropertyTable::new();
    set(&mut table, WM_NAME, STRING, 8, b"\x07bell");
    set(&mut table, WM_CLASS, STRING, 8, b"term\0Term\0");
    let candidate =
        reduce_window_metadata(&table, &atoms(), ns(), window(), surface(), rule(MetadataDisclosure::Full))
            .unwrap();
    assert_eq!(candidate.label.unwrap().text, "Term");
}

#[test]
fn a_surface_without_a_rule_discloses_nothing() {
    let (table, newest) = editor_window();
    let candidate = reduce_window_metadata(&table, &atoms(), ns(), window(), surface(), None).unwrap();
    assert_eq!(candidate.label, None);
    assert_eq!(candidate.disclosure, MetadataDisclosure::Withheld);
    assert_eq!(candidate.generation, newest);

    let other = Some(MetadataDisclosureRule {
        surface: SurfaceId { index: 9, generation: 1 },
        disclosure: MetadataDisclosure::Full,
    });
    let candidate = reduce_window_metadata(&table, &atoms(), ns(), window(), surface(), other).unwrap();
    assert_eq!(candidate.label, None);
    assert_eq!(candidate.disclosure, MetadataDisclosure::Withheld);
}

#[test]
fn a_window_without_identity_properties_gives_no_candidate() {
    let mut table = XPropertyTable::new();
    set(&mut table, 500, CARDINAL, 32, &[1, 0, 0, 0]);
    assert_eq!(
        reduce_window_metadata(&table, &atoms(), ns(), window(), surface(), rule(MetadataDisclosure::Full)),
        None
    );
    let pid_generation = set(&mut table, NET_WM_PID, CARDINAL, 32, &[7, 0, 0, 0]);
    let candidate =
        reduce_window_metadata(&table, &atoms(), ns(), window(), surface(), rule(MetadataDisclosure::Full))
            .unwrap();
    assert_eq!(candidate.label, None);
    assert_eq!(candidate.generation, pid_generation);
}

#[test]
fn labels_are_trimmed_bounded_and_cut_on_character_boundaries() {
    let mut table = XPropertyTable::new();
    set(&mut table, WM_NAME, STRING, 8, b"\0\0Title\0");
    let candidate =
        reduce_window_metadata(&table, &atoms(), ns(), window(), surface(), rule(MetadataDisclosure::Full))
            .unwrap();
    let label = candidate.label.unwrap();
    assert_eq!(label.text, "Title");
    assert!(!label.redacted);

    let long = vec![b'a'; MAX_CHROME_LABEL_LEN + 44];
    set(&mut table, WM_NAME, STRING, 8, &long);
    let label =
        reduce_window_metadata(&table, &atoms(), ns(), window(), surface(), rule(MetadataDisclosure::Full))
            .unwrap()
            .label
            .unwrap();
    assert_eq!(label.text.len(), MAX_CHROME_LABEL_LEN);
    assert!(label.redacted);

    let accented = "é".repeat(MAX_CHROME_LABEL_LEN);
    set(&mut table, NET_WM_NAME, UTF8_STRING, 8, accented.as_bytes());
    let label =
        reduce_window_metadata(&table, &atoms(), ns(), window(), surface(), rule(MetadataDisclosure::Full))
            .unwrap()
            .label
            .unwrap();
    assert_eq!(label.text, "é".repeat(MAX_CHROME_LABEL_LEN / 2));
    assert!(label.redacted);
}

#[test]
fn property_text_is_utf8_or_latin1() {
    let mut table = XPropertyTable::new();
    set(&mut table, NET_WM_NAME, UTF8_STRING, 8, &[0x66, 0xff, 0x6f]);
    set(&mut table, WM_NAME, STRING, 8, &[0x63, 0x61, 0x66, 0xe9]);
    let candidate =
        reduce_window_metadata(&table, &atoms(), ns(), window(), surface(), rule(MetadataDisclosure::Full))
            .unwrap();
    assert_eq!(candidate.label.unwrap().text, "café");
}

#[test]
fn a_single_class_field_is_read_as_the_class() {
    let mut table = XPropertyTable::new();
    let generation = set(&mut table, WM_CLASS, STRING, 8, b"solo\0");
    let record = table.get(ns(), window(), WM_CLASS).unwrap();
    let candidate =
        reduce_metadata_property(record, &atoms(), surface(), rule(MetadataDisclosure::ClassOnly));
    assert_eq!(candidate.label.unwrap().text, "solo");
    assert_eq!(candidate.generation, generation);
    assert!(MetadataDisclosure::ClassOnly.discloses_text());
    assert!(!MetadataDisclosure::Withheld.discloses_text());

    let mut table = XPropertyTable::new();
    set(&mut table, WM_NAME, STRING, 8, b"title");
    let record = table.get(ns(), window(), WM_NAME).unwrap();
    let candidate =
        reduce_metadata_property(record, &atoms(), surface(), rule(MetadataDisclosure::ClassOnly));
    assert_eq!(candidate.label, None);
    assert_eq!(candidate.disclosure, MetadataDisclosure::ClassOnly);
}
