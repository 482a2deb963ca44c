use sophia_x_authority::authority_ids::NamespaceId;
use sophia_x_authority::geometry::{AxisSpan, OutputEdge, OutputReservation, Rect, Size, SurfaceConstraints};
use sophia_x_authority::property::{
    XOutputReservationDecodeError, XPropertyChange, XPropertyMode, XPropertyRecord, XPropertyTable,
    XSizeHintsDecodeError, XTransientForDecodeError, XWindowTypeDecodeError,
};
use sophia_x_authority::resource::XResourceId;
use sophia_x_authority::window_hints::{
    decode_x_output_reservations, decode_x_size_hints, decode_x_transient_for,
    decode_x_window_type_client_positioned, x_output_reservations_for_window, XHintAtoms,
    X_ATOM_CARDINAL,
};
use sophia_x_authority::wire::XByteOrder;

const LE: XByteOrder = XByteOrder::LittleEndian;
const ATOM: u32 = 4;
const WINDOW: u32 = 33;
const WM_NORMAL_HINTS: u32 = 40;
const WM_SIZE_HINTS: u32 = 41;
const WM_TRANSIENT_FOR: u32 = 68;
const NET_WM_WINDOW_TYPE: u32 = 300;
const TYPE_NORMAL: u32 = 301;
const TYPE_DIALOG: u32 = 302;
const TYPE_DOCK: u32 = 303;
const NET_WM_STRUT: u32 = 310;
const NET_WM_STRUT_PARTIAL: u32 = 311;

fn atoms() -> XHintAtoms {
    XHintAtoms {
        wm_transient_for: Some(WM_TRANSIENT_FOR),
        window: Some(WINDOW),
        wm_normal_hints: Some(WM_NORMAL_HINTS),
        wm_size_hints: Some(WM_SIZE_HINTS),
        net_wm_window_type: Some(NET_WM_WINDOW_TYPE),
        atom: Some(ATOM),
        window_type_normal: Some(TYPE_NORMAL),
        client_positioned_window_types: vec![TYPE_DIALOG, TYPE_DOCK],
        net_wm_strut: Some(NET_WM_STRUT),
        net_wm_strut_partial: Some(NET_WM_STRUT_PARTIAL),
    }
}

fn words(values: &[u32]) -> Vec<u8> {
    values.iter().flat_map(|v| v.to_le_bytes()).collect()
}

fn record(property: u32, property_type: u32, format: u8, bytes: Vec<u8>) -> XPropertyRecord {
    XPropertyRecord {
        namespace: NamespaceId::new(1),
        window: XResourceId::new(0x20_0001, 1),
        property,
        property_type,
        format,
        bytes,
        generation: 1,
    }
}

const ROOT: Rect = Rect { x: 0, y: 0, width: 1920, height: 1080 };

#[test]
fn transient_for_names_the_owner_window() {
    let decoded = decode_x_transient_for(&record(WM_TRANSIENT_FOR, WINDOW, 32, words(&[0x20_0002])), &atoms(), LE);
    assert_eq!(decoded, Some(Ok(XResourceId::new(0x20_0002, 1))));
}

#[test]
fn transient_for_refusals() {
    let a = atoms();
    assert_eq!(decode_x_transient_for(&record(39, WINDOW, 32, words(&[1])), &a, LE), None);
    assert_eq!(
        decode_x_transient_for(&record(WM_TRANSIENT_FOR, ATOM, 32, words(&[1])), &a, LE),
        Some(Err(XTransientForDecodeError::InvalidType))
    );
    assert_eq!(
        decode_x_transient_for(&record(WM_TRANSIENT_FOR, WINDOW, 8, words(&[1])), &a, LE),
        Some(Err(XTransientForDecodeError::InvalidFormat))
    );
    assert_eq!(
        decode_x_transient_for(&record(WM_TRANSIENT_FOR, WINDOW, 32, words(&[1, 2])), &a, LE),
        Some(Err(XTransientForDecodeError::InvalidLength))
    );
    assert_eq!(
        decode_x_transient_for(&record(WM_TRANSIENT_FOR, WINDOW, 32, words(&[0])), &a, LE),
        Some(Err(XTransientForDecodeError::InvalidWindow))
    );
}

fn size_hints(flags: u32, min: (u32, u32), max: (u32, u32)) -> Vec<u8> {
    words(&[flags, 0, 0, 0, 0, min.0, min.1, max.0, max.1])
}

#[test]
fn size_hints_read_the_flagged_limits() {
    let a = atoms();
    let decoded = decode_x_size_hints(
        &record(WM_NORMAL_HINTS, WM_SIZE_HINTS, 32, size_hints(16 | 32, (100, 50), (800, 600))),
        &a,
        LE,
    );
    assert_eq!(
        decoded,
        Some(Ok(SurfaceConstraints {
            min_size: Some(Size { width: 100, height: 50 }),
            max_size: Some(Size { width: 800, height: 600 }),
        }))
    );
    let unflagged =
        decode_x_size_hints(&record(WM_NORMAL_HINTS, WM_SIZE_HINTS, 32, size_hints(0, (0, 0), (0, 0))), &a, LE);
    assert_eq!(unflagged, Some(Ok(SurfaceConstraints { min_size: None, max_size: None })));
}

#[test]
fn size_hints_refusals() {
    let a = atoms();
    assert_eq!(
        decode_x_size_hints(&record(WM_NORMAL_HINTS, WM_SIZE_HINTS, 32, size_hints(16 | 32, (900, 50), (800, 600))), &a, LE),
        Some(Err(XSizeHintsDecodeError::InvalidBounds))
    );
    assert_eq!(
        decode_x_size_hints(&record(WM_NORMAL_HINTS, WM_SIZE_HINTS, 32, size_hints(16, (0, 50), (0, 0))), &a, LE),
        Some(Err(XSizeHintsDecodeError::InvalidExtent))
    );
    assert_eq!(
        decode_x_size_hints(&record(WM_NORMAL_HINTS, WM_SIZE_HINTS, 32, size_hints(32, (0, 0), (u32::MAX, 10))), &a, LE),
        Some(Err(XSizeHintsDecodeError::InvalidExtent))
    );
    assert_eq!(
        decode_x_size_hints(&record(WM_NORMAL_HINTS, WM_SIZE_HINTS, 32, words(&[0; 8])), &a, LE),
        Some(Err(XSizeHintsDecodeError::InvalidLength))
    );
    assert_eq!(
        decode_x_size_hints(&record(WM_NORMAL_HINTS, WINDOW, 32, size_hints(0, (0, 0), (0, 0))), &a, LE),
        Some(Err(XSizeHintsDecodeError::InvalidType))
    );
    assert_eq!(decode_x_size_hints(&record(WM_TRANSIENT_FOR, WM_SIZE_HINTS, 32, vec![]), &a, LE), None);
}

#[test]
fn window_type_first_known_type_decides() {
    let a = atoms();
    let decode = |values: &[u32]| {
        decode_x_window_type_client_positioned(&record(NET_WM_WINDOW_TYPE, ATOM, 32, words(values)), &a, LE)
    };
    assert_eq!(decode(&[999, TYPE_DIALOG]), Some(Ok(true)));
    assert_eq!(decode(&[TYPE_NORMAL, TYPE_DOCK]), Some(Ok(false)));
    assert_eq!(decode(&[999]), Some(Ok(false)));
    assert_eq!(decode(&[]), Some(Err(XWindowTypeDecodeError::InvalidLength)));
    assert_eq!(
        decode_x_window_type_client_positioned(&record(NET_WM_WINDOW_TYPE, ATOM, 32, vec![0; 6]), &a, LE),
        Some(Err(XWindowTypeDecodeError::InvalidLength))
    );
    assert_eq!(
        decode_x_window_type_client_positioned(&record(NET_WM_WINDOW_TYPE, WINDOW, 32, words(&[TYPE_DOCK])), &a, LE),
        Some(Err(XWindowTypeDecodeError::InvalidType))
    );
}

#[test]
fn partial_strut_reserves_the_given_ranges() {
    let a = atoms();
    let bytes = words(&[0, 0, 30, 0, 0, 0, 0, 0, 0, 1919, 0, 0]);
    let decoded = decode_x_output_reservations(&record(NET_WM_STRUT_PARTIAL, X_ATOM_CARDINAL, 32, bytes), &a, LE, ROOT);
    assert_eq!(
        decoded,
        Some(Ok(vec![OutputReservation {
            edge: OutputEdge::Top,
            depth: 30,
            span: AxisSpan { start: 0, end: 1920 },
        }]))
    );
}

#[test]
fn partial_strut_refusals() {
    let a = atoms();
    let decode = |bytes: Vec<u8>, root: Rect| {
        decode_x_output_reservations(&record(NET_WM_STRUT_PARTIAL, X_ATOM_CARDINAL, 32, bytes), &a, LE, root)
    };
    assert_eq!(
        decode(words(&[0, 0, 30, 0, 0, 0, 0, 0, 0, 1920, 0, 0]), ROOT),
        Some(Err(XOutputReservationDecodeError::ValueOutOfRange))
    );
    assert_eq!(
        decode(words(&[2000, 0, 0, 0, 0, 10, 0, 0, 0, 0, 0, 0]), ROOT),
        Some(Err(XOutputReservationDecodeError::ValueOutOfRange))
    );
    assert_eq!(decode(words(&[0; 4]), ROOT), Some(Err(XOutputReservationDecodeError::InvalidLength)));
    assert_eq!(
        decode(words(&[0; 12]), Rect { x: 0, y: 0, width: 0, height: 1080 }),
        Some(Err(XOutputReservationDecodeError::InvalidRoot))
    );
    assert_eq!(
        decode_x_output_reservations(&record(NET_WM_STRUT_PARTIAL, ATOM, 32, words(&[0; 12])), &a, LE, ROOT),
        Some(Err(XOutputReservationDecodeError::InvalidType))
    );
    assert_eq!(
        decode_x_output_reservations(&record(NET_WM_STRUT_PARTIAL, X_ATOM_CARDINAL, 8, words(&[0; 12])), &a, LE, ROOT),
        Some(Err(XOutputReservationDecodeError::InvalidFormat))
    );
    assert_eq!(decode_x_output_reservations(&record(WINDOW, X_ATOM_CARDINAL, 32, words(&[0; 12])), &a, LE, ROOT), None);
}

#[test]
fn legacy_strut_reserves_whole_edges() {
    let a = atoms();
    let decoded = decode_x_output_reservations(
        &record(NET_WM_STRUT, X_ATOM_CARDINAL, 32, words(&[10, 0, 0, 20])),
        &a,
        LE,
        ROOT,
    );
    assert_eq!(
        decoded,
        Some(Ok(vec![
            OutputReservation { edge: OutputEdge::Left, depth: 10, span: AxisSpan { start: 0, end: 1080 } },
            OutputReservation { edge: OutputEdge::Bottom, depth: 20, span: AxisSpan { start: 0, end: 1920 } },
        ]))
    );
    assert_eq!(
        decode_x_output_reservations(&record(NET_WM_STRUT, X_ATOM_CARDINAL, 32, words(&[0, 0, 2000, 0])), &a, LE, ROOT),
        Some(Err(XOutputReservationDecodeError::ValueOutOfRange))
    );
}

fn store(table: &mut XPropertyTable, property: u32, values: &[u32]) {
    table
        .apply_change(
            NamespaceId::new(1),
            XPropertyChange {
                mode: XPropertyMode::Replace,
                window: XResourceId::new(0x20_0001, 1),
                property,
                property_type: X_ATOM_CARDINAL,
                format: 32,
                bytes: words(values),
            },
        )
        .unwrap();
}

#[test]
fn window_reservations_prefer_the_partial_strut() {
    let a = atoms();
    let namespace = NamespaceId::new(1);
    let window = XResourceId::new(0x20_0001, 1);
    let mut table = XPropertyTable::new();
    assert!(x_output_reservations_for_window(&table, &a, namespace, window, LE, ROOT).is_empty());
    store(&mut table, NET_WM_STRUT, &[0, 0, 25, 0]);
    let legacy = x_output_reservations_for_window(&table, &a, namespace, window, LE, ROOT);
    assert_eq!(legacy, vec![OutputReservation { edge: OutputEdge::Top, depth: 25, span: AxisSpan { start: 0, end: 1920 } }]);
    store(&mut table, NET_WM_STRUT_PARTIAL, &[0, 0, 30, 0, 0, 0, 0, 0, 100, 199, 0, 0]);
    let partial = x_output_reservations_for_window(&table, &a, namespace, window, LE, ROOT);
    assert_eq!(partial, vec![OutputReservation { edge: OutputEdge::Top, depth: 30, span: AxisSpan { start: 100, end: 200 } }]);
    store(&mut table, NET_WM_STRUT_PARTIAL, &[0, 0, 30, 0]);
    let fallback = x_output_reservations_for_window(&table, &a, namespace, window, LE, ROOT);
    assert_eq!(fallback, legacy);
}
