//! Decoding the window-manager hints clients store as properties: the window
//! a dialog belongs to, size limits, the window type, and the output space a
//! panel reserves.
use vstd::prelude::*;

use crate::authority_ids::{AuthorityLocalId, NamespaceId};
use crate::geometry::{AxisSpan, OutputEdge, OutputReservation, Rect, Size, SurfaceConstraints};
use crate::property::{
    PropertyKey, PropertyValue, XAtom, XOutputReservationDecodeError, XPropertyRecord,
    XPropertyTable, XSizeHintsDecodeError, XTransientForDecodeError, XWindowTypeDecodeError,
};
use crate::resource::XResourceId;
use crate::wire::{XByteOrder, law_u32_read_inverts_write, read_u32, u32_at, u32_bytes};

verus! {

/// The predefined `CARDINAL` atom.
pub const X_ATOM_CARDINAL: XAtom = 6;

/// The atoms the server's atom table holds for the names the hint decoders
/// look for; `None` for a name nobody interned. An atom table gives each name
/// one atom, so an atom carries a name exactly when it is that name's atom.
#[derive(Clone, Debug, PartialEq, Eq)]
pub struct XHintAtoms {
    /// `WM_TRANSIENT_FOR`
    pub wm_transient_for: Option<XAtom>,
    /// `WINDOW`
    pub window: Option<XAtom>,
    /// `WM_NORMAL_HINTS`
    pub wm_normal_hints: Option<XAtom>,
    /// `WM_SIZE_HINTS`
    pub wm_size_hints: Option<XAtom>,
    /// `_NET_WM_WINDOW_TYPE`
    pub net_wm_window_type: Option<XAtom>,
    /// `ATOM`
    pub atom: Option<XAtom>,
    /// `_NET_WM_WINDOW_TYPE_NORMAL`
    pub window_type_normal: Option<XAtom>,
    /// The window types whose windows place themselves: `_NET_WM_WINDOW_TYPE_`
    /// followed by `DESKTOP`, `DOCK`, `TOOLBAR`, `MENU`, `UTILITY`, `SPLASH`,
    /// `DIALOG`, `DROPDOWN_MENU`, `POPUP_MENU`, `TOOLTIP`, `NOTIFICATION`,
    /// `COMBO` or `DND`, those of them that are interned.
    pub client_positioned_window_types: Vec<XAtom>,
    /// `_NET_WM_STRUT`
    pub net_wm_strut: Option<XAtom>,
    /// `_NET_WM_STRUT_PARTIAL`
    pub net_wm_strut_partial: Option<XAtom>,
}

/// Whether `candidate` is the atom of the name `known` stands for.
pub open spec fn is_named(known: Option<XAtom>, candidate: XAtom) -> bool {
    known == Some(candidate)
}

pub(crate) fn is_named_atom(known: Option<XAtom>, candidate: XAtom) -> (named: bool)
    ensures
        named == is_named(known, candidate),
{
    match known {
        Some(atom) => atom == candidate,
        None => false,
    }
}

/// The window a transient window belongs to: one 32-bit window id.
pub open spec fn transient_for_of(
    atoms: XHintAtoms,
    order: XByteOrder,
    property: XAtom,
    value: PropertyValue,
) -> Option<Result<XResourceId, XTransientForDecodeError>> {
    if !is_named(atoms.wm_transient_for, property) {
        None
    } else if !is_named(atoms.window, value.property_type) {
        Some(Err(XTransientForDecodeError::InvalidType))
    } else if value.format != 32 {
        Some(Err(XTransientForDecodeError::InvalidFormat))
    } else if value.bytes.len() != 4 {
        Some(Err(XTransientForDecodeError::InvalidLength))
    } else if u32_at(order, value.bytes, 0) == 0 {
        Some(Err(XTransientForDecodeError::InvalidWindow))
    } else {
        Some(
            Ok(
                XResourceId {
                    local: AuthorityLocalId { raw: u32_at(order, value.bytes, 0) as u64, generation: 1 },
                },
            ),
        )
    }
}

/// A `WM_TRANSIENT_FOR` value a client wrote as one 32-bit window id, in its
/// own byte order, decodes to that window.
pub proof fn law_transient_for_reads_the_window_written(
    atoms: XHintAtoms,
    order: XByteOrder,
    window: u32,
    generation: u64,
)
    requires
        atoms.wm_transient_for is Some,
        atoms.window is Some,
        window != 0,
    ensures
        transient_for_of(
            atoms,
            order,
            atoms.wm_transient_for->0,
            PropertyValue {
                property_type: atoms.window->0,
                format: 32,
                bytes: u32_bytes(order, window),
                generation,
            },
        ) == Some(
            Ok::<XResourceId, XTransientForDecodeError>(
                XResourceId { local: AuthorityLocalId { raw: window as u64, generation: 1 } },
            ),
        ),
{
    law_u32_read_inverts_write(order, window);
}

/// Decodes `WM_TRANSIENT_FOR`; `None` for any other property.
pub fn decode_x_transient_for(
    record: &XPropertyRecord,
    atoms: &XHintAtoms,
    byte_order: XByteOrder,
) -> (decoded: Option<Result<XResourceId, XTransientForDecodeError>>)
    ensures
        decoded == transient_for_of(*atoms, byte_order, record.property, record@),
{
    if !is_named_atom(atoms.wm_transient_for, record.property) {
        return None;
    }
    if !is_named_atom(atoms.window, record.property_type) {
        return Some(Err(XTransientForDecodeError::InvalidType));
    }
    if record.format != 32 {
        return Some(Err(XTransientForDecodeError::InvalidFormat));
    }
    if record.bytes.len() != 4 {
        return Some(Err(XTransientForDecodeError::InvalidLength));
    }
    let raw = read_u32(byte_order, record.bytes.as_slice(), 0) as u64;
    let owner = XResourceId::new(raw, 1);
    if !owner.is_valid() {
        return Some(Err(XTransientForDecodeError::InvalidWindow));
    }
    Some(Ok(owner))
}

/// The `index`th 32-bit field of a hint, as a signed value.
pub open spec fn hint_field(order: XByteOrder, bytes: Seq<u8>, index: int) -> i32 {
    u32_at(order, bytes, 4 * index) as i32
}

/// The size in fields `width` and `height`, refused unless both are positive.
pub open spec fn hint_extent(order: XByteOrder, bytes: Seq<u8>, width: int, height: int) -> Result<
    Size,
    XSizeHintsDecodeError,
> {
    let size = Size { width: hint_field(order, bytes, width), height: hint_field(order, bytes, height) };
    if size.width > 0 && size.height > 0 {
        Ok(size)
    } else {
        Err(XSizeHintsDecodeError::InvalidExtent)
    }
}

/// The `PMinSize` flag of `WM_SIZE_HINTS`.
pub const X_SIZE_HINT_MIN_SIZE: u32 = 16;

/// The `PMaxSize` flag of `WM_SIZE_HINTS`.
pub const X_SIZE_HINT_MAX_SIZE: u32 = 32;

/// The size limits of `WM_NORMAL_HINTS`: at least nine 32-bit fields, the
/// first the flags, the minimum size in fields 5 and 6 and the maximum in 7
/// and 8; each read only where its flag is set, and a minimum larger than
/// the maximum refused.
pub open spec fn size_hints_of(
    atoms: XHintAtoms,
    order: XByteOrder,
    property: XAtom,
    value: PropertyValue,
) -> Option<Result<SurfaceConstraints, XSizeHintsDecodeError>> {
    let bytes = value.bytes;
    let flags = u32_at(order, bytes, 0);
    let has_min = flags & X_SIZE_HINT_MIN_SIZE != 0;
    let has_max = flags & X_SIZE_HINT_MAX_SIZE != 0;
    let min = hint_extent(order, bytes, 5, 6);
    let max = hint_extent(order, bytes, 7, 8);
    if !is_named(atoms.wm_normal_hints, property) {
        None
    } else if !is_named(atoms.wm_size_hints, value.property_type) {
        Some(Err(XSizeHintsDecodeError::InvalidType))
    } else if value.format != 32 {
        Some(Err(XSizeHintsDecodeError::InvalidFormat))
    } else if bytes.len() < 36 {
        Some(Err(XSizeHintsDecodeError::InvalidLength))
    } else if has_min && min is Err {
        Some(Err(XSizeHintsDecodeError::InvalidExtent))
    } else if has_max && max is Err {
        Some(Err(XSizeHintsDecodeError::InvalidExtent))
    } else {
        let min_size = if has_min {
            Some(min->Ok_0)
        } else {
            None
        };
        let max_size = if has_max {
            Some(max->Ok_0)
        } else {
            None
        };
        if has_min && has_max && (min->Ok_0.width > max->Ok_0.width || min->Ok_0.height
            > max->Ok_0.height) {
            Some(Err(XSizeHintsDecodeError::InvalidBounds))
        } else {
            Some(Ok(SurfaceConstraints { min_size, max_size }))
        }
    }
}

fn read_hint_extent(order: XByteOrder, bytes: &[u8], width: usize, height: usize) -> (extent:
    Result<Size, XSizeHintsDecodeError>)
    requires
        4 * width + 4 <= bytes@.len(),
        4 * height + 4 <= bytes@.len(),
    ensures
        extent == hint_extent(order, bytes@, width as int, height as int),
{
    let _len = bytes.len();
    let size = Size {
        width: #[verifier::truncate] (read_u32(order, bytes, 4 * width) as i32),
        height: #[verifier::truncate] (read_u32(order, bytes, 4 * height) as i32),
    };
    if size.width > 0 && size.height > 0 {
        Ok(size)
    } else {
        Err(XSizeHintsDecodeError::InvalidExtent)
    }
}

/// Decodes `WM_NORMAL_HINTS` into size limits; `None` for any other property.
pub fn decode_x_size_hints(
    record: &XPropertyRecord,
    atoms: &XHintAtoms,
    byte_order: XByteOrder,
) -> (decoded: Option<Result<SurfaceConstraints, XSizeHintsDecodeError>>)
    ensures
        decoded == size_hints_of(*atoms, byte_order, record.property, record@),
{
    if !is_named_atom(atoms.wm_normal_hints, record.property) {
        return None;
    }
    if !is_named_atom(atoms.wm_size_hints, record.property_type) {
        return Some(Err(XSizeHintsDecodeError::InvalidType));
    }
    if record.format != 32 {
        return Some(Err(XSizeHintsDecodeError::InvalidFormat));
    }
    if record.bytes.len() < 36 {
        return Some(Err(XSizeHintsDecodeError::InvalidLength));
    }
    let bytes = record.bytes.as_slice();
    let flags = read_u32(byte_order, bytes, 0);
    let min_size = if flags & X_SIZE_HINT_MIN_SIZE != 0 {
        match read_hint_extent(byte_order, bytes, 5, 6) {
            Ok(size) => Some(size),
            Err(error) => return Some(Err(error)),
        }
    } else {
        None
    };
    let max_size = if flags & X_SIZE_HINT_MAX_SIZE != 0 {
        match read_hint_extent(byte_order, bytes, 7, 8) {
            Ok(size) => Some(size),
            Err(error) => return Some(Err(error)),
        }
    } else {
        None
    };
    if let (Some(minimum), Some(maximum)) = (min_size, max_size) {
        if minimum.width > maximum.width || minimum.height > maximum.height {
            return Some(Err(XSizeHintsDecodeError::InvalidBounds));
        }
    }
    Some(Ok(SurfaceConstraints { min_size, max_size }))
}

/// Whether a window of type `atom` places itself (`true`), is managed as a
/// normal window (`false`), or says neither (`None`).
pub open spec fn window_type_class(atoms: XHintAtoms, atom: XAtom) -> Option<bool> {
    if is_named(atoms.window_type_normal, atom) {
        Some(false)
    } else if atoms.client_positioned_window_types@.contains(atom) {
        Some(true)
    } else {
        None
    }
}

/// The class of the first type, from byte `at` on, that says either.
pub open spec fn first_window_type(
    atoms: XHintAtoms,
    order: XByteOrder,
    bytes: Seq<u8>,
    at: int,
) -> Option<bool>
    decreases bytes.len() - at,
{
    if at < 0 || at + 4 > bytes.len() {
        None
    } else {
        match window_type_class(atoms, u32_at(order, bytes, at)) {
            Some(positioned) => Some(positioned),
            None => first_window_type(atoms, order, bytes, at + 4),
        }
    }
}

/// Whether `_NET_WM_WINDOW_TYPE` makes the window place itself: the first
/// type listed that is known decides, and a window with none is normal.
pub open spec fn window_type_of(
    atoms: XHintAtoms,
    order: XByteOrder,
    property: XAtom,
    value: PropertyValue,
) -> Option<Result<bool, XWindowTypeDecodeError>> {
    if !is_named(atoms.net_wm_window_type, property) {
        None
    } else if !is_named(atoms.atom, value.property_type) {
        Some(Err(XWindowTypeDecodeError::InvalidType))
    } else if value.format != 32 {
        Some(Err(XWindowTypeDecodeError::InvalidFormat))
    } else if value.bytes.len() == 0 || value.bytes.len() % 4 != 0 {
        Some(Err(XWindowTypeDecodeError::InvalidLength))
    } else {
        Some(
            Ok(
                match first_window_type(atoms, order, value.bytes, 0) {
                    Some(positioned) => positioned,
                    None => false,
                },
            ),
        )
    }
}

fn window_type_class_of(atoms: &XHintAtoms, atom: XAtom) -> (class: Option<bool>)
    ensures
        class == window_type_class(*atoms, atom),
{
    if is_named_atom(atoms.window_type_normal, atom) {
        return Some(false);
    }
    let mut i: usize = 0;
    while i < atoms.client_positioned_window_types.len()
        invariant
            i <= atoms.client_positioned_window_types@.len(),
            !is_named(atoms.window_type_normal, atom),
            forall|j: int| 0 <= j < i ==> atoms.client_positioned_window_types@[j] != atom,
        decreases atoms.client_positioned_window_types@.len() - i,
    {
        if atoms.client_positioned_window_types[i] == atom {
            assert(atoms.client_positioned_window_types@[i as int] == atom);
            return Some(true);
        }
        i = i + 1;
    }
    None
}

/// Decodes `_NET_WM_WINDOW_TYPE` into whether the window places itself;
/// `None` for any other property.
pub fn decode_x_window_type_client_positioned(
    record: &XPropertyRecord,
    atoms: &XHintAtoms,
    byte_order: XByteOrder,
) -> (decoded: Option<Result<bool, XWindowTypeDecodeError>>)
    ensures
        decoded == window_type_of(*atoms, byte_order, record.property, record@),
{
    if !is_named_atom(atoms.net_wm_window_type, record.property) {
        return None;
    }
    if !is_named_atom(atoms.atom, record.property_type) {
        return Some(Err(XWindowTypeDecodeError::InvalidType));
    }
    if record.format != 32 {
        return Some(Err(XWindowTypeDecodeError::InvalidFormat));
    }
    let bytes = record.bytes.as_slice();
    if bytes.len() == 0 || bytes.len() % 4 != 0 {
        return Some(Err(XWindowTypeDecodeError::InvalidLength));
    }
    let mut at: usize = 0;
    while at < bytes.len()
        invariant
            at <= bytes@.len(),
            at % 4 == 0,
            bytes@.len() % 4 == 0,
            bytes@.len() > 0,
            bytes@ == record.bytes@,
            is_named(atoms.net_wm_window_type, record.property),
            is_named(atoms.atom, record.property_type),
            record.format == 32,
            first_window_type(*atoms, byte_order, bytes@, 0) == first_window_type(
                *atoms,
                byte_order,
                bytes@,
                at as int,
            ),
        decreases bytes@.len() - at,
    {
        assert(at + 4 <= bytes@.len());
        let atom = read_u32(byte_order, bytes, at);
        if let Some(positioned) = window_type_class_of(atoms, atom) {
            assert(first_window_type(*atoms, byte_order, bytes@, at as int) == Some(positioned));
            return Some(Ok(positioned));
        }
        assert(first_window_type(*atoms, byte_order, bytes@, at as int) == first_window_type(
            *atoms,
            byte_order,
            bytes@,
            at + 4,
        ));
        at = at + 4;
    }
    assert(first_window_type(*atoms, byte_order, bytes@, at as int) is None);
    Some(Ok(false))
}

/// `count` 32-bit `CARDINAL` values.
pub open spec fn cardinals_of(order: XByteOrder, value: PropertyValue, count: nat) -> Result<
    Seq<u32>,
    XOutputReservationDecodeError,
> {
    if value.property_type != X_ATOM_CARDINAL {
        Err(XOutputReservationDecodeError::InvalidType)
    } else if value.format != 32 {
        Err(XOutputReservationDecodeError::InvalidFormat)
    } else if value.bytes.len() != 4 * count {
        Err(XOutputReservationDecodeError::InvalidLength)
    } else {
        Ok(Seq::new(count, |i: int| u32_at(order, value.bytes, 4 * i)))
    }
}

fn decode_cardinals(record: &XPropertyRecord, byte_order: XByteOrder, count: usize) -> (values:
    Result<Vec<u32>, XOutputReservationDecodeError>)
    requires
        count <= 12,
    ensures
        match (values, cardinals_of(byte_order, record@, count as nat)) {
            (Ok(v), Ok(s)) => v@ == s,
            (Err(e), Err(f)) => e == f,
            _ => false,
        },
{
    if record.property_type != X_ATOM_CARDINAL {
        return Err(XOutputReservationDecodeError::InvalidType);
    }
    if record.format != 32 {
        return Err(XOutputReservationDecodeError::InvalidFormat);
    }
    if record.bytes.len() != 4 * count {
        return Err(XOutputReservationDecodeError::InvalidLength);
    }
    let bytes = record.bytes.as_slice();
    let mut values: Vec<u32> = Vec::new();
    let mut i: usize = 0;
    while i < count
        invariant
            i <= count <= 12,
            bytes@ == record.bytes@,
            bytes@.len() == 4 * count,
            values@.len() == i,
            forall|j: int| 0 <= j < i ==> values@[j] == u32_at(byte_order, bytes@, 4 * j),
        decreases count - i,
    {
        values.push(read_u32(byte_order, bytes, 4 * i));
        i = i + 1;
    }
    assert(values@ =~= Seq::new(count as nat, |j: int| u32_at(byte_order, record.bytes@, 4 * j)));
    Ok(values)
}

/// The extent of `root` along the x axis.
pub open spec fn root_horizontal_span_of(root: Rect) -> Result<AxisSpan, XOutputReservationDecodeError> {
    if root.is_empty() || root.x + root.width > i32::MAX {
        Err(XOutputReservationDecodeError::InvalidRoot)
    } else {
        Ok(AxisSpan { start: root.x, end: (root.x + root.width) as i32 })
    }
}

/// The extent of `root` along the y axis.
pub open spec fn root_vertical_span_of(root: Rect) -> Result<AxisSpan, XOutputReservationDecodeError> {
    if root.is_empty() || root.y + root.height > i32::MAX {
        Err(XOutputReservationDecodeError::InvalidRoot)
    } else {
        Ok(AxisSpan { start: root.y, end: (root.y + root.height) as i32 })
    }
}

fn root_horizontal_span(root: Rect) -> (span: Result<AxisSpan, XOutputReservationDecodeError>)
    ensures
        span == root_horizontal_span_of(root),
{
    if root.is_empty() {
        return Err(XOutputReservationDecodeError::InvalidRoot);
    }
    match root.x.checked_add(root.width) {
        Some(end) => Ok(AxisSpan { start: root.x, end }),
        None => Err(XOutputReservationDecodeError::InvalidRoot),
    }
}

fn root_vertical_span(root: Rect) -> (span: Result<AxisSpan, XOutputReservationDecodeError>)
    ensures
        span == root_vertical_span_of(root),
{
    if root.is_empty() {
        return Err(XOutputReservationDecodeError::InvalidRoot);
    }
    match root.y.checked_add(root.height) {
        Some(end) => Ok(AxisSpan { start: root.y, end }),
        None => Err(XOutputReservationDecodeError::InvalidRoot),
    }
}

/// One edge of `_NET_WM_STRUT_PARTIAL`: nothing for a zero depth; otherwise
/// the depth and the inclusive range along the edge, which must fit the
/// output.
pub open spec fn partial_reservation(
    edge: OutputEdge,
    depth: u32,
    start: u32,
    inclusive_end: u32,
    maximum_depth: i32,
    root_span: AxisSpan,
) -> Result<Option<OutputReservation>, XOutputReservationDecodeError> {
    let span = AxisSpan { start: start as i32, end: (inclusive_end + 1) as i32 };
    if depth == 0 {
        Ok(None)
    } else if depth > i32::MAX || start > i32::MAX || inclusive_end + 1 > i32::MAX {
        Err(XOutputReservationDecodeError::ValueOutOfRange)
    } else if depth > maximum_depth || span.is_empty() || span.start < root_span.start
        || span.end > root_span.end {
        Err(XOutputReservationDecodeError::ValueOutOfRange)
    } else {
        Ok(Some(OutputReservation { edge, depth: depth as i32, span }))
    }
}

/// One edge of `_NET_WM_STRUT`: nothing for a zero depth; otherwise the depth
/// along the whole edge.
pub open spec fn legacy_reservation(
    edge: OutputEdge,
    depth: u32,
    maximum_depth: i32,
    span: AxisSpan,
) -> Result<Option<OutputReservation>, XOutputReservationDecodeError> {
    if depth == 0 {
        Ok(None)
    } else if depth > i32::MAX || depth > maximum_depth {
        Err(XOutputReservationDecodeError::ValueOutOfRange)
    } else {
        Ok(Some(OutputReservation { edge, depth: depth as i32, span }))
    }
}

/// `reservations` with the outcome of one more edge: the first refusal
/// stands.
pub open spec fn then_reservation(
    reservations: Result<Seq<OutputReservation>, XOutputReservationDecodeError>,
    next: Result<Option<OutputReservation>, XOutputReservationDecodeError>,
) -> Result<Seq<OutputReservation>, XOutputReservationDecodeError> {
    match reservations {
        Err(error) => Err(error),
        Ok(s) => match next {
            Err(error) => Err(error),
            Ok(None) => Ok(s),
            Ok(Some(reservation)) => Ok(s.push(reservation)),
        },
    }
}

/// The reservations of `_NET_WM_STRUT_PARTIAL`: twelve cardinals, the depths
/// of the left, right, top and bottom edges followed by each edge's range.
pub open spec fn partial_reservations_of(order: XByteOrder, value: PropertyValue, root: Rect) -> Result<
    Seq<OutputReservation>,
    XOutputReservationDecodeError,
> {
    match cardinals_of(order, value, 12) {
        Err(error) => Err(error),
        Ok(v) => match root_horizontal_span_of(root) {
            Err(error) => Err(error),
            Ok(horizontal) => match root_vertical_span_of(root) {
                Err(error) => Err(error),
                Ok(vertical) => then_reservation(
                    then_reservation(
                        then_reservation(
                            then_reservation(
                                Ok(Seq::empty()),
                                partial_reservation(
                                    OutputEdge::Left,
                                    v[0],
                                    v[4],
                                    v[5],
                                    root.width,
                                    vertical,
                                ),
                            ),
                            partial_reservation(
                                OutputEdge::Right,
                                v[1],
                                v[6],
                                v[7],
                                root.width,
                                vertical,
                            ),
                        ),
                        partial_reservation(
                            OutputEdge::Top,
                            v[2],
                            v[8],
                            v[9],
                            root.height,
                            horizontal,
                        ),
                    ),
                    partial_reservation(
                        OutputEdge::Bottom,
                        v[3],
                        v[10],
                        v[11],
                        root.height,
                        horizontal,
                    ),
                ),
            },
        },
    }
}

/// The reservations of `_NET_WM_STRUT`: four cardinals, the depths of the
/// left, right, top and bottom edges, each along the whole edge.
pub open spec fn legacy_reservations_of(order: XByteOrder, value: PropertyValue, root: Rect) -> Result<
    Seq<OutputReservation>,
    XOutputReservationDecodeError,
> {
    match cardinals_of(order, value, 4) {
        Err(error) => Err(error),
        Ok(v) => match root_horizontal_span_of(root) {
            Err(error) => Err(error),
            Ok(horizontal) => match root_vertical_span_of(root) {
                Err(error) => Err(error),
                Ok(vertical) => then_reservation(
                    then_reservation(
                        then_reservation(
                            then_reservation(
                                Ok(Seq::empty()),
                                legacy_reservation(OutputEdge::Left, v[0], root.width, vertical),
                            ),
                            legacy_reservation(OutputEdge::Right, v[1], root.width, vertical),
                        ),
                        legacy_reservation(OutputEdge::Top, v[2], root.height, horizontal),
                    ),
                    legacy_reservation(OutputEdge::Bottom, v[3], root.height, horizontal),
                ),
            },
        },
    }
}

/// The reservations a strut property makes; `None` for any other property.
pub open spec fn output_reservations_of(
    atoms: XHintAtoms,
    order: XByteOrder,
    property: XAtom,
    value: PropertyValue,
    root: Rect,
) -> Option<Result<Seq<OutputReservation>, XOutputReservationDecodeError>> {
    if is_named(atoms.net_wm_strut_partial, property) {
        Some(partial_reservations_of(order, value, root))
    } else if is_named(atoms.net_wm_strut, property) {
        Some(legacy_reservations_of(order, value, root))
    } else {
        None
    }
}

/// A list of reservations as the contracts see it.
pub open spec fn reservations_view(
    decoded: Result<Vec<OutputReservation>, XOutputReservationDecodeError>,
) -> Result<Seq<OutputReservation>, XOutputReservationDecodeError> {
    match decoded {
        Ok(v) => Ok(v@),
        Err(error) => Err(error),
    }
}

fn partial_reservation_of(
    edge: OutputEdge,
    depth: u32,
    start: u32,
    inclusive_end: u32,
    maximum_depth: i32,
    root_span: AxisSpan,
) -> (reservation: Result<Option<OutputReservation>, XOutputReservationDecodeError>)
    ensures
        reservation == partial_reservation(edge, depth, start, inclusive_end, maximum_depth, root_span),
{
    if depth == 0 {
        return Ok(None);
    }
    if depth > 0x7fff_ffff || start > 0x7fff_ffff || inclusive_end >= 0x7fff_ffff {
        return Err(XOutputReservationDecodeError::ValueOutOfRange);
    }
    let depth = depth as i32;
    let span = AxisSpan { start: start as i32, end: (inclusive_end + 1) as i32 };
    if depth > maximum_depth || span.is_empty() || span.start < root_span.start || span.end
        > root_span.end {
        return Err(XOutputReservationDecodeError::ValueOutOfRange);
    }
    Ok(Some(OutputReservation { edge, depth, span }))
}

fn legacy_reservation_of(edge: OutputEdge, depth: u32, maximum_depth: i32, span: AxisSpan) -> (reservation:
    Result<Option<OutputReservation>, XOutputReservationDecodeError>)
    ensures
        reservation == legacy_reservation(edge, depth, maximum_depth, span),
{
    if depth == 0 {
        return Ok(None);
    }
    if depth > 0x7fff_ffff {
        return Err(XOutputReservationDecodeError::ValueOutOfRange);
    }
    let depth = depth as i32;
    if depth > maximum_depth {
        return Err(XOutputReservationDecodeError::ValueOutOfRange);
    }
    Ok(Some(OutputReservation { edge, depth, span }))
}

/// Adds one edge's outcome to `reservations`.
fn push_reservation(
    reservations: &mut Vec<OutputReservation>,
    next: Result<Option<OutputReservation>, XOutputReservationDecodeError>,
) -> (outcome: Result<(), XOutputReservationDecodeError>)
    ensures
        then_reservation(Ok(old(reservations)@), next) == match outcome {
            Ok(()) => Ok(final(reservations)@),
            Err(error) => Err::<Seq<OutputReservation>, XOutputReservationDecodeError>(error),
        },
{
    match next {
        Err(error) => Err(error),
        Ok(None) => Ok(()),
        Ok(Some(reservation)) => {
            reservations.push(reservation);
            Ok(())
        },
    }
}

fn decode_partial_output_reservations(
    record: &XPropertyRecord,
    byte_order: XByteOrder,
    root: Rect,
) -> (decoded: Result<Vec<OutputReservation>, XOutputReservationDecodeError>)
    ensures
        reservations_view(decoded) == partial_reservations_of(byte_order, record@, root),
{
    let values = match decode_cardinals(record, byte_order, 12) {
        Ok(values) => values,
        Err(error) => return Err(error),
    };
    let horizontal = match root_horizontal_span(root) {
        Ok(span) => span,
        Err(error) => return Err(error),
    };
    let vertical = match root_vertical_span(root) {
        Ok(span) => span,
        Err(error) => return Err(error),
    };
    let mut reservations: Vec<OutputReservation> = Vec::new();
    let left = partial_reservation_of(
        OutputEdge::Left,
        values[0],
        values[4],
        values[5],
        root.width,
        vertical,
    );
    if let Err(error) = push_reservation(&mut reservations, left) {
        return Err(error);
    }
    let right = partial_reservation_of(
        OutputEdge::Right,
        values[1],
        values[6],
        values[7],
        root.width,
        vertical,
    );
    if let Err(error) = push_reservation(&mut reservations, right) {
        return Err(error);
    }
    let top = partial_reservation_of(
        OutputEdge::Top,
        values[2],
        values[8],
        values[9],
        root.height,
        horizontal,
    );
    if let Err(error) = push_reservation(&mut reservations, top) {
        return Err(error);
    }
    let bottom = partial_reservation_of(
        OutputEdge::Bottom,
        values[3],
        values[10],
        values[11],
        root.height,
        horizontal,
    );
    if let Err(error) = push_reservation(&mut reservations, bottom) {
        return Err(error);
    }
    Ok(reservations)
}

fn decode_legacy_output_reservations(
    record: &XPropertyRecord,
    byte_order: XByteOrder,
    root: Rect,
) -> (decoded: Result<Vec<OutputReservation>, XOutputReservationDecodeError>)
    ensures
        reservations_view(decoded) == legacy_reservations_of(byte_order, record@, root),
{
    let values = match decode_cardinals(record, byte_order, 4) {
        Ok(values) => values,
        Err(error) => return Err(error),
    };
    let horizontal = match root_horizontal_span(root) {
        Ok(span) => span,
        Err(error) => return Err(error),
    };
    let vertical = match root_vertical_span(root) {
        Ok(span) => span,
        Err(error) => return Err(error),
    };
    let mut reservations: Vec<OutputReservation> = Vec::new();
    let left = legacy_reservation_of(OutputEdge::Left, values[0], root.width, vertical);
    if let Err(error) = push_reservation(&mut reservations, left) {
        return Err(error);
    }
    let right = legacy_reservation_of(OutputEdge::Right, values[1], root.width, vertical);
    if let Err(error) = push_reservation(&mut reservations, right) {
        return Err(error);
    }
    let top = legacy_reservation_of(OutputEdge::Top, values[2], root.height, horizontal);
    if let Err(error) = push_reservation(&mut reservations, top) {
        return Err(error);
    }
    let bottom = legacy_reservation_of(OutputEdge::Bottom, values[3], root.height, horizontal);
    if let Err(error) = push_reservation(&mut reservations, bottom) {
        return Err(error);
    }
    Ok(reservations)
}

/// Decodes `_NET_WM_STRUT_PARTIAL` or `_NET_WM_STRUT` into the output space
/// the window reserves on `root`; `None` for any other property.
pub fn decode_x_output_reservations(
    record: &XPropertyRecord,
    atoms: &XHintAtoms,
    byte_order: XByteOrder,
    root: Rect,
) -> (decoded: Option<Result<Vec<OutputReservation>, XOutputReservationDecodeError>>)
    ensures
        match decoded {
            Some(r) => output_reservations_of(*atoms, byte_order, record.property, record@, root)
                == Some(reservations_view(r)),
            None => output_reservations_of(*atoms, byte_order, record.property, record@, root)
                is None,
        },
{
    if is_named_atom(atoms.net_wm_strut_partial, record.property) {
        Some(decode_partial_output_reservations(record, byte_order, root))
    } else if is_named_atom(atoms.net_wm_strut, record.property) {
        Some(decode_legacy_output_reservations(record, byte_order, root))
    } else {
        None
    }
}

/// The reservations a stored strut property makes, where it decodes.
pub open spec fn stored_reservations(
    table: Map<PropertyKey, PropertyValue>,
    atoms: XHintAtoms,
    order: XByteOrder,
    namespace: NamespaceId,
    window: XResourceId,
    property: Option<XAtom>,
    root: Rect,
) -> Option<Seq<OutputReservation>> {
    match property {
        None => None,
        Some(p) => if table.contains_key((namespace, window, p)) {
            match output_reservations_of(atoms, order, p, table[(namespace, window, p)], root) {
                Some(Ok(reservations)) => Some(reservations),
                _ => None,
            }
        } else {
            None
        },
    }
}

/// The output space `window` reserves: what its `_NET_WM_STRUT_PARTIAL`
/// decodes to, else what its `_NET_WM_STRUT` decodes to, else nothing.
pub open spec fn window_reservations(
    table: Map<PropertyKey, PropertyValue>,
    atoms: XHintAtoms,
    order: XByteOrder,
    namespace: NamespaceId,
    window: XResourceId,
    root: Rect,
) -> Seq<OutputReservation> {
    match stored_reservations(
        table,
        atoms,
        order,
        namespace,
        window,
        atoms.net_wm_strut_partial,
        root,
    ) {
        Some(reservations) => reservations,
        None => match stored_reservations(
            table,
            atoms,
            order,
            namespace,
            window,
            atoms.net_wm_strut,
            root,
        ) {
            Some(reservations) => reservations,
            None => Seq::empty(),
        },
    }
}

fn stored_reservations_of(
    properties: &XPropertyTable,
    atoms: &XHintAtoms,
    namespace: NamespaceId,
    window: XResourceId,
    property: Option<XAtom>,
    byte_order: XByteOrder,
    root: Rect,
) -> (reservations: Option<Vec<OutputReservation>>)
    ensures
        match reservations {
            Some(v) => stored_reservations(
                properties@,
                *atoms,
                byte_order,
                namespace,
                window,
                property,
                root,
            ) == Some(v@),
            None => stored_reservations(
                properties@,
                *atoms,
                byte_order,
                namespace,
                window,
                property,
                root,
            ) is None,
        },
{
    let property = match property {
        Some(p) => p,
        None => return None,
    };
    let record = match properties.get(namespace, window, property) {
        Some(record) => record,
        None => return None,
    };
    match decode_x_output_reservations(record, atoms, byte_order, root) {
        Some(Ok(reservations)) => Some(reservations),
        _ => None,
    }
}

/// The output space `window` reserves on `root`, from its strut properties.
pub fn x_output_reservations_for_window(
    properties: &XPropertyTable,
    atoms: &XHintAtoms,
    namespace: NamespaceId,
    window: XResourceId,
    byte_order: XByteOrder,
    root: Rect,
) -> (reservations: Vec<OutputReservation>)
    ensures
        reservations@ == window_reservations(
            properties@,
            *atoms,
            byte_order,
            namespace,
            window,
            root,
        ),
{
    if let Some(reservations) = stored_reservations_of(
        properties,
        atoms,
        namespace,
        window,
        atoms.net_wm_strut_partial,
        byte_order,
        root,
    ) {
        return reservations;
    }
    match stored_reservations_of(
        properties,
        atoms,
        namespace,
        window,
        atoms.net_wm_strut,
        byte_order,
        root,
    ) {
        Some(reservations) => reservations,
        None => Vec::new(),
    }
}

/// The `index`th 32-bit word of a property value, as the client wrote it.
pub open spec fn word(order: XByteOrder, bytes: Seq<u8>, index: int) -> u32 {
    u32_at(order, bytes, 4 * index)
}

/// `WM_NORMAL_HINTS` reads the minimum size from words 5 and 6 exactly when
/// the `PMinSize` flag (16) is set, and the maximum size from words 7 and 8
/// exactly when the `PMaxSize` flag (32) is set: each flag alone gives that
/// limit alone, neither gives no limit, a flagged extent that is not
/// positive is refused, and a minimum beyond the maximum is refused.
pub proof fn law_size_hints_read_each_flagged_limit(
    atoms: XHintAtoms,
    order: XByteOrder,
    property: XAtom,
    value: PropertyValue,
)
    requires
        is_named(atoms.wm_normal_hints, property),
        is_named(atoms.wm_size_hints, value.property_type),
        value.format == 32,
        value.bytes.len() >= 36,
    ensures
        ({
            let b = value.bytes;
            let flags = word(order, b, 0);
            let min = Size { width: word(order, b, 5) as i32, height: word(order, b, 6) as i32 };
            let max = Size { width: word(order, b, 7) as i32, height: word(order, b, 8) as i32 };
            let decoded = size_hints_of(atoms, order, property, value);
            &&& (flags & 16 != 0 && flags & 32 == 0 && min.width > 0 && min.height > 0) ==> decoded
                == Some(
                Ok::<SurfaceConstraints, XSizeHintsDecodeError>(
                    SurfaceConstraints { min_size: Some(min), max_size: None },
                ),
            )
            &&& (flags & 32 != 0 && flags & 16 == 0 && max.width > 0 && max.height > 0) ==> decoded
                == Some(
                Ok::<SurfaceConstraints, XSizeHintsDecodeError>(
                    SurfaceConstraints { min_size: None, max_size: Some(max) },
                ),
            )
            &&& (flags & 16 == 0 && flags & 32 == 0) ==> decoded == Some(
                Ok::<SurfaceConstraints, XSizeHintsDecodeError>(
                    SurfaceConstraints { min_size: None, max_size: None },
                ),
            )
            &&& (flags & 16 != 0 && flags & 32 != 0 && min.width > 0 && min.height > 0
                && max.width > 0 && max.height > 0 && min.width <= max.width && min.height
                <= max.height) ==> decoded == Some(
                Ok::<SurfaceConstraints, XSizeHintsDecodeError>(
                    SurfaceConstraints { min_size: Some(min), max_size: Some(max) },
                ),
            )
            &&& (flags & 16 != 0 && flags & 32 != 0 && min.width > 0 && min.height > 0
                && max.width > 0 && max.height > 0 && min.width > max.width) ==> decoded
                == Some(Err::<SurfaceConstraints, XSizeHintsDecodeError>(XSizeHintsDecodeError::InvalidBounds))
            &&& (flags & 16 != 0 && (min.width <= 0 || min.height <= 0)) ==> decoded == Some(
                Err::<SurfaceConstraints, XSizeHintsDecodeError>(XSizeHintsDecodeError::InvalidExtent),
            )
            &&& (flags & 32 != 0 && (max.width <= 0 || max.height <= 0)) ==> decoded == Some(
                Err::<SurfaceConstraints, XSizeHintsDecodeError>(XSizeHintsDecodeError::InvalidExtent),
            )
        }),
{
}

/// Whether the strut words other than the depth at `depth` are zero depths.
pub open spec fn only_depth(order: XByteOrder, bytes: Seq<u8>, depth: int) -> bool {
    forall|i: int| 0 <= i < 4 && i != depth ==> #[trigger] word(order, bytes, i) == 0
}

/// The reservation an edge makes when only it has a depth: the depth word
/// and the inclusive range in the range words given.
pub open spec fn lone_reservation(
    order: XByteOrder,
    bytes: Seq<u8>,
    edge: OutputEdge,
    depth: int,
    start: int,
    end: int,
) -> Seq<OutputReservation> {
    seq![
        OutputReservation {
            edge,
            depth: word(order, bytes, depth) as i32,
            span: AxisSpan {
                start: word(order, bytes, start) as i32,
                end: (word(order, bytes, end) + 1) as i32,
            },
        },
    ]
}

/// `_NET_WM_STRUT_PARTIAL` is twelve cardinals: the left, right, top and
/// bottom depths (words 0 to 3), then the left edge's y range (4, 5), the
/// right edge's y range (6, 7), the top edge's x range (8, 9) and the bottom
/// edge's x range (10, 11), each inclusive. A panel reserving one edge gets
/// exactly that edge, at its depth, along its own range.
pub proof fn law_partial_strut_edges_read_their_own_words(
    atoms: XHintAtoms,
    order: XByteOrder,
    property: XAtom,
    value: PropertyValue,
    root: Rect,
)
    requires
        is_named(atoms.net_wm_strut_partial, property),
        value.property_type == X_ATOM_CARDINAL,
        value.format == 32,
        value.bytes.len() == 48,
        root.width > 0,
        root.height > 0,
        root.x + root.width <= i32::MAX,
        root.y + root.height <= i32::MAX,
    ensures
        ({
            let b = value.bytes;
            let decoded = output_reservations_of(atoms, order, property, value, root);
            let w = |i: int| word(order, b, i) as int;
            &&& (only_depth(order, b, 0) && 0 < w(0) <= root.width && root.y <= w(4) <= w(5) < root.y
                + root.height) ==> decoded == Some(
                Ok::<Seq<OutputReservation>, XOutputReservationDecodeError>(
                    lone_reservation(order, b, OutputEdge::Left, 0, 4, 5),
                ),
            )
            &&& (only_depth(order, b, 1) && 0 < w(1) <= root.width && root.y <= w(6) <= w(7) < root.y
                + root.height) ==> decoded == Some(
                Ok::<Seq<OutputReservation>, XOutputReservationDecodeError>(
                    lone_reservation(order, b, OutputEdge::Right, 1, 6, 7),
                ),
            )
            &&& (only_depth(order, b, 2) && 0 < w(2) <= root.height && root.x <= w(8) <= w(9) < root.x
                + root.width) ==> decoded == Some(
                Ok::<Seq<OutputReservation>, XOutputReservationDecodeError>(
                    lone_reservation(order, b, OutputEdge::Top, 2, 8, 9),
                ),
            )
            &&& (only_depth(order, b, 3) && 0 < w(3) <= root.height && root.x <= w(10) <= w(11)
                < root.x + root.width) ==> decoded == Some(
                Ok::<Seq<OutputReservation>, XOutputReservationDecodeError>(
                    lone_reservation(order, b, OutputEdge::Bottom, 3, 10, 11),
                ),
            )
        }),
{
    let b = value.bytes;
    let v = Seq::new(12, |i: int| u32_at(order, b, 4 * i));
    assert(cardinals_of(order, value, 12) == Ok::<Seq<u32>, XOutputReservationDecodeError>(v));
    assert forall|i: int| 0 <= i < 12 implies v[i] == word(order, b, i) by {}
    if only_depth(order, b, 0) {
        assert(word(order, b, 1) == 0 && word(order, b, 2) == 0 && word(order, b, 3) == 0);
    }
    if only_depth(order, b, 1) {
        assert(word(order, b, 0) == 0 && word(order, b, 2) == 0 && word(order, b, 3) == 0);
    }
    if only_depth(order, b, 2) {
        assert(word(order, b, 0) == 0 && word(order, b, 1) == 0 && word(order, b, 3) == 0);
    }
    if only_depth(order, b, 3) {
        assert(word(order, b, 0) == 0 && word(order, b, 1) == 0 && word(order, b, 2) == 0);
    }
    assert(Seq::<OutputReservation>::empty().push(lone_reservation(order, b, OutputEdge::Left, 0, 4, 5)[0])
        =~= lone_reservation(order, b, OutputEdge::Left, 0, 4, 5));
    assert(Seq::<OutputReservation>::empty().push(lone_reservation(order, b, OutputEdge::Right, 1, 6, 7)[0])
        =~= lone_reservation(order, b, OutputEdge::Right, 1, 6, 7));
    assert(Seq::<OutputReservation>::empty().push(lone_reservation(order, b, OutputEdge::Top, 2, 8, 9)[0])
        =~= lone_reservation(order, b, OutputEdge::Top, 2, 8, 9));
    assert(Seq::<OutputReservation>::empty().push(lone_reservation(order, b, OutputEdge::Bottom, 3, 10, 11)[0])
        =~= lone_reservation(order, b, OutputEdge::Bottom, 3, 10, 11));
}

/// `_NET_WM_STRUT` is four cardinals, the left, right, top and bottom
/// depths (words 0 to 3), each reserving along the whole edge: the left and
/// right edges span the root's height, the top and bottom edges its width. A
/// panel reserving one edge gets exactly that edge at its depth.
pub proof fn law_legacy_strut_edges_span_the_root(
    atoms: XHintAtoms,
    order: XByteOrder,
    property: XAtom,
    value: PropertyValue,
    root: Rect,
)
    requires
        !is_named(atoms.net_wm_strut_partial, property),
        is_named(atoms.net_wm_strut, property),
        value.property_type == X_ATOM_CARDINAL,
        value.format == 32,
        value.bytes.len() == 16,
        root.width > 0,
        root.height > 0,
        root.x + root.width <= i32::MAX,
        root.y + root.height <= i32::MAX,
    ensures
        ({
            let b = value.bytes;
            let decoded = output_reservations_of(atoms, order, property, value, root);
            let across = AxisSpan { start: root.x, end: (root.x + root.width) as i32 };
            let down = AxisSpan { start: root.y, end: (root.y + root.height) as i32 };
            &&& (only_depth(order, b, 0) && 0 < word(order, b, 0) <= root.width) ==> decoded == Some(
                Ok::<Seq<OutputReservation>, XOutputReservationDecodeError>(
                    seq![OutputReservation { edge: OutputEdge::Left, depth: word(order, b, 0) as i32, span: down }],
                ),
            )
            &&& (only_depth(order, b, 1) && 0 < word(order, b, 1) <= root.width) ==> decoded == Some(
                Ok::<Seq<OutputReservation>, XOutputReservationDecodeError>(
                    seq![OutputReservation { edge: OutputEdge::Right, depth: word(order, b, 1) as i32, span: down }],
                ),
            )
            &&& (only_depth(order, b, 2) && 0 < word(order, b, 2) <= root.height) ==> decoded == Some(
                Ok::<Seq<OutputReservation>, XOutputReservationDecodeError>(
                    seq![OutputReservation { edge: OutputEdge::Top, depth: word(order, b, 2) as i32, span: across }],
                ),
            )
            &&& (only_depth(order, b, 3) && 0 < word(order, b, 3) <= root.height) ==> decoded == Some(
                Ok::<Seq<OutputReservation>, XOutputReservationDecodeError>(
                    seq![OutputReservation { edge: OutputEdge::Bottom, depth: word(order, b, 3) as i32, span: across }],
                ),
            )
        }),
{
    let b = value.bytes;
    let v = Seq::new(4, |i: int| u32_at(order, b, 4 * i));
    assert(cardinals_of(order, value, 4) == Ok::<Seq<u32>, XOutputReservationDecodeError>(v));
    if only_depth(order, b, 0) {
        assert(word(order, b, 1) == 0 && word(order, b, 2) == 0 && word(order, b, 3) == 0);
    }
    if only_depth(order, b, 1) {
        assert(word(order, b, 0) == 0 && word(order, b, 2) == 0 && word(order, b, 3) == 0);
    }
    if only_depth(order, b, 2) {
        assert(word(order, b, 0) == 0 && word(order, b, 1) == 0 && word(order, b, 3) == 0);
    }
    if only_depth(order, b, 3) {
        assert(word(order, b, 0) == 0 && word(order, b, 1) == 0 && word(order, b, 2) == 0);
    }
    let across = AxisSpan { start: root.x, end: (root.x + root.width) as i32 };
    let down = AxisSpan { start: root.y, end: (root.y + root.height) as i32 };
    assert(Seq::<OutputReservation>::empty().push(OutputReservation { edge: OutputEdge::Left, depth: word(order, b, 0) as i32, span: down })
        =~= seq![OutputReservation { edge: OutputEdge::Left, depth: word(order, b, 0) as i32, span: down }]);
    assert(Seq::<OutputReservation>::empty().push(OutputReservation { edge: OutputEdge::Right, depth: word(order, b, 1) as i32, span: down })
        =~= seq![OutputReservation { edge: OutputEdge::Right, depth: word(order, b, 1) as i32, span: down }]);
    assert(Seq::<OutputReservation>::empty().push(OutputReservation { edge: OutputEdge::Top, depth: word(order, b, 2) as i32, span: across })
        =~= seq![OutputReservation { edge: OutputEdge::Top, depth: word(order, b, 2) as i32, span: across }]);
    assert(Seq::<OutputReservation>::empty().push(OutputReservation { edge: OutputEdge::Bottom, depth: word(order, b, 3) as i32, span: across })
        =~= seq![OutputReservation { edge: OutputEdge::Bottom, depth: word(order, b, 3) as i32, span: across }]);
}

} // verus!
