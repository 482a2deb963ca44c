//! The records the server writes back to X clients: errors, and the reply
//! shapes whose layout the library fixes.
use vstd::prelude::*;

use crate::extensions::{
    X_KEYBOARD_FIRST_EVENT, X_MIT_SHM_FIRST_EVENT, X_MIT_SHM_MAJOR_OPCODE,
    X_MIT_SHM_PUT_IMAGE_MINOR_OPCODE, X_PRESENT_MAJOR_OPCODE, X_RANDR_FIRST_EVENT,
};
use crate::resource::XResourceId;
use crate::setup::X_ATOM_NONE;
use crate::wire::{
    lemma_u16_at_written, lemma_u16_bytes_len, lemma_u32_bytes_len, u16_at, XByteOrder, law_u32_read_inverts_write, push_u16, push_u32, push_u64, put_u16, put_u32,
    spec_padded_len, splice, u16_bytes, u16_to_bytes, u32_at, u32_bytes, u32_to_bytes, u64_bytes,
};

verus! {

/// Every error, event and fixed reply record is this long.
pub const X_CLIENT_OUTPUT_RECORD_LEN: usize = 32;

pub const X_ERROR: u8 = 0;

#[derive(Clone, Copy, Debug, PartialEq, Eq, Structural)]
pub enum XErrorCode {
    BadRequest,
    BadValue,
    BadWindow,
    BadAtom,
    BadAccess,
    BadIdChoice,
    BadLength,
    BadImplementation,
}

/// The number core X11 assigns to each error.
pub open spec fn error_code_number(code: XErrorCode) -> u8 {
    match code {
        XErrorCode::BadRequest => 1,
        XErrorCode::BadValue => 2,
        XErrorCode::BadWindow => 3,
        XErrorCode::BadAtom => 5,
        XErrorCode::BadAccess => 10,
        XErrorCode::BadIdChoice => 14,
        XErrorCode::BadLength => 16,
        XErrorCode::BadImplementation => 17,
    }
}

impl XErrorCode {
    pub fn wire_code(self) -> (code: u8)
        ensures
            code == error_code_number(self),
    {
        match self {
            XErrorCode::BadRequest => 1,
            XErrorCode::BadValue => 2,
            XErrorCode::BadWindow => 3,
            XErrorCode::BadAtom => 5,
            XErrorCode::BadAccess => 10,
            XErrorCode::BadIdChoice => 14,
            XErrorCode::BadLength => 16,
            XErrorCode::BadImplementation => 17,
        }
    }
}

#[derive(Clone, Copy, Debug, PartialEq, Eq, Structural)]
pub struct XClientError {
    pub code: XErrorCode,
    pub sequence: u16,
    pub resource_id: u32,
    pub minor_code: u16,
    pub major_code: u8,
}

/// The 32-byte error record a client receives for `error`.
pub open spec fn error_record(order: XByteOrder, error: XClientError) -> Seq<u8> {
    seq![X_ERROR, error_code_number(error.code)] + u16_bytes(order, error.sequence) + u32_bytes(
        order,
        error.resource_id,
    ) + u16_bytes(order, error.minor_code) + seq![error.major_code] + Seq::new(
        21,
        |i: int| 0u8,
    )
}

pub fn encode_x_client_error(byte_order: XByteOrder, error: XClientError) -> (out: [u8; 32])
    ensures
        out@ == error_record(byte_order, error),
{
    let s = u16_to_bytes(byte_order, error.sequence);
    let r = u32_to_bytes(byte_order, error.resource_id);
    let m = u16_to_bytes(byte_order, error.minor_code);
    let out = [
        X_ERROR,
        error.code.wire_code(),
        s[0],
        s[1],
        r[0],
        r[1],
        r[2],
        r[3],
        m[0],
        m[1],
        error.major_code,
        0,
        0,
        0,
        0,
        0,
        0,
        0,
        0,
        0,
        0,
        0,
        0,
        0,
        0,
        0,
        0,
        0,
        0,
        0,
        0,
        0,
    ];
    assert(out@ =~= error_record(byte_order, error));
    out
}

/// Why a request failed to parse off the wire.
#[derive(Clone, Copy, Debug, PartialEq, Eq, Structural)]
pub enum XWireParseError {
    Truncated { needed: usize, available: usize },
    InvalidLength { declared: usize, minimum: usize },
    TrailingBytes(usize),
    UnknownOpcode(u8),
    InvalidPropertyMode(u8),
    InvalidPropertyFormat(u8),
    InvalidEventType(u8),
    InvalidValue(u32),
    PropertyValueTooLarge { len: usize, max: usize },
    ResourceIdOutsideClientRange { id: u32 },
}

/// The error a parse failure is answered with.
pub open spec fn wire_parse_error_code(error: XWireParseError) -> XErrorCode {
    match error {
        XWireParseError::Truncated { .. }
        | XWireParseError::InvalidLength { .. }
        | XWireParseError::TrailingBytes(_) => XErrorCode::BadLength,
        XWireParseError::UnknownOpcode(_) => XErrorCode::BadRequest,
        XWireParseError::InvalidPropertyMode(_)
        | XWireParseError::InvalidPropertyFormat(_)
        | XWireParseError::InvalidEventType(_)
        | XWireParseError::InvalidValue(_)
        | XWireParseError::PropertyValueTooLarge { .. } => XErrorCode::BadValue,
        XWireParseError::ResourceIdOutsideClientRange { .. } => XErrorCode::BadIdChoice,
    }
}

pub fn x_error_from_wire_parse(
    error: &XWireParseError,
    sequence: u16,
    major_code: u8,
    minor_code: u16,
) -> (client_error: XClientError)
    ensures
        client_error == (XClientError {
            code: wire_parse_error_code(*error),
            sequence,
            resource_id: 0,
            minor_code,
            major_code,
        }),
{
    let code = match error {
        XWireParseError::Truncated { .. }
        | XWireParseError::InvalidLength { .. }
        | XWireParseError::TrailingBytes(_) => XErrorCode::BadLength,
        XWireParseError::UnknownOpcode(_) => XErrorCode::BadRequest,
        XWireParseError::InvalidPropertyMode(_)
        | XWireParseError::InvalidPropertyFormat(_)
        | XWireParseError::InvalidEventType(_)
        | XWireParseError::InvalidValue(_)
        | XWireParseError::PropertyValueTooLarge { .. } => XErrorCode::BadValue,
        XWireParseError::ResourceIdOutsideClientRange { .. } => XErrorCode::BadIdChoice,
    };
    XClientError { code, sequence, resource_id: 0, minor_code, major_code }
}

/// Why the authority refused a request.
#[derive(Clone, Copy, Debug, PartialEq, Eq, Structural)]
pub enum XAuthorityRuntimeError {
    InvalidResource,
    UnknownResource,
    WrongResourceKind,
    InvalidSurface,
    InvalidNamespace,
    CrossNamespaceDenied,
    StaleGeneration,
    UnknownRequestorNamespace,
    MissingSourceNamespace,
    SameNamespace,
    PortalRejected,
    UnknownSourceOwner,
}

/// The error a runtime refusal is answered with.
pub open spec fn runtime_error_code(error: XAuthorityRuntimeError) -> XErrorCode {
    match error {
        XAuthorityRuntimeError::InvalidResource
        | XAuthorityRuntimeError::UnknownResource
        | XAuthorityRuntimeError::WrongResourceKind
        | XAuthorityRuntimeError::InvalidSurface => XErrorCode::BadWindow,
        XAuthorityRuntimeError::InvalidNamespace
        | XAuthorityRuntimeError::CrossNamespaceDenied
        | XAuthorityRuntimeError::StaleGeneration
        | XAuthorityRuntimeError::UnknownRequestorNamespace
        | XAuthorityRuntimeError::MissingSourceNamespace
        | XAuthorityRuntimeError::SameNamespace
        | XAuthorityRuntimeError::PortalRejected => XErrorCode::BadAccess,
        XAuthorityRuntimeError::UnknownSourceOwner => XErrorCode::BadAtom,
    }
}

/// Turns a runtime refusal into the X error a client sees.
///
/// `minor_code` is the failing request's minor opcode, or `0` for a core
/// request, which has none, so that an extension refusal names the request
/// that actually failed.
pub fn x_error_from_runtime(
    error: XAuthorityRuntimeError,
    sequence: u16,
    major_code: u8,
    minor_code: u16,
    resource_id: u32,
) -> (client_error: XClientError)
    ensures
        client_error == (XClientError {
            code: runtime_error_code(error),
            sequence,
            resource_id,
            minor_code,
            major_code,
        }),
{
    let code = match error {
        XAuthorityRuntimeError::InvalidResource
        | XAuthorityRuntimeError::UnknownResource
        | XAuthorityRuntimeError::WrongResourceKind
        | XAuthorityRuntimeError::InvalidSurface => XErrorCode::BadWindow,
        XAuthorityRuntimeError::InvalidNamespace
        | XAuthorityRuntimeError::CrossNamespaceDenied
        | XAuthorityRuntimeError::StaleGeneration
        | XAuthorityRuntimeError::UnknownRequestorNamespace
        | XAuthorityRuntimeError::MissingSourceNamespace
        | XAuthorityRuntimeError::SameNamespace
        | XAuthorityRuntimeError::PortalRejected => XErrorCode::BadAccess,
        XAuthorityRuntimeError::UnknownSourceOwner => XErrorCode::BadAtom,
    };
    XClientError { code, sequence, resource_id, minor_code, major_code }
}

/// Writes the type, detail and sequence that open every event record.
pub fn write_event_header(
    byte_order: XByteOrder,
    out: &mut Vec<u8>,
    event_type: u8,
    detail: u8,
    sequence: u16,
)
    requires
        old(out)@.len() >= 4,
    ensures
        final(out)@ == splice(
            old(out)@,
            0,
            seq![event_type, detail] + u16_bytes(byte_order, sequence),
        ),
{
    out.set(0, event_type);
    out.set(1, detail);
    put_u16(byte_order, out, 2, sequence);
    assert(out@ =~= splice(old(out)@, 0, seq![event_type, detail] + u16_bytes(byte_order, sequence)));
}

/// Writes the reply marker, sequence and length that open every reply record;
/// byte 1 is left as it was.
pub fn write_reply_header(
    byte_order: XByteOrder,
    out: &mut Vec<u8>,
    sequence: u16,
    length_units: u32,
)
    requires
        old(out)@.len() >= 8,
    ensures
        final(out)@ == splice(
            old(out)@,
            0,
            seq![1u8, old(out)@[1]] + u16_bytes(byte_order, sequence) + u32_bytes(
                byte_order,
                length_units,
            ),
        ),
{
    out.set(0, 1);
    put_u16(byte_order, out, 2, sequence);
    put_u32(byte_order, out, 4, length_units);
    assert(out@ =~= splice(
        old(out)@,
        0,
        seq![1u8, old(out)@[1]] + u16_bytes(byte_order, sequence) + u32_bytes(byte_order, length_units),
    ));
}


/// The `charinfo` bounds every glyph of the one built-in font shares.
pub open spec fn font_charinfo_bytes(order: XByteOrder) -> Seq<u8> {
    u16_bytes(order, 0) + u16_bytes(order, 8) + u16_bytes(order, 8) + u16_bytes(order, 8)
        + u16_bytes(order, 2) + u16_bytes(order, 0) + Seq::new(4, |i: int| 0u8)
}

/// The length, in four-byte units beyond the first 32 bytes, of a font
/// information reply that carries `name_len` name bytes.
pub open spec fn font_info_length_units(name_len: int) -> u32 {
    let units = 7 + spec_padded_len(name_len) / 4;
    if units <= u32::MAX {
        units as u32
    } else {
        7
    }
}

/// The first 60 bytes of a font information reply.
pub open spec fn font_info_header(
    order: XByteOrder,
    sequence: u16,
    font_ascent: i16,
    font_descent: i16,
    name_len: int,
) -> Seq<u8> {
    let name_len_byte: u8 = if name_len <= 255 {
        name_len as u8
    } else {
        0
    };
    Seq::<u8>::empty().push(1u8).push(name_len_byte) + u16_bytes(order, sequence) + u32_bytes(
        order,
        font_info_length_units(name_len),
    ) + font_charinfo_bytes(order) + font_charinfo_bytes(order) + u16_bytes(order, 0)
        + u16_bytes(order, 255) + u16_bytes(order, 0) + u16_bytes(order, 0)
        + Seq::<u8>::empty().push(0u8).push(0u8).push(0u8).push(1u8)
        + u16_bytes(order, font_ascent as u16) + u16_bytes(order, font_descent as u16) + u32_bytes(
        order,
        0,
    )
}

/// The reply to QueryFont and to each ListFontsWithInfo entry: fixed
/// metrics for the server's one font, the client's ascent and descent, and
/// the font's name padded to a four-byte boundary.
pub open spec fn font_info_reply(
    order: XByteOrder,
    sequence: u16,
    font_ascent: i16,
    font_descent: i16,
    name: Seq<u8>,
) -> Seq<u8> {
    font_info_header(order, sequence, font_ascent, font_descent, name.len() as int) + name
        + Seq::new((spec_padded_len(name.len() as int) - name.len()) as nat, |i: int| 0u8)
}

fn push_font_charinfo(byte_order: XByteOrder, out: &mut Vec<u8>)
    ensures
        final(out)@ == old(out)@ + font_charinfo_bytes(byte_order),
{
    push_u16(byte_order, out, 0);
    push_u16(byte_order, out, 8);
    push_u16(byte_order, out, 8);
    push_u16(byte_order, out, 8);
    push_u16(byte_order, out, 2);
    push_u16(byte_order, out, 0);
    out.push(0);
    out.push(0);
    out.push(0);
    out.push(0);
    assert(out@ =~= old(out)@ + font_charinfo_bytes(byte_order));
}

fn font_info_header_bytes(
    byte_order: XByteOrder,
    sequence: u16,
    font_ascent: i16,
    font_descent: i16,
    name_len: usize,
) -> (out: Vec<u8>)
    requires
        name_len + 63 <= usize::MAX,
    ensures
        out@ == font_info_header(byte_order, sequence, font_ascent, font_descent, name_len as int),
{
    let padded_name_len = crate::wire::padded_len(name_len);
    let units = padded_name_len / 4;
    let length_units: u32 = if units <= 4294967288 {
        (7 + units) as u32
    } else {
        7
    };
    assert(length_units == font_info_length_units(name_len as int));
    let name_len_byte: u8 = if name_len <= 255 {
        name_len as u8
    } else {
        0
    };
    let mut out: Vec<u8> = Vec::new();
    out.push(1);
    out.push(name_len_byte);
    let ghost g0 = Seq::<u8>::empty().push(1u8).push(name_len_byte);
    assert(out@ == g0);
    push_u16(byte_order, &mut out, sequence);
    push_u32(byte_order, &mut out, length_units);
    push_font_charinfo(byte_order, &mut out);
    push_font_charinfo(byte_order, &mut out);
    push_u16(byte_order, &mut out, 0);
    push_u16(byte_order, &mut out, 255);
    push_u16(byte_order, &mut out, 0);
    push_u16(byte_order, &mut out, 0);
    let ghost g1 = out@;
    let mut flags: Vec<u8> = Vec::new();
    flags.push(0);
    flags.push(0);
    flags.push(0);
    flags.push(1);
    let ghost gf = Seq::<u8>::empty().push(0u8).push(0u8).push(0u8).push(1u8);
    assert(flags@ == gf);
    out.append(&mut flags);
    assert(out@ == g1 + gf);
    push_u16(byte_order, &mut out, #[verifier::truncate] (font_ascent as u16));
    push_u16(byte_order, &mut out, #[verifier::truncate] (font_descent as u16));
    push_u32(byte_order, &mut out, 0);
    out
}

pub fn encode_font_info_reply(
    byte_order: XByteOrder,
    sequence: u16,
    font_ascent: i16,
    font_descent: i16,
    name: Option<&[u8]>,
) -> (out: Vec<u8>)
    requires
        name matches Some(n) ==> n@.len() + 63 <= usize::MAX,
    ensures
        out@ == font_info_reply(
            byte_order,
            sequence,
            font_ascent,
            font_descent,
            match name {
                Some(n) => n@,
                None => Seq::<u8>::empty(),
            },
        ),
{
    let empty: [u8; 0] = [];
    let name: &[u8] = match name {
        Some(n) => n,
        None => &empty,
    };
    let padded_name_len = crate::wire::padded_len(name.len());
    let mut out = font_info_header_bytes(byte_order, sequence, font_ascent, font_descent, name.len());
    let ghost header = out@;
    let mut i: usize = 0;
    while i < name.len()
        invariant
            i <= name@.len(),
            out@ =~= header + name@.subrange(0, i as int),
        decreases name@.len() - i,
    {
        out.push(name[i]);
        i = i + 1;
    }
    assert(name@.subrange(0, name@.len() as int) =~= name@);
    let mut pad: usize = name.len();
    while pad < padded_name_len
        invariant
            name@.len() <= pad <= padded_name_len,
            out@ =~= header + name@ + Seq::new((pad - name@.len()) as nat, |j: int| 0u8),
        decreases padded_name_len - pad,
    {
        out.push(0);
        pad = pad + 1;
    }
    out
}

pub const X_KEY_PRESS: u8 = 2;
pub const X_KEY_RELEASE: u8 = 3;
pub const X_BUTTON_PRESS: u8 = 4;
pub const X_BUTTON_RELEASE: u8 = 5;
pub const X_MOTION_NOTIFY: u8 = 6;
pub const X_FOCUS_IN: u8 = 9;
pub const X_FOCUS_OUT: u8 = 10;
pub const X_EXPOSE: u8 = 12;
pub const X_MAP_NOTIFY: u8 = 19;
pub const X_CONFIGURE_NOTIFY: u8 = 22;
pub const X_PROPERTY_NOTIFY: u8 = 28;
pub const X_SELECTION_CLEAR: u8 = 29;
pub const X_SELECTION_REQUEST: u8 = 30;
pub const X_SELECTION_NOTIFY: u8 = 31;
pub const X_GENERIC_EVENT: u8 = 35;
pub const PROPERTY_NEW_VALUE: u8 = 0;

/// A server timestamp in milliseconds, as the wire carries it.
pub type XTimestamp = u32;

#[derive(Clone, Copy, Debug, PartialEq, Eq)]
pub enum XClientEvent {
    Key { sequence: u16, pressed: bool, keycode: u8, time: XTimestamp, root: XResourceId, event: XResourceId, state: u16 },
    Focus { sequence: u16, focused: bool, detail: u8, event: XResourceId, mode: u8 },
    XkbStateNotify { sequence: u16, time: XTimestamp, modifiers: u8, changed: u16, keycode: u8, event_type: u8 },
    PointerMotion { sequence: u16, time: XTimestamp, root: XResourceId, event: XResourceId, root_x: i16, root_y: i16, event_x: i16, event_y: i16, state: u16 },
    PointerButton { sequence: u16, pressed: bool, button: u8, time: XTimestamp, root: XResourceId, event: XResourceId, root_x: i16, root_y: i16, event_x: i16, event_y: i16, state: u16 },
    Expose { sequence: u16, window: XResourceId, x: u16, y: u16, width: u16, height: u16, count: u16 },
    MapNotify { sequence: u16, event: XResourceId, window: XResourceId, override_redirect: bool },
    ConfigureNotify { sequence: u16, event: XResourceId, window: XResourceId, above_sibling: Option<XResourceId>, x: i16, y: i16, width: u16, height: u16, border_width: u16, override_redirect: bool },
    PropertyNotify { sequence: u16, window: XResourceId, atom: u32, time: XTimestamp, new_value: bool },
    SelectionClear { sequence: u16, time: XTimestamp, owner: XResourceId, selection: u32 },
    SelectionRequest { sequence: u16, time: XTimestamp, owner: XResourceId, requestor: XResourceId, selection: u32, target: u32, property: u32 },
    SelectionNotify { sequence: u16, time: XTimestamp, requestor: XResourceId, selection: u32, target: u32, property: u32 },
    ClientMessage { sequence: u16, bytes: [u8; 32] },
    ShmCompletion { sequence: u16, drawable: XResourceId, segment: XResourceId, offset: u32 },
    PresentCompleteNotify { sequence: u16, event_id: XResourceId, window: XResourceId, serial: u32, ust: u64, msc: u64, mode: u8 },
    PresentIdleNotify { sequence: u16, event_id: XResourceId, window: XResourceId, serial: u32, pixmap: XResourceId, idle_fence: Option<XResourceId> },
    RandrScreenChange { sequence: u16, timestamp: u32, config_timestamp: u32, root: XResourceId, request_window: XResourceId, width: u16, height: u16, mm_width: u16, mm_height: u16 },
    RandrCrtcChange { sequence: u16, timestamp: u32, window: XResourceId, crtc: u32, mode: u32, x: i16, y: i16, width: u16, height: u16 },
    RandrOutputChange { sequence: u16, timestamp: u32, window: XResourceId, output: u32, crtc: u32, mode: u32 },
    RandrResourceChange { sequence: u16, timestamp: u32, window: XResourceId },
}

/// The 32-bit XID a resource is written as; zero for one that does not fit.
pub open spec fn raw_xid(resource: XResourceId) -> u32 {
    if resource.local.raw <= u32::MAX {
        resource.local.raw as u32
    } else {
        0
    }
}

/// The XID of an optional resource, `None` written as zero.
pub open spec fn optional_raw_xid(resource: Option<XResourceId>) -> u32 {
    match resource {
        Some(r) => raw_xid(r),
        None => 0,
    }
}

pub open spec fn zero_bytes(n: nat) -> Seq<u8> {
    Seq::new(n, |i: int| 0u8)
}

pub(crate) fn raw_xid_of(resource: XResourceId) -> (xid: u32)
    ensures
        xid == raw_xid(resource),
{
    if resource.local.raw <= u32::MAX as u64 {
        resource.local.raw as u32
    } else {
        0
    }
}

pub(crate) fn optional_raw_xid_of(resource: Option<XResourceId>) -> (xid: u32)
    ensures
        xid == optional_raw_xid(resource),
{
    match resource {
        Some(r) => raw_xid_of(r),
        None => 0,
    }
}

pub(crate) fn push_byte(out: &mut Vec<u8>, b: u8)
    ensures
        final(out)@ == old(out)@ + seq![b],
{
    out.push(b);
    assert(out@ =~= old(out)@ + seq![b]);
}

pub(crate) fn push_zeros(out: &mut Vec<u8>, n: usize)
    ensures
        final(out)@ == old(out)@ + zero_bytes(n as nat),
{
    let mut i: usize = 0;
    while i < n
        invariant
            i <= n,
            out@ =~= old(out)@ + zero_bytes(i as nat),
        decreases n - i,
    {
        out.push(0);
        i = i + 1;
    }
}

/// The wire record of a `ClientMessage` being forwarded: the client's 32
/// bytes with the receiving client's sequence number in bytes 2 and 3.
pub open spec fn client_message_record(order: XByteOrder, sequence: u16, bytes: Seq<u8>) -> Seq<u8> {
    bytes.subrange(0, 2) + u16_bytes(order, sequence) + bytes.subrange(4, 32)
}

fn encode_client_message(byte_order: XByteOrder, sequence: u16, bytes: [u8; 32]) -> (out: Vec<u8>)
    ensures
        out@ == client_message_record(byte_order, sequence, bytes@),
{
    let mut out: Vec<u8> = Vec::new();
    let mut i: usize = 0;
    while i < 32
        invariant
            i <= 32,
            bytes@.len() == 32,
            out@ =~= bytes@.subrange(0, i as int),
        decreases 32 - i,
    {
        out.push(bytes[i]);
        i = i + 1;
    }
    put_u16(byte_order, &mut out, 2, sequence);
    assert(out@ =~= client_message_record(byte_order, sequence, bytes@));
    out
}

/// The wire record of a `Key` event.
pub open spec fn key_record(order: XByteOrder, sequence: u16, pressed: bool, keycode: u8, time: XTimestamp, root: XResourceId, event: XResourceId, state: u16) -> Seq<u8> {
    seq![(if pressed { X_KEY_PRESS } else { X_KEY_RELEASE }) as u8]
        + seq![(keycode) as u8]
        + u16_bytes(order, sequence)
        + u32_bytes(order, time)
        + u32_bytes(order, raw_xid(root))
        + u32_bytes(order, raw_xid(event))
        + u32_bytes(order, 0u32)
        + u16_bytes(order, 0u16)
        + u16_bytes(order, 0u16)
        + u16_bytes(order, 0u16)
        + u16_bytes(order, 0u16)
        + u16_bytes(order, state)
        + seq![(1u8) as u8]
        + zero_bytes(1)
}

fn encode_key(byte_order: XByteOrder, sequence: u16, pressed: bool, keycode: u8, time: XTimestamp, root: XResourceId, event: XResourceId, state: u16) -> (out: Vec<u8>)
    ensures
        out@ == key_record(byte_order, sequence, pressed, keycode, time, root, event, state),
{
    let mut out: Vec<u8> = vec![(if pressed { X_KEY_PRESS } else { X_KEY_RELEASE }) as u8];
    push_byte(&mut out, (keycode) as u8);
    push_u16(byte_order, &mut out, sequence);
    push_u32(byte_order, &mut out, time);
    push_u32(byte_order, &mut out, raw_xid_of(root));
    push_u32(byte_order, &mut out, raw_xid_of(event));
    push_u32(byte_order, &mut out, 0u32);
    push_u16(byte_order, &mut out, 0u16);
    push_u16(byte_order, &mut out, 0u16);
    push_u16(byte_order, &mut out, 0u16);
    push_u16(byte_order, &mut out, 0u16);
    push_u16(byte_order, &mut out, state);
    push_byte(&mut out, (1u8) as u8);
    push_zeros(&mut out, 1);
    out
}

/// The wire record of a `Focus` event.
pub open spec fn focus_record(order: XByteOrder, sequence: u16, focused: bool, detail: u8, event: XResourceId, mode: u8) -> Seq<u8> {
    seq![(if focused { X_FOCUS_IN } else { X_FOCUS_OUT }) as u8]
        + seq![(detail) as u8]
        + u16_bytes(order, sequence)
        + u32_bytes(order, raw_xid(event))
        + seq![(mode) as u8]
        + zero_bytes(23)
}

fn encode_focus(byte_order: XByteOrder, sequence: u16, focused: bool, detail: u8, event: XResourceId, mode: u8) -> (out: Vec<u8>)
    ensures
        out@ == focus_record(byte_order, sequence, focused, detail, event, mode),
{
    let mut out: Vec<u8> = vec![(if focused { X_FOCUS_IN } else { X_FOCUS_OUT }) as u8];
    push_byte(&mut out, (detail) as u8);
    push_u16(byte_order, &mut out, sequence);
    push_u32(byte_order, &mut out, raw_xid_of(event));
    push_byte(&mut out, (mode) as u8);
    push_zeros(&mut out, 23);
    out
}

/// The wire record of a `XkbStateNotify` event.
pub open spec fn xkb_state_notify_record(order: XByteOrder, sequence: u16, time: XTimestamp, modifiers: u8, changed: u16, keycode: u8, event_type: u8) -> Seq<u8> {
    seq![(X_KEYBOARD_FIRST_EVENT) as u8]
        + seq![(2u8) as u8]
        + u16_bytes(order, sequence)
        + u32_bytes(order, time)
        + seq![(3u8) as u8]
        + seq![(modifiers) as u8]
        + seq![(modifiers) as u8]
        + zero_bytes(5)
        + seq![(modifiers) as u8]
        + seq![(0u8) as u8]
        + seq![(modifiers) as u8]
        + zero_bytes(5)
        + u16_bytes(order, changed)
        + seq![(keycode) as u8]
        + seq![(event_type) as u8]
        + zero_bytes(4)
}

fn encode_xkb_state_notify(byte_order: XByteOrder, sequence: u16, time: XTimestamp, modifiers: u8, changed: u16, keycode: u8, event_type: u8) -> (out: Vec<u8>)
    ensures
        out@ == xkb_state_notify_record(byte_order, sequence, time, modifiers, changed, keycode, event_type),
{
    let mut out: Vec<u8> = vec![(X_KEYBOARD_FIRST_EVENT) as u8];
    push_byte(&mut out, (2u8) as u8);
    push_u16(byte_order, &mut out, sequence);
    push_u32(byte_order, &mut out, time);
    push_byte(&mut out, (3u8) as u8);
    push_byte(&mut out, (modifiers) as u8);
    push_byte(&mut out, (modifiers) as u8);
    push_zeros(&mut out, 5);
    push_byte(&mut out, (modifiers) as u8);
    push_byte(&mut out, (0u8) as u8);
    push_byte(&mut out, (modifiers) as u8);
    push_zeros(&mut out, 5);
    push_u16(byte_order, &mut out, changed);
    push_byte(&mut out, (keycode) as u8);
    push_byte(&mut out, (event_type) as u8);
    push_zeros(&mut out, 4);
    out
}

/// The wire record of a `PointerMotion` event.
pub open spec fn pointer_motion_record(order: XByteOrder, sequence: u16, time: XTimestamp, root: XResourceId, event: XResourceId, root_x: i16, root_y: i16, event_x: i16, event_y: i16, state: u16) -> Seq<u8> {
    seq![(X_MOTION_NOTIFY) as u8]
        + seq![(0u8) as u8]
        + u16_bytes(order, sequence)
        + u32_bytes(order, time)
        + u32_bytes(order, raw_xid(root))
        + u32_bytes(order, raw_xid(event))
        + u32_bytes(order, 0u32)
        + u16_bytes(order, root_x as u16)
        + u16_bytes(order, root_y as u16)
        + u16_bytes(order, event_x as u16)
        + u16_bytes(order, event_y as u16)
        + u16_bytes(order, state)
        + seq![(1u8) as u8]
        + zero_bytes(1)
}

fn encode_pointer_motion(byte_order: XByteOrder, sequence: u16, time: XTimestamp, root: XResourceId, event: XResourceId, root_x: i16, root_y: i16, event_x: i16, event_y: i16, state: u16) -> (out: Vec<u8>)
    ensures
        out@ == pointer_motion_record(byte_order, sequence, time, root, event, root_x, root_y, event_x, event_y, state),
{
    let mut out: Vec<u8> = vec![(X_MOTION_NOTIFY) as u8];
    push_byte(&mut out, (0u8) as u8);
    push_u16(byte_order, &mut out, sequence);
    push_u32(byte_order, &mut out, time);
    push_u32(byte_order, &mut out, raw_xid_of(root));
    push_u32(byte_order, &mut out, raw_xid_of(event));
    push_u32(byte_order, &mut out, 0u32);
    push_u16(byte_order, &mut out, #[verifier::truncate] (root_x as u16));
    push_u16(byte_order, &mut out, #[verifier::truncate] (root_y as u16));
    push_u16(byte_order, &mut out, #[verifier::truncate] (event_x as u16));
    push_u16(byte_order, &mut out, #[verifier::truncate] (event_y as u16));
    push_u16(byte_order, &mut out, state);
    push_byte(&mut out, (1u8) as u8);
    push_zeros(&mut out, 1);
    out
}

/// The wire record of a `PointerButton` event.
pub open spec fn pointer_button_record(order: XByteOrder, sequence: u16, pressed: bool, button: u8, time: XTimestamp, root: XResourceId, event: XResourceId, root_x: i16, root_y: i16, event_x: i16, event_y: i16, state: u16) -> Seq<u8> {
    seq![(if pressed { X_BUTTON_PRESS } else { X_BUTTON_RELEASE }) as u8]
        + seq![(button) as u8]
        + u16_bytes(order, sequence)
        + u32_bytes(order, time)
        + u32_bytes(order, raw_xid(root))
        + u32_bytes(order, raw_xid(event))
        + u32_bytes(order, 0u32)
        + u16_bytes(order, root_x as u16)
        + u16_bytes(order, root_y as u16)
        + u16_bytes(order, event_x as u16)
        + u16_bytes(order, event_y as u16)
        + u16_bytes(order, state)
        + seq![(1u8) as u8]
        + zero_bytes(1)
}

fn encode_pointer_button(byte_order: XByteOrder, sequence: u16, pressed: bool, button: u8, time: XTimestamp, root: XResourceId, event: XResourceId, root_x: i16, root_y: i16, event_x: i16, event_y: i16, state: u16) -> (out: Vec<u8>)
    ensures
        out@ == pointer_button_record(byte_order, sequence, pressed, button, time, root, event, root_x, root_y, event_x, event_y, state),
{
    let mut out: Vec<u8> = vec![(if pressed { X_BUTTON_PRESS } else { X_BUTTON_RELEASE }) as u8];
    push_byte(&mut out, (button) as u8);
    push_u16(byte_order, &mut out, sequence);
    push_u32(byte_order, &mut out, time);
    push_u32(byte_order, &mut out, raw_xid_of(root));
    push_u32(byte_order, &mut out, raw_xid_of(event));
    push_u32(byte_order, &mut out, 0u32);
    push_u16(byte_order, &mut out, #[verifier::truncate] (root_x as u16));
    push_u16(byte_order, &mut out, #[verifier::truncate] (root_y as u16));
    push_u16(byte_order, &mut out, #[verifier::truncate] (event_x as u16));
    push_u16(byte_order, &mut out, #[verifier::truncate] (event_y as u16));
    push_u16(byte_order, &mut out, state);
    push_byte(&mut out, (1u8) as u8);
    push_zeros(&mut out, 1);
    out
}

/// The wire record of a `Expose` event.
pub open spec fn expose_record(order: XByteOrder, sequence: u16, window: XResourceId, x: u16, y: u16, width: u16, height: u16, count: u16) -> Seq<u8> {
    seq![(X_EXPOSE) as u8]
        + seq![(0u8) as u8]
        + u16_bytes(order, sequence)
        + u32_bytes(order, raw_xid(window))
        + u16_bytes(order, x)
        + u16_bytes(order, y)
        + u16_bytes(order, width)
        + u16_bytes(order, height)
        + u16_bytes(order, count)
        + zero_bytes(14)
}

fn encode_expose(byte_order: XByteOrder, sequence: u16, window: XResourceId, x: u16, y: u16, width: u16, height: u16, count: u16) -> (out: Vec<u8>)
    ensures
        out@ == expose_record(byte_order, sequence, window, x, y, width, height, count),
{
    let mut out: Vec<u8> = vec![(X_EXPOSE) as u8];
    push_byte(&mut out, (0u8) as u8);
    push_u16(byte_order, &mut out, sequence);
    push_u32(byte_order, &mut out, raw_xid_of(window));
    push_u16(byte_order, &mut out, x);
    push_u16(byte_order, &mut out, y);
    push_u16(byte_order, &mut out, width);
    push_u16(byte_order, &mut out, height);
    push_u16(byte_order, &mut out, count);
    push_zeros(&mut out, 14);
    out
}

/// The wire record of a `MapNotify` event.
pub open spec fn map_notify_record(order: XByteOrder, sequence: u16, event: XResourceId, window: XResourceId, override_redirect: bool) -> Seq<u8> {
    seq![(X_MAP_NOTIFY) as u8]
        + seq![(0u8) as u8]
        + u16_bytes(order, sequence)
        + u32_bytes(order, raw_xid(event))
        + u32_bytes(order, raw_xid(window))
        + seq![(if override_redirect { 1u8 } else { 0u8 }) as u8]
        + zero_bytes(19)
}

fn encode_map_notify(byte_order: XByteOrder, sequence: u16, event: XResourceId, window: XResourceId, override_redirect: bool) -> (out: Vec<u8>)
    ensures
        out@ == map_notify_record(byte_order, sequence, event, window, override_redirect),
{
    let mut out: Vec<u8> = vec![(X_MAP_NOTIFY) as u8];
    push_byte(&mut out, (0u8) as u8);
    push_u16(byte_order, &mut out, sequence);
    push_u32(byte_order, &mut out, raw_xid_of(event));
    push_u32(byte_order, &mut out, raw_xid_of(window));
    push_byte(&mut out, (if override_redirect { 1u8 } else { 0u8 }) as u8);
    push_zeros(&mut out, 19);
    out
}

/// The wire record of a `ConfigureNotify` event.
pub open spec fn configure_notify_record(order: XByteOrder, sequence: u16, event: XResourceId, window: XResourceId, above_sibling: Option<XResourceId>, x: i16, y: i16, width: u16, height: u16, border_width: u16, override_redirect: bool) -> Seq<u8> {
    seq![(X_CONFIGURE_NOTIFY) as u8]
        + seq![(0u8) as u8]
        + u16_bytes(order, sequence)
        + u32_bytes(order, raw_xid(event))
        + u32_bytes(order, raw_xid(window))
        + u32_bytes(order, optional_raw_xid(above_sibling))
        + u16_bytes(order, x as u16)
        + u16_bytes(order, y as u16)
        + u16_bytes(order, width)
        + u16_bytes(order, height)
        + u16_bytes(order, border_width)
        + seq![(if override_redirect { 1u8 } else { 0u8 }) as u8]
        + zero_bytes(5)
}

fn encode_configure_notify(byte_order: XByteOrder, sequence: u16, event: XResourceId, window: XResourceId, above_sibling: Option<XResourceId>, x: i16, y: i16, width: u16, height: u16, border_width: u16, override_redirect: bool) -> (out: Vec<u8>)
    ensures
        out@ == configure_notify_record(byte_order, sequence, event, window, above_sibling, x, y, width, height, border_width, override_redirect),
{
    let mut out: Vec<u8> = vec![(X_CONFIGURE_NOTIFY) as u8];
    push_byte(&mut out, (0u8) as u8);
    push_u16(byte_order, &mut out, sequence);
    push_u32(byte_order, &mut out, raw_xid_of(event));
    push_u32(byte_order, &mut out, raw_xid_of(window));
    push_u32(byte_order, &mut out, optional_raw_xid_of(above_sibling));
    push_u16(byte_order, &mut out, #[verifier::truncate] (x as u16));
    push_u16(byte_order, &mut out, #[verifier::truncate] (y as u16));
    push_u16(byte_order, &mut out, width);
    push_u16(byte_order, &mut out, height);
    push_u16(byte_order, &mut out, border_width);
    push_byte(&mut out, (if override_redirect { 1u8 } else { 0u8 }) as u8);
    push_zeros(&mut out, 5);
    out
}

/// The wire record of a `PropertyNotify` event.
pub open spec fn property_notify_record(order: XByteOrder, sequence: u16, window: XResourceId, atom: u32, time: XTimestamp, new_value: bool) -> Seq<u8> {
    seq![(X_PROPERTY_NOTIFY) as u8]
        + seq![(0u8) as u8]
        + u16_bytes(order, sequence)
        + u32_bytes(order, raw_xid(window))
        + u32_bytes(order, atom)
        + u32_bytes(order, time)
        + seq![(if new_value { PROPERTY_NEW_VALUE } else { 1u8 }) as u8]
        + zero_bytes(15)
}

fn encode_property_notify(byte_order: XByteOrder, sequence: u16, window: XResourceId, atom: u32, time: XTimestamp, new_value: bool) -> (out: Vec<u8>)
    ensures
        out@ == property_notify_record(byte_order, sequence, window, atom, time, new_value),
{
    let mut out: Vec<u8> = vec![(X_PROPERTY_NOTIFY) as u8];
    push_byte(&mut out, (0u8) as u8);
    push_u16(byte_order, &mut out, sequence);
    push_u32(byte_order, &mut out, raw_xid_of(window));
    push_u32(byte_order, &mut out, atom);
    push_u32(byte_order, &mut out, time);
    push_byte(&mut out, (if new_value { PROPERTY_NEW_VALUE } else { 1u8 }) as u8);
    push_zeros(&mut out, 15);
    out
}

/// The wire record of a `SelectionClear` event.
pub open spec fn selection_clear_record(order: XByteOrder, sequence: u16, time: XTimestamp, owner: XResourceId, selection: u32) -> Seq<u8> {
    seq![(X_SELECTION_CLEAR) as u8]
        + seq![(0u8) as u8]
        + u16_bytes(order, sequence)
        + u32_bytes(order, time)
        + u32_bytes(order, raw_xid(owner))
        + u32_bytes(order, selection)
        + zero_bytes(16)
}

fn encode_selection_clear(byte_order: XByteOrder, sequence: u16, time: XTimestamp, owner: XResourceId, selection: u32) -> (out: Vec<u8>)
    ensures
        out@ == selection_clear_record(byte_order, sequence, time, owner, selection),
{
    let mut out: Vec<u8> = vec![(X_SELECTION_CLEAR) as u8];
    push_byte(&mut out, (0u8) as u8);
    push_u16(byte_order, &mut out, sequence);
    push_u32(byte_order, &mut out, time);
    push_u32(byte_order, &mut out, raw_xid_of(owner));
    push_u32(byte_order, &mut out, selection);
    push_zeros(&mut out, 16);
    out
}

/// The wire record of a `SelectionRequest` event.
pub open spec fn selection_request_record(order: XByteOrder, sequence: u16, time: XTimestamp, owner: XResourceId, requestor: XResourceId, selection: u32, target: u32, property: u32) -> Seq<u8> {
    seq![(X_SELECTION_REQUEST) as u8]
        + seq![(0u8) as u8]
        + u16_bytes(order, sequence)
        + u32_bytes(order, time)
        + u32_bytes(order, raw_xid(owner))
        + u32_bytes(order, raw_xid(requestor))
        + u32_bytes(order, selection)
        + u32_bytes(order, target)
        + u32_bytes(order, property)
        + zero_bytes(4)
}

fn encode_selection_request(byte_order: XByteOrder, sequence: u16, time: XTimestamp, owner: XResourceId, requestor: XResourceId, selection: u32, target: u32, property: u32) -> (out: Vec<u8>)
    ensures
        out@ == selection_request_record(byte_order, sequence, time, owner, requestor, selection, target, property),
{
    let mut out: Vec<u8> = vec![(X_SELECTION_REQUEST) as u8];
    push_byte(&mut out, (0u8) as u8);
    push_u16(byte_order, &mut out, sequence);
    push_u32(byte_order, &mut out, time);
    push_u32(byte_order, &mut out, raw_xid_of(owner));
    push_u32(byte_order, &mut out, raw_xid_of(requestor));
    push_u32(byte_order, &mut out, selection);
    push_u32(byte_order, &mut out, target);
    push_u32(byte_order, &mut out, property);
    push_zeros(&mut out, 4);
    out
}

/// The wire record of a `SelectionNotify` event.
pub open spec fn selection_notify_record(order: XByteOrder, sequence: u16, time: XTimestamp, requestor: XResourceId, selection: u32, target: u32, property: u32) -> Seq<u8> {
    seq![(X_SELECTION_NOTIFY) as u8]
        + seq![(0u8) as u8]
        + u16_bytes(order, sequence)
        + u32_bytes(order, time)
        + u32_bytes(order, raw_xid(requestor))
        + u32_bytes(order, selection)
        + u32_bytes(order, target)
        + u32_bytes(order, property)
        + zero_bytes(8)
}

fn encode_selection_notify(byte_order: XByteOrder, sequence: u16, time: XTimestamp, requestor: XResourceId, selection: u32, target: u32, property: u32) -> (out: Vec<u8>)
    ensures
        out@ == selection_notify_record(byte_order, sequence, time, requestor, selection, target, property),
{
    let mut out: Vec<u8> = vec![(X_SELECTION_NOTIFY) as u8];
    push_byte(&mut out, (0u8) as u8);
    push_u16(byte_order, &mut out, sequence);
    push_u32(byte_order, &mut out, time);
    push_u32(byte_order, &mut out, raw_xid_of(requestor));
    push_u32(byte_order, &mut out, selection);
    push_u32(byte_order, &mut out, target);
    push_u32(byte_order, &mut out, property);
    push_zeros(&mut out, 8);
    out
}

/// The wire record of a `ShmCompletion` event.
pub open spec fn shm_completion_record(order: XByteOrder, sequence: u16, drawable: XResourceId, segment: XResourceId, offset: u32) -> Seq<u8> {
    seq![(X_MIT_SHM_FIRST_EVENT) as u8]
        + seq![(0u8) as u8]
        + u16_bytes(order, sequence)
        + u32_bytes(order, raw_xid(drawable))
        + u16_bytes(order, X_MIT_SHM_PUT_IMAGE_MINOR_OPCODE as u16)
        + seq![(X_MIT_SHM_MAJOR_OPCODE) as u8]
        + seq![(0u8) as u8]
        + u32_bytes(order, raw_xid(segment))
        + u32_bytes(order, offset)
        + zero_bytes(12)
}

fn encode_shm_completion(byte_order: XByteOrder, sequence: u16, drawable: XResourceId, segment: XResourceId, offset: u32) -> (out: Vec<u8>)
    ensures
        out@ == shm_completion_record(byte_order, sequence, drawable, segment, offset),
{
    let mut out: Vec<u8> = vec![(X_MIT_SHM_FIRST_EVENT) as u8];
    push_byte(&mut out, (0u8) as u8);
    push_u16(byte_order, &mut out, sequence);
    push_u32(byte_order, &mut out, raw_xid_of(drawable));
    push_u16(byte_order, &mut out, (X_MIT_SHM_PUT_IMAGE_MINOR_OPCODE as u16));
    push_byte(&mut out, (X_MIT_SHM_MAJOR_OPCODE) as u8);
    push_byte(&mut out, (0u8) as u8);
    push_u32(byte_order, &mut out, raw_xid_of(segment));
    push_u32(byte_order, &mut out, offset);
    push_zeros(&mut out, 12);
    out
}

/// The wire record of a `PresentCompleteNotify` event.
pub open spec fn present_complete_notify_record(order: XByteOrder, sequence: u16, event_id: XResourceId, window: XResourceId, serial: u32, ust: u64, msc: u64, mode: u8) -> Seq<u8> {
    seq![(X_GENERIC_EVENT) as u8]
        + seq![(X_PRESENT_MAJOR_OPCODE) as u8]
        + u16_bytes(order, sequence)
        + u32_bytes(order, 3u32)
        + u16_bytes(order, 1u16)
        + seq![(0u8) as u8]
        + seq![(mode) as u8]
        + u32_bytes(order, raw_xid(event_id))
        + u32_bytes(order, raw_xid(window))
        + u32_bytes(order, serial)
        + u64_bytes(order, ust)
        + u32_bytes(order, sequence as u32)
        + u64_bytes(order, msc)
}

fn encode_present_complete_notify(byte_order: XByteOrder, sequence: u16, event_id: XResourceId, window: XResourceId, serial: u32, ust: u64, msc: u64, mode: u8) -> (out: Vec<u8>)
    ensures
        out@ == present_complete_notify_record(byte_order, sequence, event_id, window, serial, ust, msc, mode),
{
    let mut out: Vec<u8> = vec![(X_GENERIC_EVENT) as u8];
    push_byte(&mut out, (X_PRESENT_MAJOR_OPCODE) as u8);
    push_u16(byte_order, &mut out, sequence);
    push_u32(byte_order, &mut out, 3u32);
    push_u16(byte_order, &mut out, 1u16);
    push_byte(&mut out, (0u8) as u8);
    push_byte(&mut out, (mode) as u8);
    push_u32(byte_order, &mut out, raw_xid_of(event_id));
    push_u32(byte_order, &mut out, raw_xid_of(window));
    push_u32(byte_order, &mut out, serial);
    push_u64(byte_order, &mut out, ust);
    push_u32(byte_order, &mut out, (sequence as u32));
    push_u64(byte_order, &mut out, msc);
    out
}

/// The wire record of a `PresentIdleNotify` event.
pub open spec fn present_idle_notify_record(order: XByteOrder, sequence: u16, event_id: XResourceId, window: XResourceId, serial: u32, pixmap: XResourceId, idle_fence: Option<XResourceId>) -> Seq<u8> {
    seq![(X_GENERIC_EVENT) as u8]
        + seq![(X_PRESENT_MAJOR_OPCODE) as u8]
        + u16_bytes(order, sequence)
        + u32_bytes(order, 1u32)
        + u16_bytes(order, 2u16)
        + zero_bytes(2)
        + u32_bytes(order, raw_xid(event_id))
        + u32_bytes(order, raw_xid(window))
        + u32_bytes(order, serial)
        + u32_bytes(order, raw_xid(pixmap))
        + u32_bytes(order, optional_raw_xid(idle_fence))
        + u32_bytes(order, sequence as u32)
}

fn encode_present_idle_notify(byte_order: XByteOrder, sequence: u16, event_id: XResourceId, window: XResourceId, serial: u32, pixmap: XResourceId, idle_fence: Option<XResourceId>) -> (out: Vec<u8>)
    ensures
        out@ == present_idle_notify_record(byte_order, sequence, event_id, window, serial, pixmap, idle_fence),
{
    let mut out: Vec<u8> = vec![(X_GENERIC_EVENT) as u8];
    push_byte(&mut out, (X_PRESENT_MAJOR_OPCODE) as u8);
    push_u16(byte_order, &mut out, sequence);
    push_u32(byte_order, &mut out, 1u32);
    push_u16(byte_order, &mut out, 2u16);
    push_zeros(&mut out, 2);
    push_u32(byte_order, &mut out, raw_xid_of(event_id));
    push_u32(byte_order, &mut out, raw_xid_of(window));
    push_u32(byte_order, &mut out, serial);
    push_u32(byte_order, &mut out, raw_xid_of(pixmap));
    push_u32(byte_order, &mut out, optional_raw_xid_of(idle_fence));
    push_u32(byte_order, &mut out, (sequence as u32));
    out
}

/// The wire record of a `RandrScreenChange` event.
pub open spec fn randr_screen_change_record(order: XByteOrder, sequence: u16, timestamp: u32, config_timestamp: u32, root: XResourceId, request_window: XResourceId, width: u16, height: u16, mm_width: u16, mm_height: u16) -> Seq<u8> {
    seq![(X_RANDR_FIRST_EVENT) as u8]
        + seq![(1u8) as u8]
        + u16_bytes(order, sequence)
        + u32_bytes(order, timestamp)
        + u32_bytes(order, config_timestamp)
        + u32_bytes(order, raw_xid(root))
        + u32_bytes(order, raw_xid(request_window))
        + u16_bytes(order, 0u16)
        + u16_bytes(order, 0u16)
        + u16_bytes(order, width)
        + u16_bytes(order, height)
        + u16_bytes(order, mm_width)
        + u16_bytes(order, mm_height)
}

fn encode_randr_screen_change(byte_order: XByteOrder, sequence: u16, timestamp: u32, config_timestamp: u32, root: XResourceId, request_window: XResourceId, width: u16, height: u16, mm_width: u16, mm_height: u16) -> (out: Vec<u8>)
    ensures
        out@ == randr_screen_change_record(byte_order, sequence, timestamp, config_timestamp, root, request_window, width, height, mm_width, mm_height),
{
    let mut out: Vec<u8> = vec![(X_RANDR_FIRST_EVENT) as u8];
    push_byte(&mut out, (1u8) as u8);
    push_u16(byte_order, &mut out, sequence);
    push_u32(byte_order, &mut out, timestamp);
    push_u32(byte_order, &mut out, config_timestamp);
    push_u32(byte_order, &mut out, raw_xid_of(root));
    push_u32(byte_order, &mut out, raw_xid_of(request_window));
    push_u16(byte_order, &mut out, 0u16);
    push_u16(byte_order, &mut out, 0u16);
    push_u16(byte_order, &mut out, width);
    push_u16(byte_order, &mut out, height);
    push_u16(byte_order, &mut out, mm_width);
    push_u16(byte_order, &mut out, mm_height);
    out
}

/// The wire record of a `RandrCrtcChange` event.
pub open spec fn randr_crtc_change_record(order: XByteOrder, sequence: u16, timestamp: u32, window: XResourceId, crtc: u32, mode: u32, x: i16, y: i16, width: u16, height: u16) -> Seq<u8> {
    seq![(X_RANDR_FIRST_EVENT + 1) as u8]
        + seq![(0u8) as u8]
        + u16_bytes(order, sequence)
        + u32_bytes(order, timestamp)
        + u32_bytes(order, raw_xid(window))
        + u32_bytes(order, crtc)
        + u32_bytes(order, mode)
        + u16_bytes(order, 1u16)
        + zero_bytes(2)
        + u16_bytes(order, x as u16)
        + u16_bytes(order, y as u16)
        + u16_bytes(order, width)
        + u16_bytes(order, height)
}

fn encode_randr_crtc_change(byte_order: XByteOrder, sequence: u16, timestamp: u32, window: XResourceId, crtc: u32, mode: u32, x: i16, y: i16, width: u16, height: u16) -> (out: Vec<u8>)
    ensures
        out@ == randr_crtc_change_record(byte_order, sequence, timestamp, window, crtc, mode, x, y, width, height),
{
    let mut out: Vec<u8> = vec![(X_RANDR_FIRST_EVENT + 1) as u8];
    push_byte(&mut out, (0u8) as u8);
    push_u16(byte_order, &mut out, sequence);
    push_u32(byte_order, &mut out, timestamp);
    push_u32(byte_order, &mut out, raw_xid_of(window));
    push_u32(byte_order, &mut out, crtc);
    push_u32(byte_order, &mut out, mode);
    push_u16(byte_order, &mut out, 1u16);
    push_zeros(&mut out, 2);
    push_u16(byte_order, &mut out, #[verifier::truncate] (x as u16));
    push_u16(byte_order, &mut out, #[verifier::truncate] (y as u16));
    push_u16(byte_order, &mut out, width);
    push_u16(byte_order, &mut out, height);
    out
}

/// The wire record of a `RandrOutputChange` event.
pub open spec fn randr_output_change_record(order: XByteOrder, sequence: u16, timestamp: u32, window: XResourceId, output: u32, crtc: u32, mode: u32) -> Seq<u8> {
    seq![(X_RANDR_FIRST_EVENT + 1) as u8]
        + seq![(1u8) as u8]
        + u16_bytes(order, sequence)
        + u32_bytes(order, timestamp)
        + u32_bytes(order, timestamp)
        + u32_bytes(order, raw_xid(window))
        + u32_bytes(order, output)
        + u32_bytes(order, crtc)
        + u32_bytes(order, mode)
        + u16_bytes(order, 1u16)
        + seq![(0u8) as u8]
        + seq![(0u8) as u8]
}

fn encode_randr_output_change(byte_order: XByteOrder, sequence: u16, timestamp: u32, window: XResourceId, output: u32, crtc: u32, mode: u32) -> (out: Vec<u8>)
    ensures
        out@ == randr_output_change_record(byte_order, sequence, timestamp, window, output, crtc, mode),
{
    let mut out: Vec<u8> = vec![(X_RANDR_FIRST_EVENT + 1) as u8];
    push_byte(&mut out, (1u8) as u8);
    push_u16(byte_order, &mut out, sequence);
    push_u32(byte_order, &mut out, timestamp);
    push_u32(byte_order, &mut out, timestamp);
    push_u32(byte_order, &mut out, raw_xid_of(window));
    push_u32(byte_order, &mut out, output);
    push_u32(byte_order, &mut out, crtc);
    push_u32(byte_order, &mut out, mode);
    push_u16(byte_order, &mut out, 1u16);
    push_byte(&mut out, (0u8) as u8);
    push_byte(&mut out, (0u8) as u8);
    out
}

/// The wire record of a `RandrResourceChange` event.
pub open spec fn randr_resource_change_record(order: XByteOrder, sequence: u16, timestamp: u32, window: XResourceId) -> Seq<u8> {
    seq![(X_RANDR_FIRST_EVENT + 1) as u8]
        + seq![(5u8) as u8]
        + u16_bytes(order, sequence)
        + u32_bytes(order, timestamp)
        + u32_bytes(order, raw_xid(window))
        + zero_bytes(20)
}

fn encode_randr_resource_change(byte_order: XByteOrder, sequence: u16, timestamp: u32, window: XResourceId) -> (out: Vec<u8>)
    ensures
        out@ == randr_resource_change_record(byte_order, sequence, timestamp, window),
{
    let mut out: Vec<u8> = vec![(X_RANDR_FIRST_EVENT + 1) as u8];
    push_byte(&mut out, (5u8) as u8);
    push_u16(byte_order, &mut out, sequence);
    push_u32(byte_order, &mut out, timestamp);
    push_u32(byte_order, &mut out, raw_xid_of(window));
    push_zeros(&mut out, 20);
    out
}

/// The wire record a client receives for `event`.
pub open spec fn event_record(order: XByteOrder, event: XClientEvent) -> Seq<u8> {
    match event {
        XClientEvent::Key { sequence, pressed, keycode, time, root, event, state } => key_record(order, sequence, pressed, keycode, time, root, event, state),
        XClientEvent::Focus { sequence, focused, detail, event, mode } => focus_record(order, sequence, focused, detail, event, mode),
        XClientEvent::XkbStateNotify { sequence, time, modifiers, changed, keycode, event_type } => xkb_state_notify_record(order, sequence, time, modifiers, changed, keycode, event_type),
        XClientEvent::PointerMotion { sequence, time, root, event, root_x, root_y, event_x, event_y, state } => pointer_motion_record(order, sequence, time, root, event, root_x, root_y, event_x, event_y, state),
        XClientEvent::PointerButton { sequence, pressed, button, time, root, event, root_x, root_y, event_x, event_y, state } => pointer_button_record(order, sequence, pressed, button, time, root, event, root_x, root_y, event_x, event_y, state),
        XClientEvent::Expose { sequence, window, x, y, width, height, count } => expose_record(order, sequence, window, x, y, width, height, count),
        XClientEvent::MapNotify { sequence, event, window, override_redirect } => map_notify_record(order, sequence, event, window, override_redirect),
        XClientEvent::ConfigureNotify { sequence, event, window, above_sibling, x, y, width, height, border_width, override_redirect } => configure_notify_record(order, sequence, event, window, above_sibling, x, y, width, height, border_width, override_redirect),
        XClientEvent::PropertyNotify { sequence, window, atom, time, new_value } => property_notify_record(order, sequence, window, atom, time, new_value),
        XClientEvent::SelectionClear { sequence, time, owner, selection } => selection_clear_record(order, sequence, time, owner, selection),
        XClientEvent::SelectionRequest { sequence, time, owner, requestor, selection, target, property } => selection_request_record(order, sequence, time, owner, requestor, selection, target, property),
        XClientEvent::SelectionNotify { sequence, time, requestor, selection, target, property } => selection_notify_record(order, sequence, time, requestor, selection, target, property),
        XClientEvent::ShmCompletion { sequence, drawable, segment, offset } => shm_completion_record(order, sequence, drawable, segment, offset),
        XClientEvent::PresentCompleteNotify { sequence, event_id, window, serial, ust, msc, mode } => present_complete_notify_record(order, sequence, event_id, window, serial, ust, msc, mode),
        XClientEvent::PresentIdleNotify { sequence, event_id, window, serial, pixmap, idle_fence } => present_idle_notify_record(order, sequence, event_id, window, serial, pixmap, idle_fence),
        XClientEvent::RandrScreenChange { sequence, timestamp, config_timestamp, root, request_window, width, height, mm_width, mm_height } => randr_screen_change_record(order, sequence, timestamp, config_timestamp, root, request_window, width, height, mm_width, mm_height),
        XClientEvent::RandrCrtcChange { sequence, timestamp, window, crtc, mode, x, y, width, height } => randr_crtc_change_record(order, sequence, timestamp, window, crtc, mode, x, y, width, height),
        XClientEvent::RandrOutputChange { sequence, timestamp, window, output, crtc, mode } => randr_output_change_record(order, sequence, timestamp, window, output, crtc, mode),
        XClientEvent::RandrResourceChange { sequence, timestamp, window } => randr_resource_change_record(order, sequence, timestamp, window),
        XClientEvent::ClientMessage { sequence, bytes } => client_message_record(order, sequence, bytes@),
    }
}

pub fn encode_x_client_event(byte_order: XByteOrder, event: XClientEvent) -> (out: Vec<u8>)
    ensures
        out@ == event_record(byte_order, event),
{
    match event {
        XClientEvent::Key { sequence, pressed, keycode, time, root, event, state } => encode_key(byte_order, sequence, pressed, keycode, time, root, event, state),
        XClientEvent::Focus { sequence, focused, detail, event, mode } => encode_focus(byte_order, sequence, focused, detail, event, mode),
        XClientEvent::XkbStateNotify { sequence, time, modifiers, changed, keycode, event_type } => encode_xkb_state_notify(byte_order, sequence, time, modifiers, changed, keycode, event_type),
        XClientEvent::PointerMotion { sequence, time, root, event, root_x, root_y, event_x, event_y, state } => encode_pointer_motion(byte_order, sequence, time, root, event, root_x, root_y, event_x, event_y, state),
        XClientEvent::PointerButton { sequence, pressed, button, time, root, event, root_x, root_y, event_x, event_y, state } => encode_pointer_button(byte_order, sequence, pressed, button, time, root, event, root_x, root_y, event_x, event_y, state),
        XClientEvent::Expose { sequence, window, x, y, width, height, count } => encode_expose(byte_order, sequence, window, x, y, width, height, count),
        XClientEvent::MapNotify { sequence, event, window, override_redirect } => encode_map_notify(byte_order, sequence, event, window, override_redirect),
        XClientEvent::ConfigureNotify { sequence, event, window, above_sibling, x, y, width, height, border_width, override_redirect } => encode_configure_notify(byte_order, sequence, event, window, above_sibling, x, y, width, height, border_width, override_redirect),
        XClientEvent::PropertyNotify { sequence, window, atom, time, new_value } => encode_property_notify(byte_order, sequence, window, atom, time, new_value),
        XClientEvent::SelectionClear { sequence, time, owner, selection } => encode_selection_clear(byte_order, sequence, time, owner, selection),
        XClientEvent::SelectionRequest { sequence, time, owner, requestor, selection, target, property } => encode_selection_request(byte_order, sequence, time, owner, requestor, selection, target, property),
        XClientEvent::SelectionNotify { sequence, time, requestor, selection, target, property } => encode_selection_notify(byte_order, sequence, time, requestor, selection, target, property),
        XClientEvent::ShmCompletion { sequence, drawable, segment, offset } => encode_shm_completion(byte_order, sequence, drawable, segment, offset),
        XClientEvent::PresentCompleteNotify { sequence, event_id, window, serial, ust, msc, mode } => encode_present_complete_notify(byte_order, sequence, event_id, window, serial, ust, msc, mode),
        XClientEvent::PresentIdleNotify { sequence, event_id, window, serial, pixmap, idle_fence } => encode_present_idle_notify(byte_order, sequence, event_id, window, serial, pixmap, idle_fence),
        XClientEvent::RandrScreenChange { sequence, timestamp, config_timestamp, root, request_window, width, height, mm_width, mm_height } => encode_randr_screen_change(byte_order, sequence, timestamp, config_timestamp, root, request_window, width, height, mm_width, mm_height),
        XClientEvent::RandrCrtcChange { sequence, timestamp, window, crtc, mode, x, y, width, height } => encode_randr_crtc_change(byte_order, sequence, timestamp, window, crtc, mode, x, y, width, height),
        XClientEvent::RandrOutputChange { sequence, timestamp, window, output, crtc, mode } => encode_randr_output_change(byte_order, sequence, timestamp, window, output, crtc, mode),
        XClientEvent::RandrResourceChange { sequence, timestamp, window } => encode_randr_resource_change(byte_order, sequence, timestamp, window),
        XClientEvent::ClientMessage { sequence, bytes } => encode_client_message(byte_order, sequence, bytes),
    }
}

/// The SelectionNotify that tells a requestor its conversion failed: no
/// property was stored.
pub fn x_selection_failure_event(
    sequence: u16,
    time: XTimestamp,
    requestor: XResourceId,
    selection: u32,
    target: u32,
) -> (event: XClientEvent)
    ensures
        event == (XClientEvent::SelectionNotify {
            sequence,
            time,
            requestor,
            selection,
            target,
            property: X_ATOM_NONE,
        }),
{
    XClientEvent::SelectionNotify { sequence, time, requestor, selection, target, property: X_ATOM_NONE }
}

#[derive(Clone, Debug, PartialEq, Eq)]
pub struct XXiDeviceInfo {
    pub device_id: u16,
    pub device_type: u16,
    pub attachment: u16,
    pub name: String,
    pub classes: Vec<XXiDeviceClass>,
}

#[derive(Clone, Debug, PartialEq, Eq)]
pub enum XXiDeviceClass {
    Key { source_id: u16, keys: Vec<u32> },
    Button { source_id: u16, button_count: u16 },
    Valuator { source_id: u16, number: u16, min: i64, max: i64 },
}

#[derive(Clone, Debug, PartialEq, Eq)]
pub struct XRandrModeInfo {
    pub id: u32,
    pub width: u16,
    pub height: u16,
    pub refresh_millihz: u32,
    pub name: Vec<u8>,
}

#[derive(Clone, Debug, PartialEq, Eq)]
pub struct XRandrMonitorInfo {
    pub name: u32,
    pub primary: bool,
    pub x: i16,
    pub y: i16,
    pub width: u16,
    pub height: u16,
    pub mm_width: u32,
    pub mm_height: u32,
    pub outputs: Vec<u32>,
}

proof fn lemma_generic_event_length(order: XByteOrder, record: Seq<u8>, head: Seq<u8>, units: u32, rest: Seq<u8>)
    requires
        head.len() == 4,
        record == head + u32_bytes(order, units) + rest,
        record.len() == 32 + 4 * units,
    ensures
        record.len() == 32 + 4 * u32_at(order, record, 4),
{
    law_u32_read_inverts_write(order, units);
    let b = u32_bytes(order, units);
    assert(record[4] == b[0] && record[5] == b[1] && record[6] == b[2] && record[7] == b[3]);
}

/// Every event a client receives is one 32-byte record, except the Present
/// extension's generic events, whose length field counts the 4-byte units
/// that follow the first 32 bytes.
proof fn lemma_word_lengths(order: XByteOrder)
    ensures
        forall|v: u16| #[trigger] u16_bytes(order, v).len() == 2,
        forall|v: u32| #[trigger] u32_bytes(order, v).len() == 4,
        forall|v: u64| #[trigger] u64_bytes(order, v).len() == 8,
{
}

proof fn lemma_fixed_event_length(order: XByteOrder, event: XClientEvent)
    requires
        !(event is PresentCompleteNotify || event is PresentIdleNotify),
    ensures
        event_record(order, event).len() == 32,
{
    lemma_word_lengths(order);
}

pub proof fn law_event_record_length(order: XByteOrder, event: XClientEvent)
    ensures
        (event is PresentCompleteNotify || event is PresentIdleNotify) ==> {
            &&& event_record(order, event)[0] == X_GENERIC_EVENT
            &&& event_record(order, event).len() > 32
            &&& event_record(order, event).len() == 32 + 4 * u32_at(
                order,
                event_record(order, event),
                4,
            )
        },
        !(event is PresentCompleteNotify || event is PresentIdleNotify) ==> event_record(
            order,
            event,
        ).len() == 32,
{
    let record = event_record(order, event);
    lemma_word_lengths(order);
    match event {
        XClientEvent::PresentCompleteNotify { sequence, event_id, window, serial, ust, msc, mode } => {
            let head = seq![(X_GENERIC_EVENT) as u8] + seq![(X_PRESENT_MAJOR_OPCODE) as u8]
                + u16_bytes(order, sequence);
            let rest = u16_bytes(order, 1u16) + seq![(0u8) as u8] + seq![(mode) as u8] + u32_bytes(
                order,
                raw_xid(event_id),
            ) + u32_bytes(order, raw_xid(window)) + u32_bytes(order, serial) + u64_bytes(order, ust)
                + u32_bytes(order, sequence as u32) + u64_bytes(order, msc);
            assert(record =~= head + u32_bytes(order, 3u32) + rest);
            lemma_generic_event_length(order, record, head, 3u32, rest);
        },
        XClientEvent::PresentIdleNotify { sequence, event_id, window, serial, pixmap, idle_fence } => {
            let head = seq![(X_GENERIC_EVENT) as u8] + seq![(X_PRESENT_MAJOR_OPCODE) as u8]
                + u16_bytes(order, sequence);
            let rest = u16_bytes(order, 2u16) + zero_bytes(2) + u32_bytes(order, raw_xid(event_id))
                + u32_bytes(order, raw_xid(window)) + u32_bytes(order, serial) + u32_bytes(
                order,
                raw_xid(pixmap),
            ) + u32_bytes(order, optional_raw_xid(idle_fence)) + u32_bytes(order, sequence as u32);
            assert(record =~= head + u32_bytes(order, 1u32) + rest);
            lemma_generic_event_length(order, record, head, 1u32, rest);
        },
        _ => {
            lemma_fixed_event_length(order, event);
        },
    }
}

proof fn lemma_input_event_lengths(
    order: XByteOrder,
    sequence: u16,
    time: XTimestamp,
    root: XResourceId,
    event: XResourceId,
    root_x: i16,
    root_y: i16,
    event_x: i16,
    event_y: i16,
    state: u16,
)
    ensures
        u16_bytes(order, sequence).len() == 2,
        u32_bytes(order, time).len() == 4,
        u32_bytes(order, raw_xid(root)).len() == 4,
        u32_bytes(order, raw_xid(event)).len() == 4,
        u32_bytes(order, 0u32).len() == 4,
        u16_bytes(order, root_x as u16).len() == 2,
        u16_bytes(order, root_y as u16).len() == 2,
        u16_bytes(order, event_x as u16).len() == 2,
        u16_bytes(order, event_y as u16).len() == 2,
        u16_bytes(order, state).len() == 2,
        u16_bytes(order, 0u16).len() == 2,
{
    lemma_u16_bytes_len(order, sequence);
    lemma_u32_bytes_len(order, time);
    lemma_u32_bytes_len(order, raw_xid(root));
    lemma_u32_bytes_len(order, raw_xid(event));
    lemma_u32_bytes_len(order, 0u32);
    lemma_u16_bytes_len(order, root_x as u16);
    lemma_u16_bytes_len(order, root_y as u16);
    lemma_u16_bytes_len(order, event_x as u16);
    lemma_u16_bytes_len(order, event_y as u16);
    lemma_u16_bytes_len(order, state);
    lemma_u16_bytes_len(order, 0u16);
}

/// A pointer button event is a 32-byte `ButtonPress` (type 4) when the
/// button went down and a `ButtonRelease` (type 5) when it came up, with the
/// button as its detail byte, the root-relative position at bytes 20 and 22,
/// the event-window position at 24 and 26 and the state mask at 28.
pub proof fn law_pointer_button_event_layout(
    order: XByteOrder,
    sequence: u16,
    pressed: bool,
    button: u8,
    time: XTimestamp,
    root: XResourceId,
    event: XResourceId,
    root_x: i16,
    root_y: i16,
    event_x: i16,
    event_y: i16,
    state: u16,
)
    ensures
        ({
            let record = event_record(
                order,
                XClientEvent::PointerButton {
                    sequence,
                    pressed,
                    button,
                    time,
                    root,
                    event,
                    root_x,
                    root_y,
                    event_x,
                    event_y,
                    state,
                },
            );
            &&& record.len() == 32
            &&& record[0] == if pressed { 4u8 } else { 5u8 }
            &&& record[1] == button
            &&& u16_at(order, record, 20) == root_x as u16
            &&& u16_at(order, record, 22) == root_y as u16
            &&& u16_at(order, record, 24) == event_x as u16
            &&& u16_at(order, record, 26) == event_y as u16
            &&& u16_at(order, record, 28) == state
        }),
{
    let record = event_record(
        order,
        XClientEvent::PointerButton {
            sequence,
            pressed,
            button,
            time,
            root,
            event,
            root_x,
            root_y,
            event_x,
            event_y,
            state,
        },
    );
    lemma_input_event_lengths(order, sequence, time, root, event, root_x, root_y, event_x, event_y, state);
    assert(record.len() == 32);
    assert(record.subrange(20, 22) =~= u16_bytes(order, root_x as u16));
    assert(record.subrange(22, 24) =~= u16_bytes(order, root_y as u16));
    assert(record.subrange(24, 26) =~= u16_bytes(order, event_x as u16));
    assert(record.subrange(26, 28) =~= u16_bytes(order, event_y as u16));
    assert(record.subrange(28, 30) =~= u16_bytes(order, state));
    lemma_u16_at_written(order, record, 20, root_x as u16);
    lemma_u16_at_written(order, record, 22, root_y as u16);
    lemma_u16_at_written(order, record, 24, event_x as u16);
    lemma_u16_at_written(order, record, 26, event_y as u16);
    lemma_u16_at_written(order, record, 28, state);
}

/// A pointer motion event is a 32-byte `MotionNotify` (type 6) with the
/// root-relative position at bytes 20 and 22, the event-window position at
/// 24 and 26 and the state mask at 28.
pub proof fn law_pointer_motion_event_layout(
    order: XByteOrder,
    sequence: u16,
    time: XTimestamp,
    root: XResourceId,
    event: XResourceId,
    root_x: i16,
    root_y: i16,
    event_x: i16,
    event_y: i16,
    state: u16,
)
    ensures
        ({
            let record = event_record(
                order,
                XClientEvent::PointerMotion {
                    sequence,
                    time,
                    root,
                    event,
                    root_x,
                    root_y,
                    event_x,
                    event_y,
                    state,
                },
            );
            &&& record.len() == 32
            &&& record[0] == 6u8
            &&& u16_at(order, record, 20) == root_x as u16
            &&& u16_at(order, record, 22) == root_y as u16
            &&& u16_at(order, record, 24) == event_x as u16
            &&& u16_at(order, record, 26) == event_y as u16
            &&& u16_at(order, record, 28) == state
        }),
{
    let record = event_record(
        order,
        XClientEvent::PointerMotion { sequence, time, root, event, root_x, root_y, event_x, event_y, state },
    );
    lemma_input_event_lengths(order, sequence, time, root, event, root_x, root_y, event_x, event_y, state);
    assert(record.len() == 32);
    assert(record.subrange(20, 22) =~= u16_bytes(order, root_x as u16));
    assert(record.subrange(22, 24) =~= u16_bytes(order, root_y as u16));
    assert(record.subrange(24, 26) =~= u16_bytes(order, event_x as u16));
    assert(record.subrange(26, 28) =~= u16_bytes(order, event_y as u16));
    assert(record.subrange(28, 30) =~= u16_bytes(order, state));
    lemma_u16_at_written(order, record, 20, root_x as u16);
    lemma_u16_at_written(order, record, 22, root_y as u16);
    lemma_u16_at_written(order, record, 24, event_x as u16);
    lemma_u16_at_written(order, record, 26, event_y as u16);
    lemma_u16_at_written(order, record, 28, state);
}

/// A key event is a 32-byte `KeyPress` (type 2) when the key went down and
/// a `KeyRelease` (type 3) when it came up, with the keycode as its detail
/// byte and the state mask at byte 28.
pub proof fn law_key_event_layout(
    order: XByteOrder,
    sequence: u16,
    pressed: bool,
    keycode: u8,
    time: XTimestamp,
    root: XResourceId,
    event: XResourceId,
    state: u16,
)
    ensures
        ({
            let record = event_record(
                order,
                XClientEvent::Key { sequence, pressed, keycode, time, root, event, state },
            );
            &&& record.len() == 32
            &&& record[0] == if pressed { 2u8 } else { 3u8 }
            &&& record[1] == keycode
            &&& u16_at(order, record, 28) == state
        }),
{
    let record = event_record(
        order,
        XClientEvent::Key { sequence, pressed, keycode, time, root, event, state },
    );
    lemma_input_event_lengths(order, sequence, time, root, event, 0, 0, 0, 0, state);
    assert(record.len() == 32);
    assert(record.subrange(28, 30) =~= u16_bytes(order, state));
    lemma_u16_at_written(order, record, 28, state);
}

} // verus!
