//! The value conversions request dispatch relies on.
use vstd::prelude::*;

use crate::authority_ids::NamespaceId;
use crate::client_output::{XClientError, XErrorCode, XRandrModeInfo, XRandrMonitorInfo, raw_xid};
use crate::client_reply::{XClientOutput, XClientReply};
use crate::geometry::Rect;
use crate::property::{XAtom, XPropertyError, XPropertyReadReply};
use crate::resource::XResourceId;
use crate::wire::XByteOrder;

verus! {

/// Folds an Engine output identity into the 28 bits RandR ids are built
/// from; never zero.
pub open spec fn randr_identity(raw: u64) -> u32 {
    let folded = ((raw ^ (raw >> 32u64)) & 0x0fff_ffffu64) as u32;
    if folded >= 1 {
        folded
    } else {
        1
    }
}

pub fn stable_randr_identity(raw: u64) -> (identity: u32)
    ensures
        identity == randr_identity(raw),
        1 <= identity <= 0x0fff_ffff,
{
    let folded = raw ^ (raw >> 32u64);
    let masked = folded & 0x0fff_ffffu64;
    assert(masked <= 0x0fff_ffffu64) by (bit_vector)
        requires
            masked == folded & 0x0fff_ffffu64,
    ;
    let identity = masked as u32;
    if identity >= 1 {
        identity
    } else {
        1
    }
}

/// One FNV-1a round over a 32-bit word.
pub open spec fn fnv_step(hash: u32, value: u32) -> u32 {
    (hash ^ value).wrapping_mul(0x0100_0193u32)
}

/// The RandR mode id of a mode: a hash of its size and refresh rate, tagged
/// into the mode id range.
pub open spec fn randr_mode_id(width: i32, height: i32, refresh_millihz: u32) -> u32 {
    let hash = fnv_step(
        fnv_step(fnv_step(0x811c_9dc5u32, width as u32), height as u32),
        refresh_millihz,
    );
    let low = hash & 0x0fff_ffffu32;
    0x3000_0000u32 | (if low >= 1 {
        low
    } else {
        1
    })
}

pub fn stable_randr_mode_id(width: i32, height: i32, refresh_millihz: u32) -> (id: u32)
    ensures
        id == randr_mode_id(width, height, refresh_millihz),
{
    let mut hash: u32 = 0x811c_9dc5;
    hash = (hash ^ (#[verifier::truncate] (width as u32))).wrapping_mul(0x0100_0193);
    hash = (hash ^ (#[verifier::truncate] (height as u32))).wrapping_mul(0x0100_0193);
    hash = (hash ^ refresh_millihz).wrapping_mul(0x0100_0193);
    let low = hash & 0x0fff_ffff;
    0x3000_0000 | (if low >= 1 {
        low
    } else {
        1
    })
}

/// `n / d` rounded toward zero, as the machine divides.
pub open spec fn truncating_div(n: int, d: int) -> int {
    if n >= 0 {
        n / d
    } else {
        -((-n) / d)
    }
}

/// The physical size RandR reports for a logical length, at 96 dots per
/// inch, rounded to the nearest millimeter and never below one.
pub open spec fn pixels_to_millimeters(pixels: i32) -> u32 {
    let q = truncating_div(pixels * 254 + 480, 960);
    if q < 0 || q > u32::MAX {
        u32::MAX
    } else if q >= 1 {
        q as u32
    } else {
        1
    }
}

pub fn logical_pixels_to_millimeters(pixels: i32) -> (millimeters: u32)
    ensures
        millimeters == pixels_to_millimeters(pixels),
{
    let n: i64 = pixels as i64 * 254 + 480;
    if n >= 0 {
        let q: u64 = (n as u64) / 960;
        assert(q <= u32::MAX);
        let q = q as u32;
        if q >= 1 {
            q
        } else {
            1
        }
    } else {
        let m: u64 = ((-n) as u64) / 960;
        if m == 0 {
            1
        } else {
            u32::MAX
        }
    }
}

pub open spec fn clamp_to_i16(value: i32) -> i16 {
    if value < i16::MIN {
        i16::MIN
    } else if value > i16::MAX {
        i16::MAX
    } else {
        value as i16
    }
}

pub open spec fn clamp_to_u16(value: i32) -> u16 {
    if value < 0 {
        0
    } else if value > u16::MAX {
        u16::MAX
    } else {
        value as u16
    }
}

pub fn clamp_i16(value: i32) -> (clamped: i16)
    ensures
        clamped == clamp_to_i16(value),
{
    if value < i16::MIN as i32 {
        i16::MIN
    } else if value > i16::MAX as i32 {
        i16::MAX
    } else {
        value as i16
    }
}

pub fn clamp_u16(value: i32) -> (clamped: u16)
    ensures
        clamped == clamp_to_u16(value),
{
    if value < 0 {
        0
    } else if value > u16::MAX as i32 {
        u16::MAX
    } else {
        value as u16
    }
}

/// The TrueColor pixel of a 16-bit-per-channel color: the high byte of each
/// channel, red in bits 16..24, green in 8..16, blue in 0..8.
pub open spec fn true_color_pixel(red: u16, green: u16, blue: u16) -> u32 {
    (((red & 0xff00u16) as u32) << 8u32) | ((green & 0xff00u16) as u32) | ((blue as u32) >> 8u32)
}

pub fn true_color_pixel_from_rgb16(red: u16, green: u16, blue: u16) -> (pixel: u32)
    ensures
        pixel == true_color_pixel(red, green, blue),
{
    (((red & 0xff00) as u32) << 8u32) | ((green & 0xff00) as u32) | ((blue as u32) >> 8u32)
}

/// RENDER minor opcodes whose entry version differs from the first release.
pub const X_RENDER_QUERY_PICT_INDEX_VALUES_MINOR_OPCODE: u8 = 7;
pub const X_RENDER_CREATE_CURSOR_MINOR_OPCODE: u8 = 27;
pub const X_RENDER_SET_PICTURE_TRANSFORM_MINOR_OPCODE: u8 = 28;
pub const X_RENDER_QUERY_FILTERS_MINOR_OPCODE: u8 = 29;
pub const X_RENDER_SET_PICTURE_FILTER_MINOR_OPCODE: u8 = 30;
pub const X_RENDER_CREATE_ANIM_CURSOR_MINOR_OPCODE: u8 = 31;
pub const X_RENDER_ADD_TRAPS_MINOR_OPCODE: u8 = 32;
pub const X_RENDER_CREATE_SOLID_FILL_MINOR_OPCODE: u8 = 33;
pub const X_RENDER_CREATE_LINEAR_GRADIENT_MINOR_OPCODE: u8 = 34;
pub const X_RENDER_CREATE_RADIAL_GRADIENT_MINOR_OPCODE: u8 = 35;
pub const X_RENDER_CREATE_CONICAL_GRADIENT_MINOR_OPCODE: u8 = 36;

/// The highest minor opcode any RENDER version defines.
pub const X_RENDER_LAST_MINOR_OPCODE: u8 = 36;

/// The RENDER minor version at which each request entered the protocol.
pub open spec fn render_minor_gate(minor_opcode: u8) -> Option<u32> {
    if minor_opcode == 16 {
        None
    } else if minor_opcode == X_RENDER_QUERY_PICT_INDEX_VALUES_MINOR_OPCODE {
        Some(7u32)
    } else if minor_opcode == X_RENDER_CREATE_CURSOR_MINOR_OPCODE {
        Some(5u32)
    } else if minor_opcode == X_RENDER_SET_PICTURE_TRANSFORM_MINOR_OPCODE || minor_opcode
        == X_RENDER_QUERY_FILTERS_MINOR_OPCODE || minor_opcode
        == X_RENDER_SET_PICTURE_FILTER_MINOR_OPCODE {
        Some(6u32)
    } else if minor_opcode == X_RENDER_CREATE_ANIM_CURSOR_MINOR_OPCODE {
        Some(8u32)
    } else if minor_opcode == X_RENDER_ADD_TRAPS_MINOR_OPCODE {
        Some(9u32)
    } else if minor_opcode == X_RENDER_CREATE_SOLID_FILL_MINOR_OPCODE || minor_opcode
        == X_RENDER_CREATE_LINEAR_GRADIENT_MINOR_OPCODE || minor_opcode
        == X_RENDER_CREATE_RADIAL_GRADIENT_MINOR_OPCODE || minor_opcode
        == X_RENDER_CREATE_CONICAL_GRADIENT_MINOR_OPCODE {
        Some(10u32)
    } else if minor_opcode <= X_RENDER_LAST_MINOR_OPCODE {
        Some(0u32)
    } else {
        None
    }
}

/// The protocol version each RENDER minor entered at, as a minor-version
/// number, or `None` for a value no version of the protocol ever defined
/// (minor 16 was reserved for a Transform request that never entered it).
///
/// This splits the two refusal tiers: a minor gated at or below the
/// advertised version answers `BadImplementation`, one gated above it
/// answers `BadRequest`.
pub fn render_minor_version_gate(minor_opcode: u8) -> (gate: Option<u32>)
    ensures
        gate == render_minor_gate(minor_opcode),
{
    if minor_opcode == 16 {
        None
    } else if minor_opcode == X_RENDER_QUERY_PICT_INDEX_VALUES_MINOR_OPCODE {
        Some(7)
    } else if minor_opcode == X_RENDER_CREATE_CURSOR_MINOR_OPCODE {
        Some(5)
    } else if minor_opcode == X_RENDER_SET_PICTURE_TRANSFORM_MINOR_OPCODE || minor_opcode
        == X_RENDER_QUERY_FILTERS_MINOR_OPCODE || minor_opcode
        == X_RENDER_SET_PICTURE_FILTER_MINOR_OPCODE {
        Some(6)
    } else if minor_opcode == X_RENDER_CREATE_ANIM_CURSOR_MINOR_OPCODE {
        Some(8)
    } else if minor_opcode == X_RENDER_ADD_TRAPS_MINOR_OPCODE {
        Some(9)
    } else if minor_opcode == X_RENDER_CREATE_SOLID_FILL_MINOR_OPCODE || minor_opcode
        == X_RENDER_CREATE_LINEAR_GRADIENT_MINOR_OPCODE || minor_opcode
        == X_RENDER_CREATE_RADIAL_GRADIENT_MINOR_OPCODE || minor_opcode
        == X_RENDER_CREATE_CONICAL_GRADIENT_MINOR_OPCODE {
        Some(10)
    } else if minor_opcode <= X_RENDER_LAST_MINOR_OPCODE {
        Some(0)
    } else {
        None
    }
}

/// The error a refused property request is answered with.
pub open spec fn property_error_code(error: XPropertyError) -> XErrorCode {
    match error {
        XPropertyError::InvalidNamespace | XPropertyError::InvalidWindow => XErrorCode::BadWindow,
        XPropertyError::InvalidFormat(_)
        | XPropertyError::ValueTooLarge { .. }
        | XPropertyError::TableTooLarge { .. }
        | XPropertyError::TypeMismatch
        | XPropertyError::InvalidOffset => XErrorCode::BadValue,
    }
}

pub fn x_error_from_property_read(error: XPropertyError) -> (code: XErrorCode)
    ensures
        code == property_error_code(error),
{
    match error {
        XPropertyError::InvalidNamespace | XPropertyError::InvalidWindow => XErrorCode::BadWindow,
        XPropertyError::InvalidFormat(_)
        | XPropertyError::ValueTooLarge { .. }
        | XPropertyError::TableTooLarge { .. }
        | XPropertyError::TypeMismatch
        | XPropertyError::InvalidOffset => XErrorCode::BadValue,
    }
}


/// Who sent the request being answered, and where it sits in their stream.
#[derive(Clone, Debug, PartialEq, Eq)]
pub struct XDispatchContext {
    pub byte_order: XByteOrder,
    pub namespace: NamespaceId,
    pub sequence: u16,
    pub major_opcode: u8,
    pub client_id: u64,
}

/// The BadAccess answer to a grab of a window the client may not use.
pub fn grab_access_error(context: &XDispatchContext, window: XResourceId) -> (output: XClientOutput)
    ensures
        output == XClientOutput::Error(
            XClientError {
                code: XErrorCode::BadAccess,
                sequence: context.sequence,
                resource_id: raw_xid(window),
                minor_code: 0,
                major_code: context.major_opcode,
            },
        ),
{
    XClientOutput::Error(
        XClientError {
            code: XErrorCode::BadAccess,
            sequence: context.sequence,
            resource_id: crate::client_output::raw_xid_of(window),
            minor_code: 0,
            major_code: context.major_opcode,
        },
    )
}

/// The answer to GetProperty: the reply for a read, the error for a refusal.
pub fn x_client_output_from_property_read(
    context: &XDispatchContext,
    result: Result<XPropertyReadReply, XPropertyError>,
) -> (output: XClientOutput)
    ensures
        match result {
            Ok(reply) => output == XClientOutput::Reply(
                XClientReply::GetProperty {
                    sequence: context.sequence,
                    property_type: reply.property_type,
                    format: reply.format,
                    bytes_after: reply.bytes_after,
                    item_count: reply.item_count,
                    bytes: reply.bytes,
                },
            ),
            Err(error) => output == XClientOutput::Error(
                XClientError {
                    code: property_error_code(error),
                    sequence: context.sequence,
                    resource_id: 0,
                    minor_code: 0,
                    major_code: context.major_opcode,
                },
            ),
        },
{
    match result {
        Ok(reply) => XClientOutput::Reply(
            XClientReply::GetProperty {
                sequence: context.sequence,
                property_type: reply.property_type,
                format: reply.format,
                bytes_after: reply.bytes_after,
                item_count: reply.item_count,
                bytes: reply.bytes,
            },
        ),
        Err(error) => XClientOutput::Error(
            XClientError {
                code: x_error_from_property_read(error),
                sequence: context.sequence,
                resource_id: 0,
                minor_code: 0,
                major_code: context.major_opcode,
            },
        ),
    }
}

/// The largest shared-memory image the server copies out of a segment.
pub const X_SHM_MAX_IMAGE_BYTES: usize = 67108864;

/// The length of the shared-memory image to read for a Z-format 24- or
/// 32-bit image of `total_width` by `total_height` pixels, four bytes each,
/// where the source region lies inside it and the image is no larger than
/// `X_SHM_MAX_IMAGE_BYTES`; `None` otherwise.
pub open spec fn shm_image_len(
    total_width: u16,
    total_height: u16,
    src_x: u16,
    src_y: u16,
    src_width: u16,
    src_height: u16,
    depth: u8,
    format: u8,
) -> Option<int> {
    let len = 4 * total_width * total_height;
    if format != 2 || !(depth == 24 || depth == 32) {
        None
    } else if src_x + src_width > total_width || src_y + src_height > total_height {
        None
    } else if len > X_SHM_MAX_IMAGE_BYTES {
        None
    } else {
        Some(len)
    }
}

pub fn shm_image_source_len(
    total_width: u16,
    total_height: u16,
    src_x: u16,
    src_y: u16,
    src_width: u16,
    src_height: u16,
    depth: u8,
    format: u8,
) -> (len: Option<usize>)
    ensures
        match len {
            Some(n) => shm_image_len(
                total_width,
                total_height,
                src_x,
                src_y,
                src_width,
                src_height,
                depth,
                format,
            ) == Some(n as int),
            None => shm_image_len(
                total_width,
                total_height,
                src_x,
                src_y,
                src_width,
                src_height,
                depth,
                format,
            ) is None,
        },
{
    if format != 2 || !(depth == 24 || depth == 32) {
        return None;
    }
    if src_x as u32 + src_width as u32 > total_width as u32 || src_y as u32 + src_height as u32
        > total_height as u32 {
        return None;
    }
    let stride = 4 * (total_width as u64);
    assert(stride * (total_height as u64) <= 4 * 65535 * 65535) by (nonlinear_arith)
        requires
            stride <= 4 * 65535,
            total_height <= 65535,
    ;
    let len = stride * (total_height as u64);
    assert(len == 4 * total_width * total_height) by (nonlinear_arith)
        requires
            stride == 4 * total_width,
            len == stride * total_height,
    ;
    if len > X_SHM_MAX_IMAGE_BYTES as u64 {
        return None;
    }
    Some(len as usize)
}

/// The rows `src_y..src_y + rows` of a region `row_len` bytes wide that
/// starts `offset` bytes into each `stride`-byte row of `source`, one after
/// another.
pub open spec fn region_rows(
    source: Seq<u8>,
    stride: int,
    offset: int,
    row_len: int,
    src_y: int,
    rows: nat,
) -> Seq<u8>
    decreases rows,
{
    if rows == 0 {
        Seq::empty()
    } else {
        let row = src_y + rows - 1;
        region_rows(source, stride, offset, row_len, src_y, (rows - 1) as nat) + source.subrange(
            row * stride + offset,
            row * stride + offset + row_len,
        )
    }
}

/// The pixels of the region `src_x, src_y, src_width, src_height` of a
/// four-byte-per-pixel image `total_width` pixels wide held in `source`;
/// `None` where a row of the region lies past the end of `source`.
pub open spec fn image_region(
    source: Seq<u8>,
    total_width: u16,
    src_x: u16,
    src_y: u16,
    src_width: u16,
    src_height: u16,
) -> Option<Seq<u8>> {
    let stride = 4 * total_width;
    let offset = 4 * src_x;
    let row_len = 4 * src_width;
    if src_height > 0 && (src_y + src_height - 1) * stride + offset + row_len > source.len() {
        None
    } else {
        Some(region_rows(source, stride, offset, row_len, src_y as int, src_height as nat))
    }
}

/// Copies the region `src_x, src_y, src_width, src_height` out of an image
/// read from a shared-memory segment.
pub fn copy_image_region(
    source: &[u8],
    total_width: u16,
    src_x: u16,
    src_y: u16,
    src_width: u16,
    src_height: u16,
) -> (region: Option<Vec<u8>>)
    ensures
        match region {
            Some(bytes) => image_region(source@, total_width, src_x, src_y, src_width, src_height)
                == Some(bytes@),
            None => image_region(source@, total_width, src_x, src_y, src_width, src_height) is None,
        },
{
    let stride: u64 = 4 * (total_width as u64);
    let offset: u64 = 4 * (src_x as u64);
    let row_len: u64 = 4 * (src_width as u64);
    let end_row: u64 = src_y as u64 + src_height as u64;
    if src_height > 0 {
        let last = end_row - 1;
        assert(last * stride <= 131070 * 262140) by (nonlinear_arith)
            requires
                last <= 131070,
                stride <= 262140,
        ;
        if last * stride + offset + row_len > source.len() as u64 {
            return None;
        }
    }
    let source_len = source.len();
    let mut image: Vec<u8> = Vec::new();
    let mut row: u64 = src_y as u64;
    while row < end_row
        invariant
            src_y <= row <= end_row,
            source_len == source@.len(),
            end_row == src_y + src_height,
            stride == 4 * total_width,
            offset == 4 * src_x,
            row_len == 4 * src_width,
            src_height > 0 ==> (end_row - 1) * stride + offset + row_len <= source@.len(),
            image@ == region_rows(
                source@,
                stride as int,
                offset as int,
                row_len as int,
                src_y as int,
                (row - src_y) as nat,
            ),
        decreases end_row - row,
    {
        assert(row * stride <= (end_row - 1) * stride) by (nonlinear_arith)
            requires
                row <= end_row - 1,
                stride >= 0,
        ;
        assert((end_row - 1) * stride <= 131070 * 262140) by (nonlinear_arith)
            requires
                end_row - 1 <= 131070,
                stride <= 262140,
        ;
        let first: u64 = row * stride + offset;
        assert(first + row_len <= source_len);
        let start = first as usize;
        let stop = start + row_len as usize;
        let ghost before = image@;
        let mut i = start;
        while i < stop
            invariant
                start <= i <= stop <= source@.len(),
                image@ == before + source@.subrange(start as int, i as int),
            decreases stop - i,
        {
            image.push(source[i]);
            i = i + 1;
            assert(image@ =~= before + source@.subrange(start as int, i as int));
        }
        let ghost rows = (row + 1 - src_y) as nat;
        assert(src_y + rows - 1 == row);
        assert(region_rows(source@, stride as int, offset as int, row_len as int, src_y as int, rows)
            == region_rows(
            source@,
            stride as int,
            offset as int,
            row_len as int,
            src_y as int,
            (rows - 1) as nat,
        ) + source@.subrange(start as int, stop as int));
        row = row + 1;
    }
    Some(image)
}

/// The decimal digits of `n`.
pub open spec fn decimal(n: nat) -> Seq<u8>
    decreases n,
{
    if n < 10 {
        seq![(48 + n) as u8]
    } else {
        decimal(n / 10) + seq![(48 + n % 10) as u8]
    }
}

/// Appends the decimal digits of `n`.
pub fn push_decimal(out: &mut Vec<u8>, n: u64)
    ensures
        final(out)@ == old(out)@ + decimal(n as nat),
    decreases n,
{
    if n >= 10 {
        push_decimal(out, n / 10);
    }
    out.push((48 + n % 10) as u8);
    assert(out@ =~= old(out)@ + decimal(n as nat));
}

/// One output of the compositor's output layout: its opaque identity, the
/// rectangle it covers in logical pixels, and its refresh rate.
#[derive(Clone, Copy, Debug, PartialEq, Eq)]
pub struct OutputTopologyEntry {
    pub output: u64,
    pub logical: Rect,
    pub refresh_millihz: u32,
}

/// The compositor's output layout as the RandR replies describe it.
#[derive(Clone, Debug, PartialEq, Eq)]
pub struct OutputTopologySnapshot {
    pub generation: u64,
    pub primary: u64,
    pub outputs: Vec<OutputTopologyEntry>,
}

/// Whether every output's size fits the 16-bit fields RandR modes carry.
pub open spec fn topology_sizes_fit(outputs: Seq<OutputTopologyEntry>) -> bool {
    forall|i: int|
        0 <= i < outputs.len() ==> 0 <= #[trigger] outputs[i].logical.width <= u16::MAX && 0
            <= outputs[i].logical.height <= u16::MAX
}

/// The CRTCs, outputs and modes RandR reports for a topology.
#[derive(Clone, Debug, PartialEq, Eq)]
pub struct XRandrResources {
    pub timestamp: u32,
    pub crtcs: Vec<u32>,
    pub outputs: Vec<u32>,
    pub modes: Vec<XRandrModeInfo>,
}

/// The RandR timestamp of a topology generation: never zero, saturated to 32
/// bits.
pub open spec fn randr_timestamp(generation: u64) -> u32 {
    if generation == 0 {
        1
    } else if generation > u32::MAX {
        u32::MAX
    } else {
        generation as u32
    }
}

/// The name of a mode: `WIDTHxHEIGHT@HZ`, the rate in whole hertz.
pub open spec fn mode_name(width: i32, height: i32, refresh_millihz: u32) -> Seq<u8> {
    decimal(width as nat) + seq![120u8] + decimal(height as nat) + seq![64u8] + decimal(
        (refresh_millihz / 1000) as nat,
    )
}

/// Whether `mode` is the RandR mode of `entry`.
pub open spec fn is_output_mode(mode: XRandrModeInfo, entry: OutputTopologyEntry) -> bool {
    &&& mode.id == randr_mode_id(entry.logical.width, entry.logical.height, entry.refresh_millihz)
    &&& mode.width == entry.logical.width as u16
    &&& mode.height == entry.logical.height as u16
    &&& mode.refresh_millihz == entry.refresh_millihz
    &&& mode.name@ == mode_name(entry.logical.width, entry.logical.height, entry.refresh_millihz)
}

/// The CRTC RandR reports for an output.
pub open spec fn crtc_id(output: u64) -> u32 {
    0x1000_0000u32 | randr_identity(output)
}

/// The RandR output id of an output.
pub open spec fn output_id(output: u64) -> u32 {
    0x2000_0000u32 | randr_identity(output)
}

/// The RandR screen resources of a topology: one CRTC, output and mode per
/// output, in the topology's order.
pub fn randr_resources(snapshot: &OutputTopologySnapshot) -> (resources: XRandrResources)
    requires
        topology_sizes_fit(snapshot.outputs@),
    ensures
        resources.timestamp == randr_timestamp(snapshot.generation),
        resources.crtcs@.len() == snapshot.outputs@.len(),
        resources.outputs@.len() == snapshot.outputs@.len(),
        resources.modes@.len() == snapshot.outputs@.len(),
        forall|i: int|
            0 <= i < snapshot.outputs@.len() ==> #[trigger] resources.crtcs@[i] == crtc_id(
                snapshot.outputs@[i].output,
            ),
        forall|i: int|
            0 <= i < snapshot.outputs@.len() ==> #[trigger] resources.outputs@[i] == output_id(
                snapshot.outputs@[i].output,
            ),
        forall|i: int|
            0 <= i < snapshot.outputs@.len() ==> is_output_mode(
                #[trigger] resources.modes@[i],
                snapshot.outputs@[i],
            ),
{
    let timestamp: u32 = if snapshot.generation == 0 {
        1
    } else if snapshot.generation > 0xffff_ffffu64 {
        u32::MAX
    } else {
        snapshot.generation as u32
    };
    let mut crtcs: Vec<u32> = Vec::new();
    let mut outputs: Vec<u32> = Vec::new();
    let mut modes: Vec<XRandrModeInfo> = Vec::new();
    let mut i: usize = 0;
    while i < snapshot.outputs.len()
        invariant
            i <= snapshot.outputs@.len(),
            topology_sizes_fit(snapshot.outputs@),
            crtcs@.len() == i,
            outputs@.len() == i,
            modes@.len() == i,
            forall|j: int| 0 <= j < i ==> #[trigger] crtcs@[j] == crtc_id(snapshot.outputs@[j].output),
            forall|j: int|
                0 <= j < i ==> #[trigger] outputs@[j] == output_id(snapshot.outputs@[j].output),
            forall|j: int| 0 <= j < i ==> is_output_mode(#[trigger] modes@[j], snapshot.outputs@[j]),
        decreases snapshot.outputs@.len() - i,
    {
        let entry = snapshot.outputs[i];
        assert(0 <= entry.logical.width <= u16::MAX && 0 <= entry.logical.height <= u16::MAX) by {
            assert(entry == snapshot.outputs@[i as int]);
        }
        let identity = stable_randr_identity(entry.output);
        crtcs.push(0x1000_0000u32 | identity);
        outputs.push(0x2000_0000u32 | identity);
        let mut name: Vec<u8> = Vec::new();
        push_decimal(&mut name, entry.logical.width as u64);
        name.push(120);
        push_decimal(&mut name, entry.logical.height as u64);
        name.push(64);
        push_decimal(&mut name, (entry.refresh_millihz / 1000) as u64);
        assert(name@ =~= mode_name(
            entry.logical.width,
            entry.logical.height,
            entry.refresh_millihz,
        ));
        let ghost entry_view = snapshot.outputs@[i as int];
        assert(entry == entry_view);
        modes.push(
            XRandrModeInfo {
                id: stable_randr_mode_id(
                    entry.logical.width,
                    entry.logical.height,
                    entry.refresh_millihz,
                ),
                width: entry.logical.width as u16,
                height: entry.logical.height as u16,
                refresh_millihz: entry.refresh_millihz,
                name,
            },
        );
        assert(is_output_mode(modes@[i as int], entry_view));
        assert(crtcs@[i as int] == crtc_id(entry_view.output));
        assert(outputs@[i as int] == output_id(entry_view.output));
        i = i + 1;
    }
    XRandrResources { timestamp, crtcs, outputs, modes }
}

/// `value` as an `i16`, or `i16::MAX` where it does not fit.
pub open spec fn i16_or_max(value: i32) -> i16 {
    if i16::MIN <= value <= i16::MAX {
        value as i16
    } else {
        i16::MAX
    }
}

/// `value` as a `u16`, or `u16::MAX` where it does not fit.
pub open spec fn u16_or_max(value: i32) -> u16 {
    if 0 <= value <= u16::MAX {
        value as u16
    } else {
        u16::MAX
    }
}

/// Whether `monitor` is the RandR monitor of `entry`, named `name`.
pub open spec fn is_output_monitor(
    monitor: XRandrMonitorInfo,
    entry: OutputTopologyEntry,
    primary: u64,
    name: XAtom,
) -> bool {
    &&& monitor.name == name
    &&& monitor.primary == (entry.output == primary)
    &&& monitor.x == i16_or_max(entry.logical.x)
    &&& monitor.y == i16_or_max(entry.logical.y)
    &&& monitor.width == u16_or_max(entry.logical.width)
    &&& monitor.height == u16_or_max(entry.logical.height)
    &&& monitor.mm_width == pixels_to_millimeters(entry.logical.width)
    &&& monitor.mm_height == pixels_to_millimeters(entry.logical.height)
    &&& monitor.outputs@ == seq![output_id(entry.output)]
}

/// The RandR monitors of a topology, one per output, each named by the atom
/// interned for it in `names`.
pub fn randr_monitors(snapshot: &OutputTopologySnapshot, names: &[XAtom]) -> (monitors: Vec<
    XRandrMonitorInfo,
>)
    requires
        names@.len() == snapshot.outputs@.len(),
    ensures
        monitors@.len() == snapshot.outputs@.len(),
        forall|i: int|
            0 <= i < snapshot.outputs@.len() ==> is_output_monitor(
                #[trigger] monitors@[i],
                snapshot.outputs@[i],
                snapshot.primary,
                names@[i],
            ),
{
    let mut monitors: Vec<XRandrMonitorInfo> = Vec::new();
    let mut i: usize = 0;
    while i < snapshot.outputs.len()
        invariant
            i <= snapshot.outputs@.len(),
            names@.len() == snapshot.outputs@.len(),
            monitors@.len() == i,
            forall|j: int|
                0 <= j < i ==> is_output_monitor(
                    #[trigger] monitors@[j],
                    snapshot.outputs@[j],
                    snapshot.primary,
                    names@[j],
                ),
        decreases snapshot.outputs@.len() - i,
    {
        let entry = snapshot.outputs[i];
        let logical = entry.logical;
        let x: i16 = if -32768 <= logical.x && logical.x <= 32767 {
            logical.x as i16
        } else {
            i16::MAX
        };
        let y: i16 = if -32768 <= logical.y && logical.y <= 32767 {
            logical.y as i16
        } else {
            i16::MAX
        };
        let width: u16 = if 0 <= logical.width && logical.width <= 65535 {
            logical.width as u16
        } else {
            u16::MAX
        };
        let height: u16 = if 0 <= logical.height && logical.height <= 65535 {
            logical.height as u16
        } else {
            u16::MAX
        };
        let mut outputs: Vec<u32> = Vec::new();
        outputs.push(0x2000_0000u32 | stable_randr_identity(entry.output));
        monitors.push(
            XRandrMonitorInfo {
                name: names[i],
                primary: entry.output == snapshot.primary,
                x,
                y,
                width,
                height,
                mm_width: logical_pixels_to_millimeters(logical.width),
                mm_height: logical_pixels_to_millimeters(logical.height),
                outputs,
            },
        );
        i = i + 1;
    }
    monitors
}

} // verus!
