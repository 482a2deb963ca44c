//! The wire records of the replies: the bytes of each reply shape, and the
//! encoders that write them.
use vstd::prelude::*;

use crate::client_output::{
    XClientError, XClientEvent, XRandrModeInfo, XRandrMonitorInfo, XXiDeviceClass, XXiDeviceInfo,
    encode_font_info_reply, encode_x_client_error, encode_x_client_event, error_record,
    event_record, font_info_reply, optional_raw_xid, optional_raw_xid_of, push_byte, push_zeros,
    raw_xid, raw_xid_of, zero_bytes,
};
use crate::extensions::{
    X_INPUT_GET_EXTENSION_VERSION_MINOR_OPCODE, X_INPUT_GET_FOCUS_MINOR_OPCODE,
    X_INPUT_GET_PROPERTY_MINOR_OPCODE, X_INPUT_QUERY_DEVICE_MINOR_OPCODE,
    X_INPUT_QUERY_VERSION_MINOR_OPCODE,
};
use crate::geometry::Rect;
use crate::reply_bytes::{
    fit_i16, fit_i16_of, fit_u16, fit_u16_of, fit_u32, fit_u32_of, fit_u8, fit_u8_of, pad_bytes,
    lemma_pad_to_four_len, lemma_pair_seq_bytes_len, lemma_u32_seq_bytes_len, pad_to_four,
    padded_units, pair_seq_bytes, push_padding, push_pair_seq, push_reply_head,
    push_slice, push_u32_seq, push_u64_seq, push_xid_seq, reply_head, u32_seq_bytes,
    u64_seq_bytes, xid_seq_bytes,
};
use vstd::utf8::encode_utf8;
use crate::resource::XResourceId;
use crate::wire::{
    XByteOrder, push_i64, push_u16, push_u32, spec_padded_len, u16_bytes, u32_bytes, u64_bytes,
};

verus! {

pub open spec fn flag(b: bool) -> u8 {
    if b {
        1
    } else {
        0
    }
}

/// A 32-byte reply that carries nothing past its header.
pub open spec fn empty_record(order: XByteOrder, sequence: u16, detail: u8) -> Seq<u8> {
    reply_head(order, detail, sequence, 0) + zero_bytes(24)
}

/// A 32-byte reply that carries one 32-bit word.
pub open spec fn word_record(order: XByteOrder, sequence: u16, detail: u8, word: u32) -> Seq<u8> {
    reply_head(order, detail, sequence, 0) + u32_bytes(order, word) + zero_bytes(20)
}

/// A 32-byte reply that carries two 16-bit values.
pub open spec fn short_pair_record(
    order: XByteOrder,
    sequence: u16,
    detail: u8,
    first: u16,
    second: u16,
) -> Seq<u8> {
    reply_head(order, detail, sequence, 0) + u16_bytes(order, first) + u16_bytes(order, second)
        + zero_bytes(20)
}

/// A 32-byte reply that carries two 32-bit words.
pub open spec fn word_pair_record(
    order: XByteOrder,
    sequence: u16,
    detail: u8,
    first: u32,
    second: u32,
) -> Seq<u8> {
    reply_head(order, detail, sequence, 0) + u32_bytes(order, first) + u32_bytes(order, second)
        + zero_bytes(16)
}

pub open spec fn get_geometry_record(
    order: XByteOrder,
    sequence: u16,
    depth: u8,
    root: XResourceId,
    geometry: Rect,
    border_width: u16,
) -> Seq<u8> {
    reply_head(order, depth, sequence, 0) + u32_bytes(order, raw_xid(root)) + u16_bytes(
        order,
        fit_i16(geometry.x as int) as u16,
    ) + u16_bytes(order, fit_i16(geometry.y as int) as u16) + u16_bytes(
        order,
        fit_u16(geometry.width as int, 0),
    ) + u16_bytes(order, fit_u16(geometry.height as int, 0)) + u16_bytes(order, border_width)
        + zero_bytes(10)
}

pub open spec fn get_window_attributes_record(
    order: XByteOrder,
    sequence: u16,
    visual: u32,
    colormap: XResourceId,
    map_state: u8,
    override_redirect: bool,
) -> Seq<u8> {
    reply_head(order, 0, sequence, 3) + u32_bytes(order, visual) + u16_bytes(order, 1) + seq![
        0u8,
        1u8,
    ] + u32_bytes(order, 0) + u32_bytes(order, 0) + seq![
        0u8,
        1u8,
        map_state,
        flag(override_redirect),
    ] + u32_bytes(order, raw_xid(colormap)) + zero_bytes(12)
}

pub open spec fn query_extension_record(
    order: XByteOrder,
    sequence: u16,
    present: bool,
    major_opcode: u8,
    first_event: u8,
    first_error: u8,
) -> Seq<u8> {
    reply_head(order, 0, sequence, 0) + seq![flag(present), major_opcode, first_event, first_error]
        + zero_bytes(20)
}

pub open spec fn shm_query_version_record(
    order: XByteOrder,
    sequence: u16,
    major_version: u16,
    minor_version: u16,
    shared_pixmaps: bool,
    pixmap_format: u8,
) -> Seq<u8> {
    reply_head(order, flag(shared_pixmaps), sequence, 0) + u16_bytes(order, major_version)
        + u16_bytes(order, minor_version) + zero_bytes(4) + seq![pixmap_format] + zero_bytes(15)
}

pub open spec fn screen_size_range_record(
    order: XByteOrder,
    sequence: u16,
    min_width: u16,
    min_height: u16,
    max_width: u16,
    max_height: u16,
) -> Seq<u8> {
    reply_head(order, 0, sequence, 0) + u16_bytes(order, min_width) + u16_bytes(order, min_height)
        + u16_bytes(order, max_width) + u16_bytes(order, max_height) + zero_bytes(16)
}

pub open spec fn crtc_gamma_size_record(order: XByteOrder, sequence: u16, size: u16) -> Seq<u8> {
    reply_head(order, 0, sequence, 0) + u16_bytes(order, size) + zero_bytes(22)
}

pub open spec fn glx_is_direct_record(order: XByteOrder, sequence: u16, direct: bool) -> Seq<u8> {
    reply_head(order, 0, sequence, 0) + seq![flag(direct)] + zero_bytes(23)
}

pub open spec fn sync_initialize_record(
    order: XByteOrder,
    sequence: u16,
    major_version: u8,
    minor_version: u8,
) -> Seq<u8> {
    reply_head(order, 0, sequence, 0) + seq![major_version, minor_version] + zero_bytes(22)
}

pub open spec fn xkb_get_state_record(order: XByteOrder, sequence: u16, modifiers: u8) -> Seq<u8> {
    reply_head(order, 3, sequence, 0) + seq![modifiers, modifiers] + zero_bytes(8) + seq![
        modifiers,
        0u8,
        modifiers,
    ] + zero_bytes(11)
}

pub open spec fn xkb_get_controls_record(order: XByteOrder, sequence: u16) -> Seq<u8> {
    reply_head(order, 3, sequence, 15) + seq![0u8, 1u8] + zero_bytes(10) + u16_bytes(order, 660)
        + u16_bytes(order, 40) + zero_bytes(68)
}

pub open spec fn xkb_get_device_info_record(
    order: XByteOrder,
    sequence: u16,
    device_id: u8,
    supported: u16,
    unsupported: u16,
) -> Seq<u8> {
    reply_head(order, device_id, sequence, 1) + zero_bytes(2) + u16_bytes(order, supported)
        + u16_bytes(order, unsupported) + zero_bytes(7) + seq![1u8] + zero_bytes(14)
}

pub open spec fn xi_get_client_pointer_record(order: XByteOrder, sequence: u16, device_id: u16) -> Seq<
    u8,
> {
    reply_head(order, 0, sequence, 0) + seq![1u8, 0u8] + u16_bytes(order, device_id) + zero_bytes(
        20,
    )
}

pub open spec fn xi_get_extension_version_record(
    order: XByteOrder,
    sequence: u16,
    server_major: u16,
    server_minor: u16,
) -> Seq<u8> {
    reply_head(order, X_INPUT_GET_EXTENSION_VERSION_MINOR_OPCODE, sequence, 0) + u16_bytes(
        order,
        server_major,
    ) + u16_bytes(order, server_minor) + seq![1u8] + zero_bytes(19)
}

pub open spec fn xi_query_pointer_record(
    order: XByteOrder,
    sequence: u16,
    root: XResourceId,
    child: XResourceId,
) -> Seq<u8> {
    reply_head(order, 0, sequence, 6) + u32_bytes(order, raw_xid(root)) + u32_bytes(
        order,
        raw_xid(child),
    ) + zero_bytes(16) + seq![1u8] + zero_bytes(23)
}

pub open spec fn query_pointer_record(
    order: XByteOrder,
    sequence: u16,
    root: XResourceId,
    child: XResourceId,
    root_x: i16,
    root_y: i16,
    win_x: i16,
    win_y: i16,
    mask: u16,
) -> Seq<u8> {
    reply_head(order, 1, sequence, 0) + u32_bytes(order, raw_xid(root)) + u32_bytes(
        order,
        raw_xid(child),
    ) + u16_bytes(order, root_x as u16) + u16_bytes(order, root_y as u16) + u16_bytes(
        order,
        win_x as u16,
    ) + u16_bytes(order, win_y as u16) + u16_bytes(order, mask) + zero_bytes(6)
}

pub open spec fn get_keyboard_control_record(order: XByteOrder, sequence: u16) -> Seq<u8> {
    reply_head(order, 1, sequence, 5) + zero_bytes(5) + seq![50u8] + u16_bytes(order, 400)
        + u16_bytes(order, 100) + zero_bytes(2) + Seq::new(32, |i: int| 0xffu8)
}

pub open spec fn translate_coordinates_record(
    order: XByteOrder,
    sequence: u16,
    same_screen: bool,
    child: Option<XResourceId>,
    dst_x: i16,
    dst_y: i16,
) -> Seq<u8> {
    reply_head(order, flag(same_screen), sequence, 0) + u32_bytes(order, optional_raw_xid(child))
        + u16_bytes(order, dst_x as u16) + u16_bytes(order, dst_y as u16) + zero_bytes(16)
}

pub open spec fn alloc_named_color_record(
    order: XByteOrder,
    sequence: u16,
    pixel: u32,
    red: u16,
    green: u16,
    blue: u16,
) -> Seq<u8> {
    reply_head(order, 0, sequence, 0) + u32_bytes(order, pixel) + u16_bytes(order, red)
        + u16_bytes(order, green) + u16_bytes(order, blue) + u16_bytes(order, red) + u16_bytes(
        order,
        green,
    ) + u16_bytes(order, blue) + zero_bytes(8)
}

pub open spec fn alloc_color_record(
    order: XByteOrder,
    sequence: u16,
    pixel: u32,
    red: u16,
    green: u16,
    blue: u16,
) -> Seq<u8> {
    reply_head(order, 0, sequence, 0) + u16_bytes(order, red) + u16_bytes(order, green)
        + u16_bytes(order, blue) + zero_bytes(2) + u32_bytes(order, pixel) + zero_bytes(12)
}

pub(crate) fn encode_empty(order: XByteOrder, sequence: u16, detail: u8) -> (out: Vec<u8>)
    ensures
        out@ == empty_record(order, sequence, detail),
{
    let mut out: Vec<u8> = Vec::new();
    push_reply_head(order, &mut out, detail, sequence, 0);
    push_zeros(&mut out, 24);
    out
}

pub(crate) fn encode_word(order: XByteOrder, sequence: u16, detail: u8, word: u32) -> (out: Vec<u8>)
    ensures
        out@ == word_record(order, sequence, detail, word),
{
    let mut out: Vec<u8> = Vec::new();
    push_reply_head(order, &mut out, detail, sequence, 0);
    push_u32(order, &mut out, word);
    push_zeros(&mut out, 20);
    out
}

pub(crate) fn encode_short_pair(order: XByteOrder, sequence: u16, detail: u8, first: u16, second: u16) -> (out:
    Vec<u8>)
    ensures
        out@ == short_pair_record(order, sequence, detail, first, second),
{
    let mut out: Vec<u8> = Vec::new();
    push_reply_head(order, &mut out, detail, sequence, 0);
    push_u16(order, &mut out, first);
    push_u16(order, &mut out, second);
    push_zeros(&mut out, 20);
    out
}

pub(crate) fn encode_word_pair(order: XByteOrder, sequence: u16, detail: u8, first: u32, second: u32) -> (out:
    Vec<u8>)
    ensures
        out@ == word_pair_record(order, sequence, detail, first, second),
{
    let mut out: Vec<u8> = Vec::new();
    push_reply_head(order, &mut out, detail, sequence, 0);
    push_u32(order, &mut out, first);
    push_u32(order, &mut out, second);
    push_zeros(&mut out, 16);
    out
}

pub(crate) fn encode_get_geometry(
    order: XByteOrder,
    sequence: u16,
    depth: u8,
    root: XResourceId,
    geometry: Rect,
    border_width: u16,
) -> (out: Vec<u8>)
    ensures
        out@ == get_geometry_record(order, sequence, depth, root, geometry, border_width),
{
    let mut out: Vec<u8> = Vec::new();
    push_reply_head(order, &mut out, depth, sequence, 0);
    push_u32(order, &mut out, raw_xid_of(root));
    push_u16(order, &mut out, fit_i16_of(geometry.x) as u16);
    push_u16(order, &mut out, fit_i16_of(geometry.y) as u16);
    push_u16(order, &mut out, fit_u16_of_i32(geometry.width));
    push_u16(order, &mut out, fit_u16_of_i32(geometry.height));
    push_u16(order, &mut out, border_width);
    push_zeros(&mut out, 10);
    out
}

fn fit_u16_of_i32(n: i32) -> (v: u16)
    ensures
        v == fit_u16(n as int, 0),
{
    if 0 <= n && n <= 65535 {
        n as u16
    } else {
        0
    }
}

pub(crate) fn encode_get_window_attributes(
    order: XByteOrder,
    sequence: u16,
    visual: u32,
    colormap: XResourceId,
    map_state: u8,
    override_redirect: bool,
) -> (out: Vec<u8>)
    ensures
        out@ == get_window_attributes_record(
            order,
            sequence,
            visual,
            colormap,
            map_state,
            override_redirect,
        ),
{
    let mut out: Vec<u8> = Vec::new();
    push_reply_head(order, &mut out, 0, sequence, 3);
    push_u32(order, &mut out, visual);
    push_u16(order, &mut out, 1);
    push_byte(&mut out, 0);
    push_byte(&mut out, 1);
    push_u32(order, &mut out, 0);
    push_u32(order, &mut out, 0);
    push_byte(&mut out, 0);
    push_byte(&mut out, 1);
    push_byte(&mut out, map_state);
    push_byte(&mut out, if override_redirect { 1 } else { 0 });
    push_u32(order, &mut out, raw_xid_of(colormap));
    push_zeros(&mut out, 12);
    out
}

pub(crate) fn encode_query_extension(
    order: XByteOrder,
    sequence: u16,
    present: bool,
    major_opcode: u8,
    first_event: u8,
    first_error: u8,
) -> (out: Vec<u8>)
    ensures
        out@ == query_extension_record(
            order,
            sequence,
            present,
            major_opcode,
            first_event,
            first_error,
        ),
{
    let mut out: Vec<u8> = Vec::new();
    push_reply_head(order, &mut out, 0, sequence, 0);
    push_byte(&mut out, if present { 1 } else { 0 });
    push_byte(&mut out, major_opcode);
    push_byte(&mut out, first_event);
    push_byte(&mut out, first_error);
    push_zeros(&mut out, 20);
    out
}

pub(crate) fn encode_shm_query_version(
    order: XByteOrder,
    sequence: u16,
    major_version: u16,
    minor_version: u16,
    shared_pixmaps: bool,
    pixmap_format: u8,
) -> (out: Vec<u8>)
    ensures
        out@ == shm_query_version_record(
            order,
            sequence,
            major_version,
            minor_version,
            shared_pixmaps,
            pixmap_format,
        ),
{
    let mut out: Vec<u8> = Vec::new();
    push_reply_head(order, &mut out, if shared_pixmaps { 1 } else { 0 }, sequence, 0);
    push_u16(order, &mut out, major_version);
    push_u16(order, &mut out, minor_version);
    push_zeros(&mut out, 4);
    push_byte(&mut out, pixmap_format);
    push_zeros(&mut out, 15);
    out
}

pub(crate) fn encode_screen_size_range(
    order: XByteOrder,
    sequence: u16,
    min_width: u16,
    min_height: u16,
    max_width: u16,
    max_height: u16,
) -> (out: Vec<u8>)
    ensures
        out@ == screen_size_range_record(
            order,
            sequence,
            min_width,
            min_height,
            max_width,
            max_height,
        ),
{
    let mut out: Vec<u8> = Vec::new();
    push_reply_head(order, &mut out, 0, sequence, 0);
    push_u16(order, &mut out, min_width);
    push_u16(order, &mut out, min_height);
    push_u16(order, &mut out, max_width);
    push_u16(order, &mut out, max_height);
    push_zeros(&mut out, 16);
    out
}

pub(crate) fn encode_crtc_gamma_size(order: XByteOrder, sequence: u16, size: u16) -> (out: Vec<u8>)
    ensures
        out@ == crtc_gamma_size_record(order, sequence, size),
{
    let mut out: Vec<u8> = Vec::new();
    push_reply_head(order, &mut out, 0, sequence, 0);
    push_u16(order, &mut out, size);
    push_zeros(&mut out, 22);
    out
}

pub(crate) fn encode_glx_is_direct(order: XByteOrder, sequence: u16, direct: bool) -> (out: Vec<u8>)
    ensures
        out@ == glx_is_direct_record(order, sequence, direct),
{
    let mut out: Vec<u8> = Vec::new();
    push_reply_head(order, &mut out, 0, sequence, 0);
    push_byte(&mut out, if direct { 1 } else { 0 });
    push_zeros(&mut out, 23);
    out
}

pub(crate) fn encode_sync_initialize(order: XByteOrder, sequence: u16, major_version: u8, minor_version: u8) -> (out:
    Vec<u8>)
    ensures
        out@ == sync_initialize_record(order, sequence, major_version, minor_version),
{
    let mut out: Vec<u8> = Vec::new();
    push_reply_head(order, &mut out, 0, sequence, 0);
    push_byte(&mut out, major_version);
    push_byte(&mut out, minor_version);
    push_zeros(&mut out, 22);
    out
}

pub(crate) fn encode_xkb_get_state(order: XByteOrder, sequence: u16, modifiers: u8) -> (out: Vec<u8>)
    ensures
        out@ == xkb_get_state_record(order, sequence, modifiers),
{
    let mut out: Vec<u8> = Vec::new();
    push_reply_head(order, &mut out, 3, sequence, 0);
    push_byte(&mut out, modifiers);
    push_byte(&mut out, modifiers);
    push_zeros(&mut out, 8);
    push_byte(&mut out, modifiers);
    push_byte(&mut out, 0);
    push_byte(&mut out, modifiers);
    push_zeros(&mut out, 11);
    out
}

pub(crate) fn encode_xkb_get_controls(order: XByteOrder, sequence: u16) -> (out: Vec<u8>)
    ensures
        out@ == xkb_get_controls_record(order, sequence),
{
    let mut out: Vec<u8> = Vec::new();
    push_reply_head(order, &mut out, 3, sequence, 15);
    push_byte(&mut out, 0);
    push_byte(&mut out, 1);
    push_zeros(&mut out, 10);
    push_u16(order, &mut out, 660);
    push_u16(order, &mut out, 40);
    push_zeros(&mut out, 68);
    out
}

pub(crate) fn encode_xkb_get_device_info(
    order: XByteOrder,
    sequence: u16,
    device_id: u8,
    supported: u16,
    unsupported: u16,
) -> (out: Vec<u8>)
    ensures
        out@ == xkb_get_device_info_record(order, sequence, device_id, supported, unsupported),
{
    let mut out: Vec<u8> = Vec::new();
    push_reply_head(order, &mut out, device_id, sequence, 1);
    push_zeros(&mut out, 2);
    push_u16(order, &mut out, supported);
    push_u16(order, &mut out, unsupported);
    push_zeros(&mut out, 7);
    push_byte(&mut out, 1);
    push_zeros(&mut out, 14);
    out
}

pub(crate) fn encode_xi_get_client_pointer(order: XByteOrder, sequence: u16, device_id: u16) -> (out: Vec<u8>)
    ensures
        out@ == xi_get_client_pointer_record(order, sequence, device_id),
{
    let mut out: Vec<u8> = Vec::new();
    push_reply_head(order, &mut out, 0, sequence, 0);
    push_byte(&mut out, 1);
    push_byte(&mut out, 0);
    push_u16(order, &mut out, device_id);
    push_zeros(&mut out, 20);
    out
}

pub(crate) fn encode_xi_get_extension_version(
    order: XByteOrder,
    sequence: u16,
    server_major: u16,
    server_minor: u16,
) -> (out: Vec<u8>)
    ensures
        out@ == xi_get_extension_version_record(order, sequence, server_major, server_minor),
{
    let mut out: Vec<u8> = Vec::new();
    push_reply_head(order, &mut out, X_INPUT_GET_EXTENSION_VERSION_MINOR_OPCODE, sequence, 0);
    push_u16(order, &mut out, server_major);
    push_u16(order, &mut out, server_minor);
    push_byte(&mut out, 1);
    push_zeros(&mut out, 19);
    out
}

pub(crate) fn encode_xi_query_pointer(order: XByteOrder, sequence: u16, root: XResourceId, child: XResourceId) -> (out:
    Vec<u8>)
    ensures
        out@ == xi_query_pointer_record(order, sequence, root, child),
{
    let mut out: Vec<u8> = Vec::new();
    push_reply_head(order, &mut out, 0, sequence, 6);
    push_u32(order, &mut out, raw_xid_of(root));
    push_u32(order, &mut out, raw_xid_of(child));
    push_zeros(&mut out, 16);
    push_byte(&mut out, 1);
    push_zeros(&mut out, 23);
    out
}

pub(crate) fn encode_query_pointer(
    order: XByteOrder,
    sequence: u16,
    root: XResourceId,
    child: XResourceId,
    root_x: i16,
    root_y: i16,
    win_x: i16,
    win_y: i16,
    mask: u16,
) -> (out: Vec<u8>)
    ensures
        out@ == query_pointer_record(
            order,
            sequence,
            root,
            child,
            root_x,
            root_y,
            win_x,
            win_y,
            mask,
        ),
{
    let mut out: Vec<u8> = Vec::new();
    push_reply_head(order, &mut out, 1, sequence, 0);
    push_u32(order, &mut out, raw_xid_of(root));
    push_u32(order, &mut out, raw_xid_of(child));
    push_u16(order, &mut out, root_x as u16);
    push_u16(order, &mut out, root_y as u16);
    push_u16(order, &mut out, win_x as u16);
    push_u16(order, &mut out, win_y as u16);
    push_u16(order, &mut out, mask);
    push_zeros(&mut out, 6);
    out
}

pub(crate) fn encode_get_keyboard_control(order: XByteOrder, sequence: u16) -> (out: Vec<u8>)
    ensures
        out@ == get_keyboard_control_record(order, sequence),
{
    let mut out: Vec<u8> = Vec::new();
    push_reply_head(order, &mut out, 1, sequence, 5);
    push_zeros(&mut out, 5);
    push_byte(&mut out, 50);
    push_u16(order, &mut out, 400);
    push_u16(order, &mut out, 100);
    push_zeros(&mut out, 2);
    let ghost prefix = out@;
    let mut i: usize = 0;
    while i < 32
        invariant
            i <= 32,
            out@ =~= prefix + Seq::new(i as nat, |j: int| 0xffu8),
        decreases 32 - i,
    {
        out.push(0xff);
        i = i + 1;
    }
    out
}

pub(crate) fn encode_translate_coordinates(
    order: XByteOrder,
    sequence: u16,
    same_screen: bool,
    child: Option<XResourceId>,
    dst_x: i16,
    dst_y: i16,
) -> (out: Vec<u8>)
    ensures
        out@ == translate_coordinates_record(order, sequence, same_screen, child, dst_x, dst_y),
{
    let mut out: Vec<u8> = Vec::new();
    push_reply_head(order, &mut out, if same_screen { 1 } else { 0 }, sequence, 0);
    push_u32(order, &mut out, optional_raw_xid_of(child));
    push_u16(order, &mut out, dst_x as u16);
    push_u16(order, &mut out, dst_y as u16);
    push_zeros(&mut out, 16);
    out
}

pub(crate) fn encode_alloc_named_color(
    order: XByteOrder,
    sequence: u16,
    pixel: u32,
    red: u16,
    green: u16,
    blue: u16,
) -> (out: Vec<u8>)
    ensures
        out@ == alloc_named_color_record(order, sequence, pixel, red, green, blue),
{
    let mut out: Vec<u8> = Vec::new();
    push_reply_head(order, &mut out, 0, sequence, 0);
    push_u32(order, &mut out, pixel);
    push_u16(order, &mut out, red);
    push_u16(order, &mut out, green);
    push_u16(order, &mut out, blue);
    push_u16(order, &mut out, red);
    push_u16(order, &mut out, green);
    push_u16(order, &mut out, blue);
    push_zeros(&mut out, 8);
    out
}

pub(crate) fn encode_alloc_color(order: XByteOrder, sequence: u16, pixel: u32, red: u16, green: u16, blue: u16) -> (out:
    Vec<u8>)
    ensures
        out@ == alloc_color_record(order, sequence, pixel, red, green, blue),
{
    let mut out: Vec<u8> = Vec::new();
    push_reply_head(order, &mut out, 0, sequence, 0);
    push_u16(order, &mut out, red);
    push_u16(order, &mut out, green);
    push_u16(order, &mut out, blue);
    push_zeros(&mut out, 2);
    push_u32(order, &mut out, pixel);
    push_zeros(&mut out, 12);
    out
}

pub open spec fn get_atom_name_record(order: XByteOrder, sequence: u16, name: Seq<u8>) -> Seq<u8> {
    reply_head(order, 0, sequence, fit_u32(spec_padded_len(name.len() as int) / 4, 0)) + u16_bytes(
        order,
        fit_u16(name.len() as int, 0),
    ) + zero_bytes(22) + name + pad_bytes(name.len() as int)
}

pub open spec fn get_image_record(
    order: XByteOrder,
    sequence: u16,
    depth: u8,
    visual: u32,
    data: Seq<u8>,
) -> Seq<u8> {
    reply_head(order, depth, sequence, fit_u32(spec_padded_len(data.len() as int) / 4, u32::MAX))
        + u32_bytes(order, visual) + zero_bytes(20) + data + pad_bytes(data.len() as int)
}

pub open spec fn query_tree_record(
    order: XByteOrder,
    sequence: u16,
    root: XResourceId,
    parent: XResourceId,
    children: Seq<XResourceId>,
) -> Seq<u8> {
    reply_head(order, 0, sequence, fit_u32(children.len() as int, 0)) + u32_bytes(
        order,
        raw_xid(root),
    ) + u32_bytes(order, raw_xid(parent)) + u16_bytes(order, fit_u16(children.len() as int, 0))
        + zero_bytes(14) + xid_seq_bytes(order, children)
}

pub open spec fn get_modifier_mapping_record(
    order: XByteOrder,
    sequence: u16,
    keycodes_per_modifier: u8,
    keycodes: Seq<u8>,
) -> Seq<u8> {
    reply_head(
        order,
        keycodes_per_modifier,
        sequence,
        fit_u32(spec_padded_len(keycodes.len() as int) / 4, 0),
    ) + zero_bytes(24) + keycodes + pad_bytes(keycodes.len() as int)
}

pub open spec fn get_keyboard_mapping_record(
    order: XByteOrder,
    sequence: u16,
    keysyms_per_keycode: u8,
    keysyms: Seq<u32>,
) -> Seq<u8> {
    reply_head(order, keysyms_per_keycode, sequence, fit_u32(keysyms.len() as int, 0))
        + zero_bytes(24) + u32_seq_bytes(order, keysyms)
}

pub open spec fn get_property_record(
    order: XByteOrder,
    sequence: u16,
    property_type: u32,
    format: u8,
    bytes_after: u32,
    item_count: u32,
    bytes: Seq<u8>,
) -> Seq<u8> {
    reply_head(order, format, sequence, fit_u32(spec_padded_len(bytes.len() as int) / 4, 0))
        + u32_bytes(order, property_type) + u32_bytes(order, bytes_after) + u32_bytes(
        order,
        item_count,
    ) + zero_bytes(12) + bytes + pad_bytes(bytes.len() as int)
}

pub open spec fn list_properties_record(order: XByteOrder, sequence: u16, atoms: Seq<u32>) -> Seq<u8> {
    reply_head(order, 0, sequence, fit_u32(atoms.len() as int, 0)) + u16_bytes(
        order,
        fit_u16(atoms.len() as int, 0),
    ) + zero_bytes(22) + u32_seq_bytes(order, atoms)
}

/// The color a pixel reads back as: black for zero, white for anything else.
pub open spec fn color_bytes(order: XByteOrder, pixel: u32) -> Seq<u8> {
    let intensity: u16 = if pixel == 0 {
        0
    } else {
        0xffff
    };
    u16_bytes(order, intensity) + u16_bytes(order, intensity) + u16_bytes(order, intensity)
        + zero_bytes(2)
}

pub open spec fn colors_bytes(order: XByteOrder, pixels: Seq<u32>) -> Seq<u8>
    decreases pixels.len(),
{
    if pixels.len() == 0 {
        Seq::empty()
    } else {
        colors_bytes(order, pixels.drop_last()) + color_bytes(order, pixels.last())
    }
}

pub open spec fn query_colors_record(order: XByteOrder, sequence: u16, pixels: Seq<u32>) -> Seq<u8> {
    reply_head(order, 0, sequence, fit_u32(2 * pixels.len() as int, 0)) + u16_bytes(
        order,
        fit_u16(pixels.len() as int, 0),
    ) + zero_bytes(22) + colors_bytes(order, pixels)
}

/// How many items of `format` bits `len` bytes hold.
pub open spec fn output_property_items(format: u8, len: int) -> int {
    if format / 8 == 0 {
        0
    } else {
        len / (format / 8) as int
    }
}

pub open spec fn output_property_record(
    order: XByteOrder,
    sequence: u16,
    property_type: u32,
    bytes_after: u32,
    format: u8,
    data: Seq<u8>,
) -> Seq<u8> {
    reply_head(order, format, sequence, (spec_padded_len(data.len() as int) / 4) as u32)
        + u32_bytes(order, property_type) + u32_bytes(order, bytes_after) + u32_bytes(
        order,
        fit_u32(output_property_items(format, data.len() as int), u32::MAX),
    ) + zero_bytes(12) + data + pad_bytes(data.len() as int)
}

pub open spec fn crtc_info_record(
    order: XByteOrder,
    sequence: u16,
    timestamp: u32,
    x: i16,
    y: i16,
    width: u16,
    height: u16,
    mode: u32,
    outputs: Seq<u32>,
) -> Seq<u8> {
    reply_head(order, 0, sequence, (2 * outputs.len()) as u32) + u32_bytes(order, timestamp)
        + u16_bytes(order, x as u16) + u16_bytes(order, y as u16) + u16_bytes(order, width)
        + u16_bytes(order, height) + u32_bytes(order, mode) + u16_bytes(order, 1) + u16_bytes(
        order,
        1,
    ) + u16_bytes(order, outputs.len() as u16) + u16_bytes(order, outputs.len() as u16)
        + u32_seq_bytes(order, outputs) + u32_seq_bytes(order, outputs)
}

pub open spec fn drawable_attributes_record(
    order: XByteOrder,
    sequence: u16,
    attributes: Seq<(u32, u32)>,
) -> Seq<u8> {
    reply_head(order, 0, sequence, (2 * attributes.len()) as u32) + u32_bytes(
        order,
        attributes.len() as u32,
    ) + zero_bytes(20) + pair_seq_bytes(order, attributes)
}

pub open spec fn visual_configs_bytes(order: XByteOrder, configs: Seq<[u32; 18]>) -> Seq<u8>
    decreases configs.len(),
{
    if configs.len() == 0 {
        Seq::empty()
    } else {
        visual_configs_bytes(order, configs.drop_last()) + u32_seq_bytes(order, configs.last()@)
    }
}

pub open spec fn visual_configs_record(
    order: XByteOrder,
    sequence: u16,
    configs: Seq<[u32; 18]>,
) -> Seq<u8> {
    reply_head(order, 0, sequence, (18 * configs.len()) as u32) + u32_bytes(
        order,
        configs.len() as u32,
    ) + u32_bytes(order, 18) + zero_bytes(16) + visual_configs_bytes(order, configs)
}

/// A GLX string reply: the string and its terminating zero byte.
pub open spec fn glx_string_record(order: XByteOrder, sequence: u16, value: Seq<u8>) -> Seq<u8> {
    let n = value.len() as int + 1;
    reply_head(order, 0, sequence, fit_u32(spec_padded_len(n) / 4, u32::MAX)) + zero_bytes(4)
        + u32_bytes(order, fit_u32(n, u32::MAX)) + zero_bytes(16) + value + seq![0u8] + pad_bytes(
        n,
    )
}

pub open spec fn dri3_modifiers_record(
    order: XByteOrder,
    sequence: u16,
    window_modifiers: Seq<u64>,
    screen_modifiers: Seq<u64>,
) -> Seq<u8> {
    reply_head(
        order,
        0,
        sequence,
        fit_u32(2 * (window_modifiers.len() + screen_modifiers.len()) as int, u32::MAX),
    ) + u32_bytes(order, fit_u32(window_modifiers.len() as int, u32::MAX)) + u32_bytes(
        order,
        fit_u32(screen_modifiers.len() as int, u32::MAX),
    ) + zero_bytes(16) + u64_seq_bytes(order, window_modifiers) + u64_seq_bytes(
        order,
        screen_modifiers,
    )
}

/// The length of what follows the first 32 bytes of a RandR output info
/// reply, before padding: its CRTCs, its modes and its name.
pub open spec fn output_info_payload(crtcs: nat, modes: nat, name: nat) -> int {
    4 * crtcs + 4 * modes + name as int
}

pub open spec fn output_info_record(
    order: XByteOrder,
    sequence: u16,
    timestamp: u32,
    crtc: u32,
    mm_width: u32,
    mm_height: u32,
    crtcs: Seq<u32>,
    modes: Seq<u32>,
    name: Seq<u8>,
) -> Seq<u8> {
    let payload = output_info_payload(crtcs.len(), modes.len(), name.len());
    reply_head(order, 0, sequence, (spec_padded_len(payload) / 4 + 1) as u32) + u32_bytes(
        order,
        timestamp,
    ) + u32_bytes(order, crtc) + u32_bytes(order, mm_width) + u32_bytes(order, mm_height) + seq![
        0u8,
        0u8,
    ] + u16_bytes(order, crtcs.len() as u16) + u16_bytes(order, modes.len() as u16) + u16_bytes(
        order,
        if modes.len() > 0 {
            1
        } else {
            0
        },
    ) + zero_bytes(2) + u16_bytes(order, name.len() as u16) + u32_seq_bytes(order, crtcs)
        + u32_seq_bytes(order, modes) + name + pad_bytes(payload)
}

/// Each font name as a length byte and its bytes.
pub open spec fn font_names_bytes(names: Seq<String>) -> Seq<u8>
    decreases names.len(),
{
    if names.len() == 0 {
        Seq::empty()
    } else {
        let name = encode_utf8(names.last()@);
        font_names_bytes(names.drop_last()) + seq![fit_u8(name.len() as int, 0)] + name
    }
}

pub open spec fn list_fonts_record(order: XByteOrder, sequence: u16, names: Seq<String>) -> Seq<u8> {
    let body = font_names_bytes(names);
    reply_head(order, 0, sequence, fit_u32(spec_padded_len(body.len() as int) / 4, 0)) + u16_bytes(
        order,
        fit_u16(names.len() as int, 0),
    ) + zero_bytes(22) + body + pad_bytes(body.len() as int)
}

/// One font information reply per name.
pub open spec fn font_infos_bytes(order: XByteOrder, sequence: u16, names: Seq<String>) -> Seq<u8>
    decreases names.len(),
{
    if names.len() == 0 {
        Seq::empty()
    } else {
        font_infos_bytes(order, sequence, names.drop_last()) + font_info_reply(
            order,
            sequence,
            8,
            2,
            encode_utf8(names.last()@),
        )
    }
}

/// ListFontsWithInfo: one reply per matching font, then the empty reply
/// that ends the series.
pub open spec fn list_fonts_with_info_record(
    order: XByteOrder,
    sequence: u16,
    names: Seq<String>,
) -> Seq<u8> {
    font_infos_bytes(order, sequence, names) + font_info_reply(order, sequence, 0, 0, Seq::empty())
}

pub(crate) fn encode_get_atom_name(order: XByteOrder, sequence: u16, name: &[u8]) -> (out: Vec<u8>)
    ensures
        out@ == get_atom_name_record(order, sequence, name@),
{
    let mut out: Vec<u8> = Vec::new();
    let units = fit_u32_of(padded_units(name.len()), 0);
    push_reply_head(order, &mut out, 0, sequence, units);
    push_u16(order, &mut out, fit_u16_of(name.len(), 0));
    push_zeros(&mut out, 22);
    push_slice(&mut out, name);
    push_padding(&mut out, name.len());
    out
}

pub(crate) fn encode_get_image(order: XByteOrder, sequence: u16, depth: u8, visual: u32, data: &[u8]) -> (out:
    Vec<u8>)
    ensures
        out@ == get_image_record(order, sequence, depth, visual, data@),
{
    let mut out: Vec<u8> = Vec::new();
    let units = fit_u32_of(padded_units(data.len()), u32::MAX);
    push_reply_head(order, &mut out, depth, sequence, units);
    push_u32(order, &mut out, visual);
    push_zeros(&mut out, 20);
    push_slice(&mut out, data);
    push_padding(&mut out, data.len());
    out
}

pub(crate) fn encode_query_tree(
    order: XByteOrder,
    sequence: u16,
    root: XResourceId,
    parent: XResourceId,
    children: &[XResourceId],
) -> (out: Vec<u8>)
    ensures
        out@ == query_tree_record(order, sequence, root, parent, children@),
{
    let mut out: Vec<u8> = Vec::new();
    push_reply_head(order, &mut out, 0, sequence, fit_u32_of(children.len(), 0));
    push_u32(order, &mut out, raw_xid_of(root));
    push_u32(order, &mut out, raw_xid_of(parent));
    push_u16(order, &mut out, fit_u16_of(children.len(), 0));
    push_zeros(&mut out, 14);
    push_xid_seq(order, &mut out, children);
    out
}

pub(crate) fn encode_get_modifier_mapping(
    order: XByteOrder,
    sequence: u16,
    keycodes_per_modifier: u8,
    keycodes: &[u8],
) -> (out: Vec<u8>)
    ensures
        out@ == get_modifier_mapping_record(order, sequence, keycodes_per_modifier, keycodes@),
{
    let mut out: Vec<u8> = Vec::new();
    let units = fit_u32_of(padded_units(keycodes.len()), 0);
    push_reply_head(order, &mut out, keycodes_per_modifier, sequence, units);
    push_zeros(&mut out, 24);
    push_slice(&mut out, keycodes);
    push_padding(&mut out, keycodes.len());
    out
}

pub(crate) fn encode_get_keyboard_mapping(
    order: XByteOrder,
    sequence: u16,
    keysyms_per_keycode: u8,
    keysyms: &[u32],
) -> (out: Vec<u8>)
    ensures
        out@ == get_keyboard_mapping_record(order, sequence, keysyms_per_keycode, keysyms@),
{
    let mut out: Vec<u8> = Vec::new();
    push_reply_head(order, &mut out, keysyms_per_keycode, sequence, fit_u32_of(keysyms.len(), 0));
    push_zeros(&mut out, 24);
    push_u32_seq(order, &mut out, keysyms);
    out
}

pub(crate) fn encode_get_property(
    order: XByteOrder,
    sequence: u16,
    property_type: u32,
    format: u8,
    bytes_after: u32,
    item_count: u32,
    bytes: &[u8],
) -> (out: Vec<u8>)
    ensures
        out@ == get_property_record(
            order,
            sequence,
            property_type,
            format,
            bytes_after,
            item_count,
            bytes@,
        ),
{
    let mut out: Vec<u8> = Vec::new();
    let units = fit_u32_of(padded_units(bytes.len()), 0);
    push_reply_head(order, &mut out, format, sequence, units);
    push_u32(order, &mut out, property_type);
    push_u32(order, &mut out, bytes_after);
    push_u32(order, &mut out, item_count);
    push_zeros(&mut out, 12);
    push_slice(&mut out, bytes);
    push_padding(&mut out, bytes.len());
    out
}

pub(crate) fn encode_list_properties(order: XByteOrder, sequence: u16, atoms: &[u32]) -> (out: Vec<u8>)
    ensures
        out@ == list_properties_record(order, sequence, atoms@),
{
    let mut out: Vec<u8> = Vec::new();
    push_reply_head(order, &mut out, 0, sequence, fit_u32_of(atoms.len(), 0));
    push_u16(order, &mut out, fit_u16_of(atoms.len(), 0));
    push_zeros(&mut out, 22);
    push_u32_seq(order, &mut out, atoms);
    out
}

pub(crate) fn encode_query_colors(order: XByteOrder, sequence: u16, pixels: &[u32]) -> (out: Vec<u8>)
    requires
        8 * pixels@.len() + 32 <= usize::MAX,
    ensures
        out@ == query_colors_record(order, sequence, pixels@),
{
    let mut out: Vec<u8> = Vec::new();
    push_reply_head(order, &mut out, 0, sequence, fit_u32_of(2 * pixels.len(), 0));
    push_u16(order, &mut out, fit_u16_of(pixels.len(), 0));
    push_zeros(&mut out, 22);
    let ghost head = out@;
    let mut i: usize = 0;
    while i < pixels.len()
        invariant
            i <= pixels@.len(),
            out@ == head + colors_bytes(order, pixels@.subrange(0, i as int)),
        decreases pixels@.len() - i,
    {
        assert(pixels@.subrange(0, i + 1).drop_last() =~= pixels@.subrange(0, i as int));
        let intensity: u16 = if pixels[i] == 0 {
            0
        } else {
            0xffff
        };
        push_u16(order, &mut out, intensity);
        push_u16(order, &mut out, intensity);
        push_u16(order, &mut out, intensity);
        push_zeros(&mut out, 2);
        i = i + 1;
        assert(out@ =~= head + colors_bytes(order, pixels@.subrange(0, i as int)));
    }
    assert(pixels@.subrange(0, pixels@.len() as int) =~= pixels@);
    out
}

pub(crate) fn encode_output_property(
    order: XByteOrder,
    sequence: u16,
    property_type: u32,
    bytes_after: u32,
    format: u8,
    data: &[u8],
) -> (out: Vec<u8>)
    ensures
        out@ == output_property_record(order, sequence, property_type, bytes_after, format, data@),
{
    let mut out: Vec<u8> = Vec::new();
    push_reply_head(order, &mut out, format, sequence, padded_units(data.len()) as u32);
    push_u32(order, &mut out, property_type);
    push_u32(order, &mut out, bytes_after);
    let item_width = (format / 8) as usize;
    let items: usize = if item_width == 0 {
        0
    } else {
        data.len() / item_width
    };
    push_u32(order, &mut out, fit_u32_of(items, u32::MAX));
    push_zeros(&mut out, 12);
    push_slice(&mut out, data);
    push_padding(&mut out, data.len());
    out
}

pub(crate) fn encode_crtc_info(
    order: XByteOrder,
    sequence: u16,
    timestamp: u32,
    x: i16,
    y: i16,
    width: u16,
    height: u16,
    mode: u32,
    outputs: &[u32],
) -> (out: Vec<u8>)
    requires
        8 * outputs@.len() + 32 <= usize::MAX,
    ensures
        out@ == crtc_info_record(order, sequence, timestamp, x, y, width, height, mode, outputs@),
{
    let mut out: Vec<u8> = Vec::new();
    push_reply_head(order, &mut out, 0, sequence, (2 * outputs.len()) as u32);
    push_u32(order, &mut out, timestamp);
    push_u16(order, &mut out, x as u16);
    push_u16(order, &mut out, y as u16);
    push_u16(order, &mut out, width);
    push_u16(order, &mut out, height);
    push_u32(order, &mut out, mode);
    push_u16(order, &mut out, 1);
    push_u16(order, &mut out, 1);
    push_u16(order, &mut out, outputs.len() as u16);
    push_u16(order, &mut out, outputs.len() as u16);
    push_u32_seq(order, &mut out, outputs);
    push_u32_seq(order, &mut out, outputs);
    out
}

pub(crate) fn encode_drawable_attributes(order: XByteOrder, sequence: u16, attributes: &[(u32, u32)]) -> (out:
    Vec<u8>)
    requires
        8 * attributes@.len() + 32 <= usize::MAX,
    ensures
        out@ == drawable_attributes_record(order, sequence, attributes@),
{
    let mut out: Vec<u8> = Vec::new();
    push_reply_head(order, &mut out, 0, sequence, (2 * attributes.len()) as u32);
    push_u32(order, &mut out, attributes.len() as u32);
    push_zeros(&mut out, 20);
    push_pair_seq(order, &mut out, attributes);
    out
}

pub(crate) fn encode_visual_configs(order: XByteOrder, sequence: u16, configs: &[[u32; 18]]) -> (out: Vec<u8>)
    requires
        72 * configs@.len() + 32 <= usize::MAX,
    ensures
        out@ == visual_configs_record(order, sequence, configs@),
{
    let mut out: Vec<u8> = Vec::new();
    push_reply_head(order, &mut out, 0, sequence, (18 * configs.len()) as u32);
    push_u32(order, &mut out, configs.len() as u32);
    push_u32(order, &mut out, 18);
    push_zeros(&mut out, 16);
    let ghost head = out@;
    let mut i: usize = 0;
    while i < configs.len()
        invariant
            i <= configs@.len(),
            out@ == head + visual_configs_bytes(order, configs@.subrange(0, i as int)),
        decreases configs@.len() - i,
    {
        assert(configs@.subrange(0, i + 1).drop_last() =~= configs@.subrange(0, i as int));
        push_u32_seq(order, &mut out, &configs[i]);
        i = i + 1;
        assert(out@ =~= head + visual_configs_bytes(order, configs@.subrange(0, i as int)));
    }
    assert(configs@.subrange(0, configs@.len() as int) =~= configs@);
    out
}

pub(crate) fn encode_glx_string(order: XByteOrder, sequence: u16, value: &[u8]) -> (out: Vec<u8>)
    requires
        value@.len() + 36 <= usize::MAX,
    ensures
        out@ == glx_string_record(order, sequence, value@),
{
    let n = value.len() + 1;
    let mut out: Vec<u8> = Vec::new();
    push_reply_head(order, &mut out, 0, sequence, fit_u32_of(padded_units(n), u32::MAX));
    push_zeros(&mut out, 4);
    push_u32(order, &mut out, fit_u32_of(n, u32::MAX));
    push_zeros(&mut out, 16);
    push_slice(&mut out, value);
    push_byte(&mut out, 0);
    push_padding(&mut out, n);
    out
}

pub(crate) fn encode_dri3_modifiers(
    order: XByteOrder,
    sequence: u16,
    window_modifiers: &[u64],
    screen_modifiers: &[u64],
) -> (out: Vec<u8>)
    requires
        8 * (window_modifiers@.len() + screen_modifiers@.len()) + 32 <= usize::MAX,
    ensures
        out@ == dri3_modifiers_record(order, sequence, window_modifiers@, screen_modifiers@),
{
    let count = window_modifiers.len() + screen_modifiers.len();
    let mut out: Vec<u8> = Vec::new();
    push_reply_head(order, &mut out, 0, sequence, fit_u32_of(2 * count, u32::MAX));
    push_u32(order, &mut out, fit_u32_of(window_modifiers.len(), u32::MAX));
    push_u32(order, &mut out, fit_u32_of(screen_modifiers.len(), u32::MAX));
    push_zeros(&mut out, 16);
    push_u64_seq(order, &mut out, window_modifiers);
    push_u64_seq(order, &mut out, screen_modifiers);
    out
}

pub(crate) fn encode_output_info(
    order: XByteOrder,
    sequence: u16,
    timestamp: u32,
    crtc: u32,
    mm_width: u32,
    mm_height: u32,
    crtcs: &[u32],
    modes: &[u32],
    name: &[u8],
) -> (out: Vec<u8>)
    requires
        output_info_payload(crtcs@.len(), modes@.len(), name@.len()) + 39 <= usize::MAX,
    ensures
        out@ == output_info_record(
            order,
            sequence,
            timestamp,
            crtc,
            mm_width,
            mm_height,
            crtcs@,
            modes@,
            name@,
        ),
{
    let payload = 4 * crtcs.len() + 4 * modes.len() + name.len();
    let units = padded_units(payload) + 1;
    let mut out: Vec<u8> = Vec::new();
    push_reply_head(order, &mut out, 0, sequence, units as u32);
    push_u32(order, &mut out, timestamp);
    push_u32(order, &mut out, crtc);
    push_u32(order, &mut out, mm_width);
    push_u32(order, &mut out, mm_height);
    push_byte(&mut out, 0);
    push_byte(&mut out, 0);
    push_u16(order, &mut out, crtcs.len() as u16);
    push_u16(order, &mut out, modes.len() as u16);
    push_u16(
        order,
        &mut out,
        if modes.len() > 0 {
            1
        } else {
            0
        },
    );
    push_zeros(&mut out, 2);
    push_u16(order, &mut out, name.len() as u16);
    push_u32_seq(order, &mut out, crtcs);
    push_u32_seq(order, &mut out, modes);
    push_slice(&mut out, name);
    push_padding(&mut out, payload);
    out
}

pub(crate) fn encode_list_fonts(order: XByteOrder, sequence: u16, names: &[String]) -> (out: Vec<u8>)
    ensures
        out@ == list_fonts_record(order, sequence, names@),
{
    let mut body: Vec<u8> = Vec::new();
    let mut i: usize = 0;
    while i < names.len()
        invariant
            i <= names@.len(),
            body@ == font_names_bytes(names@.subrange(0, i as int)),
        decreases names@.len() - i,
    {
        assert(names@.subrange(0, i + 1).drop_last() =~= names@.subrange(0, i as int));
        let bytes = names[i].as_str().as_bytes();
        push_byte(&mut body, fit_u8_of(bytes.len(), 0));
        push_slice(&mut body, bytes);
        i = i + 1;
        assert(body@ =~= font_names_bytes(names@.subrange(0, i as int)));
    }
    assert(names@.subrange(0, names@.len() as int) =~= names@);
    let mut out: Vec<u8> = Vec::new();
    push_reply_head(order, &mut out, 0, sequence, fit_u32_of(padded_units(body.len()), 0));
    push_u16(order, &mut out, fit_u16_of(names.len(), 0));
    push_zeros(&mut out, 22);
    push_slice(&mut out, &body);
    push_padding(&mut out, body.len());
    out
}

pub(crate) fn encode_list_fonts_with_info(order: XByteOrder, sequence: u16, names: &[String]) -> (out: Vec<u8>)
    requires
        forall|i: int| 0 <= i < names@.len() ==> encode_utf8(#[trigger] names@[i]@).len() + 63 <= usize::MAX,
    ensures
        out@ == list_fonts_with_info_record(order, sequence, names@),
{
    let mut out: Vec<u8> = Vec::new();
    let mut i: usize = 0;
    while i < names.len()
        invariant
            i <= names@.len(),
            forall|j: int| 0 <= j < names@.len() ==> encode_utf8(#[trigger] names@[j]@).len() + 63 <= usize::MAX,
            out@ == font_infos_bytes(order, sequence, names@.subrange(0, i as int)),
        decreases names@.len() - i,
    {
        assert(names@.subrange(0, i + 1).drop_last() =~= names@.subrange(0, i as int));
        let bytes = names[i].as_str().as_bytes();
        assert(bytes@.len() + 63 <= usize::MAX);
        let mut info = encode_font_info_reply(order, sequence, 8, 2, Some(bytes));
        out.append(&mut info);
        i = i + 1;
        assert(out@ =~= font_infos_bytes(order, sequence, names@.subrange(0, i as int)));
    }
    assert(names@.subrange(0, names@.len() as int) =~= names@);
    let mut last = encode_font_info_reply(order, sequence, 0, 0, None);
    out.append(&mut last);
    out
}

/// A mode's dot clock in Hz: width times height times refresh rate, the
/// refresh rate given in millihertz; saturated to what 32 bits hold.
pub open spec fn dot_clock(mode: XRandrModeInfo) -> u32 {
    fit_u32(mode.width as int * mode.height as int * mode.refresh_millihz as int / 1000, u32::MAX)
}

/// The 32-byte RandR mode description of `mode`, its name left out.
pub open spec fn mode_info_bytes(order: XByteOrder, mode: XRandrModeInfo) -> Seq<u8> {
    u32_bytes(order, mode.id) + u16_bytes(order, mode.width) + u16_bytes(order, mode.height)
        + u32_bytes(order, dot_clock(mode)) + u16_bytes(order, mode.width) + u16_bytes(
        order,
        mode.width,
    ) + u16_bytes(order, mode.width) + zero_bytes(2) + u16_bytes(order, mode.height) + u16_bytes(
        order,
        mode.height,
    ) + u16_bytes(order, mode.height) + u16_bytes(order, mode.name@.len() as u16) + zero_bytes(4)
}

pub open spec fn mode_infos_bytes(order: XByteOrder, modes: Seq<XRandrModeInfo>) -> Seq<u8>
    decreases modes.len(),
{
    if modes.len() == 0 {
        Seq::empty()
    } else {
        mode_infos_bytes(order, modes.drop_last()) + mode_info_bytes(order, modes.last())
    }
}

/// The names of `modes`, one after another.
pub open spec fn mode_names_bytes(modes: Seq<XRandrModeInfo>) -> Seq<u8>
    decreases modes.len(),
{
    if modes.len() == 0 {
        Seq::empty()
    } else {
        mode_names_bytes(modes.drop_last()) + modes.last().name@
    }
}

/// The length of what follows the first 32 bytes of a screen resources
/// reply, before padding.
pub open spec fn screen_resources_payload(
    crtcs: nat,
    outputs: nat,
    modes: Seq<XRandrModeInfo>,
) -> int {
    4 * crtcs + 4 * outputs + 32 * modes.len() + mode_names_bytes(modes).len() as int
}

pub open spec fn screen_resources_record(
    order: XByteOrder,
    sequence: u16,
    timestamp: u32,
    crtcs: Seq<u32>,
    outputs: Seq<u32>,
    modes: Seq<XRandrModeInfo>,
) -> Seq<u8> {
    let names = mode_names_bytes(modes);
    let payload = screen_resources_payload(crtcs.len(), outputs.len(), modes);
    reply_head(order, 0, sequence, fit_u32(spec_padded_len(payload) / 4, u32::MAX)) + u32_bytes(
        order,
        timestamp,
    ) + u32_bytes(order, timestamp) + u16_bytes(order, crtcs.len() as u16) + u16_bytes(
        order,
        outputs.len() as u16,
    ) + u16_bytes(order, modes.len() as u16) + u16_bytes(order, names.len() as u16) + zero_bytes(
        8,
    ) + u32_seq_bytes(order, crtcs) + u32_seq_bytes(order, outputs) + mode_infos_bytes(
        order,
        modes,
    ) + names + pad_bytes(payload)
}

/// One RandR monitor description followed by its outputs.
pub open spec fn monitor_bytes(order: XByteOrder, monitor: XRandrMonitorInfo) -> Seq<u8> {
    u32_bytes(order, monitor.name) + seq![flag(monitor.primary), 1u8] + u16_bytes(
        order,
        monitor.outputs@.len() as u16,
    ) + u16_bytes(order, monitor.x as u16) + u16_bytes(order, monitor.y as u16) + u16_bytes(
        order,
        monitor.width,
    ) + u16_bytes(order, monitor.height) + u32_bytes(order, monitor.mm_width) + u32_bytes(
        order,
        monitor.mm_height,
    ) + u32_seq_bytes(order, monitor.outputs@)
}

pub open spec fn monitors_bytes(order: XByteOrder, monitors: Seq<XRandrMonitorInfo>) -> Seq<u8>
    decreases monitors.len(),
{
    if monitors.len() == 0 {
        Seq::empty()
    } else {
        monitors_bytes(order, monitors.drop_last()) + monitor_bytes(order, monitors.last())
    }
}

/// The bytes the monitor descriptions take: 24 for each, and 4 for each of
/// its outputs.
pub open spec fn monitors_payload(monitors: Seq<XRandrMonitorInfo>) -> int
    decreases monitors.len(),
{
    if monitors.len() == 0 {
        0
    } else {
        monitors_payload(monitors.drop_last()) + 24 + 4 * monitors.last().outputs@.len()
    }
}

/// How many outputs the monitors have between them.
pub open spec fn monitor_outputs_total(monitors: Seq<XRandrMonitorInfo>) -> int
    decreases monitors.len(),
{
    if monitors.len() == 0 {
        0
    } else {
        monitor_outputs_total(monitors.drop_last()) + monitors.last().outputs@.len()
    }
}

pub open spec fn monitors_record(
    order: XByteOrder,
    sequence: u16,
    timestamp: u32,
    monitors: Seq<XRandrMonitorInfo>,
) -> Seq<u8> {
    reply_head(order, 0, sequence, (monitors_payload(monitors) / 4) as u32) + u32_bytes(
        order,
        timestamp,
    ) + u32_bytes(order, monitors.len() as u32) + u32_bytes(
        order,
        monitor_outputs_total(monitors) as u32,
    ) + zero_bytes(12) + monitors_bytes(order, monitors)
}

/// How many attributes each GLX framebuffer configuration is announced with:
/// as many as the first one has.
pub open spec fn fb_attribute_count(configs: Seq<Vec<(u32, u32)>>) -> nat {
    if configs.len() == 0 {
        0
    } else {
        configs[0]@.len()
    }
}

pub open spec fn fb_pairs_bytes(order: XByteOrder, configs: Seq<Vec<(u32, u32)>>) -> Seq<u8>
    decreases configs.len(),
{
    if configs.len() == 0 {
        Seq::empty()
    } else {
        fb_pairs_bytes(order, configs.drop_last()) + pair_seq_bytes(order, configs.last()@)
    }
}

/// How many attribute pairs the configurations hold between them.
pub open spec fn fb_pair_count(configs: Seq<Vec<(u32, u32)>>) -> int
    decreases configs.len(),
{
    if configs.len() == 0 {
        0
    } else {
        fb_pair_count(configs.drop_last()) + configs.last()@.len()
    }
}

/// The framebuffer configuration table: `configs.len()` rows of as many
/// attribute pairs as the first row has; pairs are written one after another
/// and the table's unused tail stays zero.
pub open spec fn fb_configs_record(
    order: XByteOrder,
    sequence: u16,
    configs: Seq<Vec<(u32, u32)>>,
) -> Seq<u8> {
    let attributes = fb_attribute_count(configs);
    let body = 8 * configs.len() * attributes;
    reply_head(order, 0, sequence, (body / 4) as u32) + u32_bytes(order, configs.len() as u32)
        + u32_bytes(order, attributes as u32) + zero_bytes(16) + fb_pairs_bytes(order, configs)
        + zero_bytes((body - 8 * fb_pair_count(configs)) as nat)
}

/// One XKB key type: one level, no modifiers.
pub open spec fn xkb_key_type_bytes(order: XByteOrder) -> Seq<u8> {
    seq![1u8, 1u8] + u16_bytes(order, 0) + seq![2u8, 1u8, 0u8, 0u8] + seq![1u8, 1u8, 1u8, 1u8]
        + u16_bytes(order, 0) + seq![0u8, 0u8]
}

pub open spec fn xkb_key_types_bytes(order: XByteOrder) -> Seq<u8> {
    xkb_key_type_bytes(order) + xkb_key_type_bytes(order) + xkb_key_type_bytes(order)
        + xkb_key_type_bytes(order)
}

/// One key's symbol map: one group of two levels.
pub open spec fn keysym_map_bytes(order: XByteOrder, syms: [u32; 2]) -> Seq<u8> {
    seq![0u8, 0u8, 0u8, 0u8, 1u8, 2u8] + u16_bytes(order, 2) + u32_bytes(order, syms@[0])
        + u32_bytes(order, syms@[1])
}

pub open spec fn keysym_maps_bytes(order: XByteOrder, keysyms: Seq<[u32; 2]>) -> Seq<u8>
    decreases keysyms.len(),
{
    if keysyms.len() == 0 {
        Seq::empty()
    } else {
        keysym_maps_bytes(order, keysyms.drop_last()) + keysym_map_bytes(order, keysyms.last())
    }
}

pub open spec fn modmap_bytes(modifier_map: Seq<(u8, u8)>) -> Seq<u8>
    decreases modifier_map.len(),
{
    if modifier_map.len() == 0 {
        Seq::empty()
    } else {
        modmap_bytes(modifier_map.drop_last()) + seq![
            modifier_map.last().0,
            modifier_map.last().1,
        ]
    }
}

/// The parts of an XKB GetMap reply that `present` asks for: key types,
/// key symbol maps, one zero action count per key, and the modifier map.
pub open spec fn xkb_map_body(
    order: XByteOrder,
    present: u16,
    keysyms: Seq<[u32; 2]>,
    modifier_map: Seq<(u8, u8)>,
) -> Seq<u8> {
    let types = if present & 1 != 0 {
        xkb_key_types_bytes(order)
    } else {
        Seq::empty()
    };
    let syms = if present & 2 != 0 {
        keysym_maps_bytes(order, keysyms)
    } else {
        Seq::empty()
    };
    let actions = if present & 0x10 != 0 {
        pad_to_four(types + syms + zero_bytes(keysyms.len()))
    } else {
        types + syms
    };
    if present & 4 != 0 {
        pad_to_four(actions + modmap_bytes(modifier_map))
    } else {
        actions
    }
}

/// The length of `xkb_map_body` for `keys` keys and `mods` modifier map
/// entries.
pub open spec fn xkb_map_body_len(present: u16, keys: nat, mods: nat) -> int {
    let prefix = (if present & 1 != 0 {
        64int
    } else {
        0int
    }) + (if present & 2 != 0 {
        16 * keys as int
    } else {
        0int
    });
    let actions = if present & 0x10 != 0 {
        spec_padded_len(prefix + keys)
    } else {
        prefix
    };
    if present & 4 != 0 {
        spec_padded_len(actions + 2 * mods)
    } else {
        actions
    }
}

/// The fields between the header and the body of an XKB GetMap reply: which
/// parts are present, and how many of each the body holds.
pub open spec fn xkb_map_fields(present: u16, keys: int, mods: int) -> Seq<u8> {
    let types = present & 1 != 0;
    let syms = present & 2 != 0;
    let modmap = present & 4 != 0;
    let actions = present & 0x10 != 0;
    seq![
        if syms {
            fit_u8(keys, u8::MAX)
        } else {
            0u8
        },
        if actions {
            8u8
        } else {
            0u8
        },
        0u8,
        0u8,
        if actions {
            fit_u8(keys, u8::MAX)
        } else {
            0u8
        },
        if present & 0x20 != 0 {
            8u8
        } else {
            0u8
        },
        0u8,
        0u8,
        if present & 0x08 != 0 {
            8u8
        } else {
            0u8
        },
        0u8,
        0u8,
        if modmap {
            8u8
        } else {
            0u8
        },
        if modmap {
            248u8
        } else {
            0u8
        },
        if modmap {
            fit_u8(mods, u8::MAX)
        } else {
            0u8
        },
        if present & 0x80 != 0 {
            8u8
        } else {
            0u8
        },
        0u8,
        0u8,
        0u8,
        0u8,
        0u8,
    ]
}

/// The fields that follow the header of an XKB GetMap reply up to the key
/// symbol counts: device, keycode range, what is present, the key type
/// counts and the number of key symbols.
pub open spec fn xkb_map_prelude(order: XByteOrder, present: u16, keys: int) -> Seq<u8> {
    let types = present & 1 != 0;
    seq![0u8, 0u8, 8u8, 255u8] + u16_bytes(order, present) + seq![
        0u8,
        if types {
            4u8
        } else {
            0u8
        },
        if types {
            4u8
        } else {
            0u8
        },
        8u8,
    ] + u16_bytes(
        order,
        if present & 2 != 0 {
            fit_u16(2 * keys, u16::MAX)
        } else {
            0
        },
    )
}

pub open spec fn xkb_get_map_record(
    order: XByteOrder,
    sequence: u16,
    present: u16,
    keysyms: Seq<[u32; 2]>,
    modifier_map: Seq<(u8, u8)>,
) -> Seq<u8> {
    let body = xkb_map_body(order, present, keysyms, modifier_map);
    reply_head(order, 3, sequence, ((8 + body.len()) / 4) as u32) + xkb_map_prelude(
        order,
        present,
        keysyms.len() as int,
    ) + xkb_map_fields(present, keysyms.len() as int, modifier_map.len() as int) + body
}

pub open spec fn key_names_bytes(names: Seq<[u8; 4]>) -> Seq<u8>
    decreases names.len(),
{
    if names.len() == 0 {
        Seq::empty()
    } else {
        key_names_bytes(names.drop_last()) + names.last()@
    }
}

/// The parts of an XKB GetNames reply that `which` asks for: the component
/// atoms, the key type atoms, one zero level count per key type, and the key
/// names.
pub open spec fn xkb_names_body(
    order: XByteOrder,
    which: u32,
    component_atoms: Seq<u32>,
    type_atoms: Seq<u32>,
    key_names: Seq<[u8; 4]>,
) -> Seq<u8> {
    let atoms = u32_seq_bytes(order, component_atoms) + if which & 0x40 != 0 {
        u32_seq_bytes(order, type_atoms)
    } else {
        Seq::empty()
    };
    let levels = if which & 0x80 != 0 {
        pad_to_four(atoms + zero_bytes(type_atoms.len()))
    } else {
        atoms
    };
    if which & 0x200 != 0 {
        levels + key_names_bytes(key_names)
    } else {
        levels
    }
}

pub open spec fn xkb_get_names_record(
    order: XByteOrder,
    sequence: u16,
    which: u32,
    min_keycode: u8,
    max_keycode: u8,
    component_atoms: Seq<u32>,
    type_atoms: Seq<u32>,
    key_names: Seq<[u8; 4]>,
) -> Seq<u8> {
    let body = xkb_names_body(order, which, component_atoms, type_atoms, key_names);
    reply_head(order, 3, sequence, fit_u32(body.len() as int / 4, u32::MAX)) + u32_bytes(order, which)
        + seq![
        min_keycode,
        max_keycode,
        fit_u8(type_atoms.len() as int, u8::MAX),
        0u8,
        0u8,
        0u8,
        min_keycode,
        fit_u8(key_names.len() as int, u8::MAX),
    ] + zero_bytes(12) + body
}

/// One XInput2 device class description.
pub open spec fn xi_class_bytes(order: XByteOrder, class: XXiDeviceClass) -> Seq<u8> {
    match class {
        XXiDeviceClass::Key { source_id, keys } => u16_bytes(order, 0) + u16_bytes(
            order,
            fit_u16(2 + keys@.len() as int, u16::MAX),
        ) + u16_bytes(order, source_id) + u16_bytes(order, fit_u16(keys@.len() as int, 0))
            + u32_seq_bytes(order, keys@),
        XXiDeviceClass::Button { source_id, button_count } => u16_bytes(order, 1) + u16_bytes(
            order,
            (3 + button_count) as u16,
        ) + u16_bytes(order, source_id) + u16_bytes(order, button_count) + u32_bytes(order, 0)
            + zero_bytes(4 * button_count as nat),
        XXiDeviceClass::Valuator { source_id, number, min, max } => u16_bytes(order, 2)
            + u16_bytes(order, 11) + u16_bytes(order, source_id) + u16_bytes(order, number)
            + u32_bytes(order, 0) + u64_bytes(order, min as u64) + u64_bytes(order, max as u64)
            + u64_bytes(order, 0) + u32_bytes(order, 1) + zero_bytes(4),
    }
}

pub open spec fn xi_classes_bytes(order: XByteOrder, classes: Seq<XXiDeviceClass>) -> Seq<u8>
    decreases classes.len(),
{
    if classes.len() == 0 {
        Seq::empty()
    } else {
        xi_classes_bytes(order, classes.drop_last()) + xi_class_bytes(order, classes.last())
    }
}

/// The fixed part of an XInput2 device description.
pub open spec fn xi_device_head(order: XByteOrder, device: XXiDeviceInfo) -> Seq<u8> {
    u16_bytes(order, device.device_id) + u16_bytes(order, device.device_type) + u16_bytes(
        order,
        device.attachment,
    ) + u16_bytes(order, fit_u16(device.classes@.len() as int, 0)) + u16_bytes(
        order,
        fit_u16(encode_utf8(device.name@).len() as int, 0),
    ) + seq![1u8, 0u8]
}

/// The device descriptions one after another: each one's fixed part and
/// name, the whole padded to four bytes, then its classes.
pub open spec fn xi_devices_bytes(order: XByteOrder, devices: Seq<XXiDeviceInfo>) -> Seq<u8>
    decreases devices.len(),
{
    if devices.len() == 0 {
        Seq::empty()
    } else {
        let device = devices.last();
        pad_to_four(
            xi_devices_bytes(order, devices.drop_last()) + xi_device_head(order, device)
                + encode_utf8(device.name@),
        ) + xi_classes_bytes(order, device.classes@)
    }
}

pub open spec fn xi_query_device_record(
    order: XByteOrder,
    sequence: u16,
    devices: Seq<XXiDeviceInfo>,
) -> Seq<u8> {
    let body = xi_devices_bytes(order, devices);
    reply_head(order, X_INPUT_QUERY_DEVICE_MINOR_OPCODE, sequence, fit_u32(body.len() as int / 4, 0))
        + u16_bytes(order, fit_u16(devices.len() as int, 0)) + zero_bytes(22) + body
}

/// Whether every button class of `devices` has a length that fits its
/// 16-bit field.
pub open spec fn xi_button_counts_fit(devices: Seq<XXiDeviceInfo>) -> bool {
    forall|i: int, j: int|
        0 <= i < devices.len() && 0 <= j < devices[i].classes@.len() ==> (
        #[trigger] devices[i].classes@[j] matches XXiDeviceClass::Button { button_count, .. }
            ==> button_count + 3 <= u16::MAX)
}

fn mode_dot_clock(mode: &XRandrModeInfo) -> (clock: u32)
    ensures
        clock == dot_clock(*mode),
{
    let w = mode.width as u64;
    let h = mode.height as u64;
    let r = mode.refresh_millihz as u64;
    assert(w * h <= 4294836225) by (nonlinear_arith)
        requires
            w <= 65535,
            h <= 65535,
    ;
    let wh = w * h;
    assert(wh * r <= 18446181123756261375u64) by (nonlinear_arith)
        requires
            wh <= 4294836225,
            r <= 4294967295,
    ;
    let product = wh * r;
    let clock = product / 1000;
    if clock <= 0xffff_ffffu64 {
        clock as u32
    } else {
        u32::MAX
    }
}

fn push_mode_info(order: XByteOrder, out: &mut Vec<u8>, mode: &XRandrModeInfo)
    ensures
        final(out)@ == old(out)@ + mode_info_bytes(order, *mode),
{
    push_u32(order, out, mode.id);
    push_u16(order, out, mode.width);
    push_u16(order, out, mode.height);
    push_u32(order, out, mode_dot_clock(mode));
    push_u16(order, out, mode.width);
    push_u16(order, out, mode.width);
    push_u16(order, out, mode.width);
    push_zeros(out, 2);
    push_u16(order, out, mode.height);
    push_u16(order, out, mode.height);
    push_u16(order, out, mode.height);
    push_u16(order, out, mode.name.len() as u16);
    push_zeros(out, 4);
    assert(out@ =~= old(out)@ + mode_info_bytes(order, *mode));
}

pub(crate) fn encode_screen_resources(
    order: XByteOrder,
    sequence: u16,
    timestamp: u32,
    crtcs: &[u32],
    outputs: &[u32],
    modes: &[XRandrModeInfo],
) -> (out: Vec<u8>)
    requires
        screen_resources_payload(crtcs@.len(), outputs@.len(), modes@) + 35 <= usize::MAX,
    ensures
        out@ == screen_resources_record(order, sequence, timestamp, crtcs@, outputs@, modes@),
{
    let mut names: Vec<u8> = Vec::new();
    let mut i: usize = 0;
    while i < modes.len()
        invariant
            i <= modes@.len(),
            names@ == mode_names_bytes(modes@.subrange(0, i as int)),
        decreases modes@.len() - i,
    {
        assert(modes@.subrange(0, i + 1).drop_last() =~= modes@.subrange(0, i as int));
        push_slice(&mut names, modes[i].name.as_slice());
        i = i + 1;
        assert(names@ =~= mode_names_bytes(modes@.subrange(0, i as int)));
    }
    assert(modes@.subrange(0, modes@.len() as int) =~= modes@);
    let payload = 4 * crtcs.len() + 4 * outputs.len() + 32 * modes.len() + names.len();
    let mut out: Vec<u8> = Vec::new();
    push_reply_head(order, &mut out, 0, sequence, fit_u32_of(padded_units(payload), u32::MAX));
    push_u32(order, &mut out, timestamp);
    push_u32(order, &mut out, timestamp);
    push_u16(order, &mut out, crtcs.len() as u16);
    push_u16(order, &mut out, outputs.len() as u16);
    push_u16(order, &mut out, modes.len() as u16);
    push_u16(order, &mut out, names.len() as u16);
    push_zeros(&mut out, 8);
    push_u32_seq(order, &mut out, crtcs);
    push_u32_seq(order, &mut out, outputs);
    let ghost head = out@;
    let mut i: usize = 0;
    while i < modes.len()
        invariant
            i <= modes@.len(),
            out@ == head + mode_infos_bytes(order, modes@.subrange(0, i as int)),
        decreases modes@.len() - i,
    {
        assert(modes@.subrange(0, i + 1).drop_last() =~= modes@.subrange(0, i as int));
        push_mode_info(order, &mut out, &modes[i]);
        i = i + 1;
        assert(out@ =~= head + mode_infos_bytes(order, modes@.subrange(0, i as int)));
    }
    push_slice(&mut out, &names);
    push_padding(&mut out, payload);
    out
}

proof fn lemma_monitors_prefix(monitors: Seq<XRandrMonitorInfo>, i: int)
    requires
        0 <= i <= monitors.len(),
    ensures
        0 <= monitors_payload(monitors.subrange(0, i)) <= monitors_payload(monitors),
        0 <= monitor_outputs_total(monitors.subrange(0, i)) <= monitor_outputs_total(monitors),
    decreases monitors.len(),
{
    if monitors.len() == 0 {
        assert(monitors.subrange(0, i) =~= monitors);
    } else if i == monitors.len() {
        lemma_monitors_prefix(monitors.drop_last(), i - 1);
        assert(monitors.drop_last().subrange(0, i - 1) =~= monitors.drop_last());
        assert(monitors.subrange(0, i) =~= monitors);
    } else {
        lemma_monitors_prefix(monitors.drop_last(), i);
        assert(monitors.drop_last().subrange(0, i) =~= monitors.subrange(0, i));
        lemma_monitors_prefix(monitors.drop_last(), i);
        lemma_monitors_prefix(monitors.drop_last(), monitors.len() - 1);
        assert(monitors.drop_last().subrange(0, monitors.len() - 1) =~= monitors.drop_last());
    }
}

fn push_monitor(order: XByteOrder, out: &mut Vec<u8>, monitor: &XRandrMonitorInfo)
    ensures
        final(out)@ == old(out)@ + monitor_bytes(order, *monitor),
{
    push_u32(order, out, monitor.name);
    push_byte(out, if monitor.primary { 1 } else { 0 });
    push_byte(out, 1);
    push_u16(order, out, monitor.outputs.len() as u16);
    push_u16(order, out, monitor.x as u16);
    push_u16(order, out, monitor.y as u16);
    push_u16(order, out, monitor.width);
    push_u16(order, out, monitor.height);
    push_u32(order, out, monitor.mm_width);
    push_u32(order, out, monitor.mm_height);
    push_u32_seq(order, out, monitor.outputs.as_slice());
    assert(out@ =~= old(out)@ + monitor_bytes(order, *monitor));
}

pub(crate) fn encode_monitors(
    order: XByteOrder,
    sequence: u16,
    timestamp: u32,
    monitors: &[XRandrMonitorInfo],
) -> (out: Vec<u8>)
    requires
        monitors_payload(monitors@) + 32 <= usize::MAX,
        monitor_outputs_total(monitors@) <= u32::MAX,
    ensures
        out@ == monitors_record(order, sequence, timestamp, monitors@),
{
    let mut payload: usize = 0;
    let mut total: usize = 0;
    let mut i: usize = 0;
    while i < monitors.len()
        invariant
            i <= monitors@.len(),
            monitors_payload(monitors@) + 32 <= usize::MAX,
            monitor_outputs_total(monitors@) <= u32::MAX,
            payload == monitors_payload(monitors@.subrange(0, i as int)),
            total == monitor_outputs_total(monitors@.subrange(0, i as int)),
        decreases monitors@.len() - i,
    {
        proof {
            lemma_monitors_prefix(monitors@, i + 1);
            assert(monitors@.subrange(0, i + 1).drop_last() =~= monitors@.subrange(0, i as int));
        }
        payload = payload + 24 + 4 * monitors[i].outputs.len();
        total = total + monitors[i].outputs.len();
        i = i + 1;
    }
    assert(monitors@.subrange(0, monitors@.len() as int) =~= monitors@);
    let mut out: Vec<u8> = Vec::new();
    push_reply_head(order, &mut out, 0, sequence, (payload / 4) as u32);
    push_u32(order, &mut out, timestamp);
    push_u32(order, &mut out, monitors.len() as u32);
    push_u32(order, &mut out, total as u32);
    push_zeros(&mut out, 12);
    let ghost head = out@;
    let mut i: usize = 0;
    while i < monitors.len()
        invariant
            i <= monitors@.len(),
            out@ == head + monitors_bytes(order, monitors@.subrange(0, i as int)),
        decreases monitors@.len() - i,
    {
        assert(monitors@.subrange(0, i + 1).drop_last() =~= monitors@.subrange(0, i as int));
        push_monitor(order, &mut out, &monitors[i]);
        i = i + 1;
        assert(out@ =~= head + monitors_bytes(order, monitors@.subrange(0, i as int)));
    }
    out
}

pub(crate) proof fn lemma_fb_pairs_len(order: XByteOrder, configs: Seq<Vec<(u32, u32)>>)
    ensures
        fb_pairs_bytes(order, configs).len() == 8 * fb_pair_count(configs),
    decreases configs.len(),
{
    if configs.len() > 0 {
        lemma_fb_pairs_len(order, configs.drop_last());
        lemma_pair_seq_bytes_len(order, configs.last()@);
    }
}

pub(crate) fn encode_fb_configs(order: XByteOrder, sequence: u16, configs: &[Vec<(u32, u32)>]) -> (out: Vec<
    u8,
>)
    requires
        8 * configs@.len() * fb_attribute_count(configs@) + 32 <= usize::MAX,
        fb_pair_count(configs@) <= configs@.len() * fb_attribute_count(configs@),
    ensures
        out@ == fb_configs_record(order, sequence, configs@),
{
    let attributes: usize = if configs.len() == 0 {
        0
    } else {
        configs[0].len()
    };
    let ghost k = configs@.len();
    let ghost a = attributes as int;
    assert(k * a <= 8 * k * a) by (nonlinear_arith)
        requires
            k >= 0,
            a >= 0,
    ;
    assert(8 * (k * a) == 8 * k * a) by (nonlinear_arith);
    let body = 8 * (configs.len() * attributes);
    let mut out: Vec<u8> = Vec::new();
    push_reply_head(order, &mut out, 0, sequence, (body / 4) as u32);
    push_u32(order, &mut out, configs.len() as u32);
    push_u32(order, &mut out, attributes as u32);
    push_zeros(&mut out, 16);
    let ghost head = out@;
    let start = out.len();
    let mut i: usize = 0;
    while i < configs.len()
        invariant
            i <= configs@.len(),
            start == head.len(),
            out@ == head + fb_pairs_bytes(order, configs@.subrange(0, i as int)),
        decreases configs@.len() - i,
    {
        assert(configs@.subrange(0, i + 1).drop_last() =~= configs@.subrange(0, i as int));
        push_pair_seq(order, &mut out, configs[i].as_slice());
        i = i + 1;
        assert(out@ =~= head + fb_pairs_bytes(order, configs@.subrange(0, i as int)));
    }
    assert(configs@.subrange(0, configs@.len() as int) =~= configs@);
    proof {
        lemma_fb_pairs_len(order, configs@);
    }
    let written = out.len() - start;
    push_zeros(&mut out, body - written);
    out
}

fn push_xkb_key_type(order: XByteOrder, out: &mut Vec<u8>)
    ensures
        final(out)@ == old(out)@ + xkb_key_type_bytes(order),
{
    push_byte(out, 1);
    push_byte(out, 1);
    push_u16(order, out, 0);
    push_byte(out, 2);
    push_byte(out, 1);
    push_byte(out, 0);
    push_byte(out, 0);
    push_byte(out, 1);
    push_byte(out, 1);
    push_byte(out, 1);
    push_byte(out, 1);
    push_u16(order, out, 0);
    push_byte(out, 0);
    push_byte(out, 0);
    assert(out@ =~= old(out)@ + xkb_key_type_bytes(order));
}

proof fn lemma_keysym_maps_len(order: XByteOrder, keysyms: Seq<[u32; 2]>)
    ensures
        keysym_maps_bytes(order, keysyms).len() == 16 * keysyms.len(),
    decreases keysyms.len(),
{
    if keysyms.len() > 0 {
        lemma_keysym_maps_len(order, keysyms.drop_last());
    }
}

proof fn lemma_modmap_len(modifier_map: Seq<(u8, u8)>)
    ensures
        modmap_bytes(modifier_map).len() == 2 * modifier_map.len(),
    decreases modifier_map.len(),
{
    if modifier_map.len() > 0 {
        lemma_modmap_len(modifier_map.drop_last());
    }
}

pub(crate) proof fn lemma_xkb_map_body_len(
    order: XByteOrder,
    present: u16,
    keysyms: Seq<[u32; 2]>,
    modifier_map: Seq<(u8, u8)>,
)
    ensures
        xkb_map_body(order, present, keysyms, modifier_map).len() == xkb_map_body_len(
            present,
            keysyms.len(),
            modifier_map.len(),
        ),
{
    lemma_keysym_maps_len(order, keysyms);
    lemma_modmap_len(modifier_map);
}

fn xkb_map_body_of(
    order: XByteOrder,
    present: u16,
    keysyms: &[[u32; 2]],
    modifier_map: &[(u8, u8)],
) -> (body: Vec<u8>)
    ensures
        body@ == xkb_map_body(order, present, keysyms@, modifier_map@),
{
    let mut body: Vec<u8> = Vec::new();
    if present & 1 != 0 {
        push_xkb_key_type(order, &mut body);
        push_xkb_key_type(order, &mut body);
        push_xkb_key_type(order, &mut body);
        push_xkb_key_type(order, &mut body);
    }
    if present & 2 != 0 {
        let ghost head = body@;
        let mut i: usize = 0;
        while i < keysyms.len()
            invariant
                i <= keysyms@.len(),
                body@ == head + keysym_maps_bytes(order, keysyms@.subrange(0, i as int)),
            decreases keysyms@.len() - i,
        {
            assert(keysyms@.subrange(0, i + 1).drop_last() =~= keysyms@.subrange(0, i as int));
            let syms = keysyms[i];
            push_byte(&mut body, 0);
            push_byte(&mut body, 0);
            push_byte(&mut body, 0);
            push_byte(&mut body, 0);
            push_byte(&mut body, 1);
            push_byte(&mut body, 2);
            push_u16(order, &mut body, 2);
            push_u32(order, &mut body, syms[0]);
            push_u32(order, &mut body, syms[1]);
            i = i + 1;
            assert(body@ =~= head + keysym_maps_bytes(order, keysyms@.subrange(0, i as int)));
        }
        assert(keysyms@.subrange(0, keysyms@.len() as int) =~= keysyms@);
    }
    if present & 0x10 != 0 {
        push_zeros(&mut body, keysyms.len());
        let n = body.len();
        push_padding(&mut body, n);
    }
    if present & 4 != 0 {
        let ghost head = body@;
        let mut i: usize = 0;
        while i < modifier_map.len()
            invariant
                i <= modifier_map@.len(),
                body@ == head + modmap_bytes(modifier_map@.subrange(0, i as int)),
            decreases modifier_map@.len() - i,
        {
            assert(modifier_map@.subrange(0, i + 1).drop_last() =~= modifier_map@.subrange(
                0,
                i as int,
            ));
            let (keycode, modifiers) = modifier_map[i];
            push_byte(&mut body, keycode);
            push_byte(&mut body, modifiers);
            i = i + 1;
            assert(body@ =~= head + modmap_bytes(modifier_map@.subrange(0, i as int)));
        }
        assert(modifier_map@.subrange(0, modifier_map@.len() as int) =~= modifier_map@);
        let n = body.len();
        push_padding(&mut body, n);
    }
    body
}

fn push_xkb_map_fields(out: &mut Vec<u8>, present: u16, keys: usize, mods: usize)
    ensures
        final(out)@ == old(out)@ + xkb_map_fields(present, keys as int, mods as int),
{
    let syms = present & 2 != 0;
    let modmap = present & 4 != 0;
    let actions = present & 0x10 != 0;
    let fields: [u8; 20] = [
        if syms { fit_u8_of(keys, u8::MAX) } else { 0 },
        if actions { 8 } else { 0 },
        0,
        0,
        if actions { fit_u8_of(keys, u8::MAX) } else { 0 },
        if present & 0x20 != 0 { 8 } else { 0 },
        0,
        0,
        if present & 0x08 != 0 { 8 } else { 0 },
        0,
        0,
        if modmap { 8 } else { 0 },
        if modmap { 248 } else { 0 },
        if modmap { fit_u8_of(mods, u8::MAX) } else { 0 },
        if present & 0x80 != 0 { 8 } else { 0 },
        0,
        0,
        0,
        0,
        0,
    ];
    assert(fields@ =~= xkb_map_fields(present, keys as int, mods as int));
    push_slice(out, &fields);
}

fn push_xkb_map_prelude(order: XByteOrder, out: &mut Vec<u8>, present: u16, keys: usize)
    ensures
        final(out)@ == old(out)@ + xkb_map_prelude(order, present, keys as int),
{
    let types = present & 1 != 0;
    push_byte(out, 0);
    push_byte(out, 0);
    push_byte(out, 8);
    push_byte(out, 255);
    push_u16(order, out, present);
    push_byte(out, 0);
    push_byte(out, if types { 4 } else { 0 });
    push_byte(out, if types { 4 } else { 0 });
    push_byte(out, 8);
    let sym_count: u16 = if present & 2 != 0 {
        if keys <= 32767 {
            (2 * keys) as u16
        } else {
            u16::MAX
        }
    } else {
        0
    };
    push_u16(order, out, sym_count);
    assert(out@ =~= old(out)@ + xkb_map_prelude(order, present, keys as int));
}

pub(crate) fn encode_xkb_get_map(
    order: XByteOrder,
    sequence: u16,
    present: u16,
    keysyms: &[[u32; 2]],
    modifier_map: &[(u8, u8)],
) -> (out: Vec<u8>)
    requires
        xkb_map_body_len(present, keysyms@.len(), modifier_map@.len()) + 8 <= usize::MAX,
        (xkb_map_body_len(present, keysyms@.len(), modifier_map@.len()) + 8) / 4 <= u32::MAX,
    ensures
        out@ == xkb_get_map_record(order, sequence, present, keysyms@, modifier_map@),
{
    let body = xkb_map_body_of(order, present, keysyms, modifier_map);
    proof {
        lemma_xkb_map_body_len(order, present, keysyms@, modifier_map@);
    }
    let mut out: Vec<u8> = Vec::new();
    push_reply_head(order, &mut out, 3, sequence, ((8 + body.len()) / 4) as u32);
    push_xkb_map_prelude(order, &mut out, present, keysyms.len());
    let keys = keysyms.len();
    push_xkb_map_fields(&mut out, present, keys, modifier_map.len());
    push_slice(&mut out, &body);
    out
}

fn xkb_names_body_of(
    order: XByteOrder,
    which: u32,
    component_atoms: &[u32],
    type_atoms: &[u32],
    key_names: &[[u8; 4]],
) -> (body: Vec<u8>)
    ensures
        body@ == xkb_names_body(order, which, component_atoms@, type_atoms@, key_names@),
{
    let mut body: Vec<u8> = Vec::new();
    push_u32_seq(order, &mut body, component_atoms);
    if which & 0x40 != 0 {
        push_u32_seq(order, &mut body, type_atoms);
    }
    if which & 0x80 != 0 {
        push_zeros(&mut body, type_atoms.len());
        let n = body.len();
        push_padding(&mut body, n);
    }
    if which & 0x200 != 0 {
        let ghost head = body@;
        let mut i: usize = 0;
        while i < key_names.len()
            invariant
                i <= key_names@.len(),
                body@ == head + key_names_bytes(key_names@.subrange(0, i as int)),
            decreases key_names@.len() - i,
        {
            assert(key_names@.subrange(0, i + 1).drop_last() =~= key_names@.subrange(0, i as int));
            push_slice(&mut body, &key_names[i]);
            i = i + 1;
            assert(body@ =~= head + key_names_bytes(key_names@.subrange(0, i as int)));
        }
        assert(key_names@.subrange(0, key_names@.len() as int) =~= key_names@);
    }
    body
}

pub(crate) fn encode_xkb_get_names(
    order: XByteOrder,
    sequence: u16,
    which: u32,
    min_keycode: u8,
    max_keycode: u8,
    component_atoms: &[u32],
    type_atoms: &[u32],
    key_names: &[[u8; 4]],
) -> (out: Vec<u8>)
    ensures
        out@ == xkb_get_names_record(
            order,
            sequence,
            which,
            min_keycode,
            max_keycode,
            component_atoms@,
            type_atoms@,
            key_names@,
        ),
{
    let body = xkb_names_body_of(order, which, component_atoms, type_atoms, key_names);
    let mut out: Vec<u8> = Vec::new();
    push_reply_head(order, &mut out, 3, sequence, fit_u32_of(body.len() / 4, u32::MAX));
    push_u32(order, &mut out, which);
    push_byte(&mut out, min_keycode);
    push_byte(&mut out, max_keycode);
    push_byte(&mut out, fit_u8_of(type_atoms.len(), u8::MAX));
    push_byte(&mut out, 0);
    push_byte(&mut out, 0);
    push_byte(&mut out, 0);
    push_byte(&mut out, min_keycode);
    push_byte(&mut out, fit_u8_of(key_names.len(), u8::MAX));
    push_zeros(&mut out, 12);
    push_slice(&mut out, &body);
    assert(out@ =~= xkb_get_names_record(
        order,
        sequence,
        which,
        min_keycode,
        max_keycode,
        component_atoms@,
        type_atoms@,
        key_names@,
    ));
    out
}

fn push_xi_class(order: XByteOrder, out: &mut Vec<u8>, class: &XXiDeviceClass)
    requires
        *class matches XXiDeviceClass::Button { button_count, .. } ==> button_count + 3 <= u16::MAX,
    ensures
        final(out)@ == old(out)@ + xi_class_bytes(order, *class),
{
    match class {
        XXiDeviceClass::Key { source_id, keys } => {
            push_u16(order, out, 0);
            let length: u16 = if keys.len() <= 65533 {
                (2 + keys.len()) as u16
            } else {
                u16::MAX
            };
            push_u16(order, out, length);
            push_u16(order, out, *source_id);
            push_u16(order, out, fit_u16_of(keys.len(), 0));
            push_u32_seq(order, out, keys.as_slice());
        },
        XXiDeviceClass::Button { source_id, button_count } => {
            push_u16(order, out, 1);
            push_u16(order, out, 3 + *button_count);
            push_u16(order, out, *source_id);
            push_u16(order, out, *button_count);
            push_u32(order, out, 0);
            push_zeros(out, 4 * (*button_count as usize));
        },
        XXiDeviceClass::Valuator { source_id, number, min, max } => {
            push_u16(order, out, 2);
            push_u16(order, out, 11);
            push_u16(order, out, *source_id);
            push_u16(order, out, *number);
            push_u32(order, out, 0);
            push_i64(order, out, *min);
            push_i64(order, out, *max);
            push_i64(order, out, 0);
            push_u32(order, out, 1);
            push_zeros(out, 4);
        },
    }
    assert(out@ =~= old(out)@ + xi_class_bytes(order, *class));
}

fn push_xi_classes(order: XByteOrder, out: &mut Vec<u8>, classes: &[XXiDeviceClass])
    requires
        forall|j: int|
            0 <= j < classes@.len() ==> (#[trigger] classes@[j] matches XXiDeviceClass::Button {
                button_count,
                ..
            } ==> button_count + 3 <= u16::MAX),
    ensures
        final(out)@ == old(out)@ + xi_classes_bytes(order, classes@),
{
    let mut i: usize = 0;
    while i < classes.len()
        invariant
            i <= classes@.len(),
            forall|j: int|
                0 <= j < classes@.len() ==> (#[trigger] classes@[j] matches XXiDeviceClass::Button {
                    button_count,
                    ..
                } ==> button_count + 3 <= u16::MAX),
            out@ == old(out)@ + xi_classes_bytes(order, classes@.subrange(0, i as int)),
        decreases classes@.len() - i,
    {
        assert(classes@.subrange(0, i + 1).drop_last() =~= classes@.subrange(0, i as int));
        let ghost c = classes@[i as int];
        push_xi_class(order, out, &classes[i]);
        i = i + 1;
        assert(out@ =~= old(out)@ + xi_classes_bytes(order, classes@.subrange(0, i as int)));
    }
    assert(classes@.subrange(0, classes@.len() as int) =~= classes@);
}

fn push_xi_device(order: XByteOrder, body: &mut Vec<u8>, device: &XXiDeviceInfo)
    requires
        forall|j: int|
            0 <= j < device.classes@.len() ==> (#[trigger] device.classes@[j] matches XXiDeviceClass::Button {
                button_count,
                ..
            } ==> button_count + 3 <= u16::MAX),
    ensures
        final(body)@ == pad_to_four(
            old(body)@ + xi_device_head(order, *device) + encode_utf8(device.name@),
        ) + xi_classes_bytes(order, device.classes@),
{
    let name = device.name.as_str().as_bytes();
    push_u16(order, body, device.device_id);
    push_u16(order, body, device.device_type);
    push_u16(order, body, device.attachment);
    push_u16(order, body, fit_u16_of(device.classes.len(), 0));
    push_u16(order, body, fit_u16_of(name.len(), 0));
    push_byte(body, 1);
    push_byte(body, 0);
    push_slice(body, name);
    assert(body@ =~= old(body)@ + xi_device_head(order, *device) + encode_utf8(device.name@));
    let n = body.len();
    push_padding(body, n);
    push_xi_classes(order, body, device.classes.as_slice());
}

pub(crate) fn encode_xi_query_device(order: XByteOrder, sequence: u16, devices: &[XXiDeviceInfo]) -> (out: Vec<
    u8,
>)
    requires
        xi_button_counts_fit(devices@),
    ensures
        out@ == xi_query_device_record(order, sequence, devices@),
{
    let mut body: Vec<u8> = Vec::new();
    let mut i: usize = 0;
    while i < devices.len()
        invariant
            i <= devices@.len(),
            xi_button_counts_fit(devices@),
            body@ == xi_devices_bytes(order, devices@.subrange(0, i as int)),
        decreases devices@.len() - i,
    {
        assert(devices@.subrange(0, i + 1).drop_last() =~= devices@.subrange(0, i as int));
        let ghost device = devices@[i as int];
        assert(forall|j: int|
            0 <= j < device.classes@.len() ==> (#[trigger] device.classes@[j] matches XXiDeviceClass::Button {
                button_count,
                ..
            } ==> button_count + 3 <= u16::MAX)) by {
            assert forall|j: int| 0 <= j < device.classes@.len() implies (
            #[trigger] device.classes@[j] matches XXiDeviceClass::Button { button_count, .. }
                ==> button_count + 3 <= u16::MAX) by {
                assert(devices@[i as int].classes@[j] == device.classes@[j]);
            }
        }
        push_xi_device(order, &mut body, &devices[i]);
        i = i + 1;
        assert(body@ =~= xi_devices_bytes(order, devices@.subrange(0, i as int)));
    }
    assert(devices@.subrange(0, devices@.len() as int) =~= devices@);
    let mut out: Vec<u8> = Vec::new();
    push_reply_head(
        order,
        &mut out,
        X_INPUT_QUERY_DEVICE_MINOR_OPCODE,
        sequence,
        fit_u32_of(body.len() / 4, 0),
    );
    push_u16(order, &mut out, fit_u16_of(devices.len(), 0));
    push_zeros(&mut out, 22);
    push_slice(&mut out, &body);
    out
}


pub(crate) proof fn lemma_colors_len(order: XByteOrder, pixels: Seq<u32>)
    ensures
        colors_bytes(order, pixels).len() == 8 * pixels.len(),
    decreases pixels.len(),
{
    if pixels.len() > 0 {
        lemma_colors_len(order, pixels.drop_last());
    }
}

pub(crate) proof fn lemma_visual_configs_len(order: XByteOrder, configs: Seq<[u32; 18]>)
    ensures
        visual_configs_bytes(order, configs).len() == 72 * configs.len(),
    decreases configs.len(),
{
    if configs.len() > 0 {
        lemma_visual_configs_len(order, configs.drop_last());
        lemma_u32_seq_bytes_len(order, configs.last()@);
    }
}

pub(crate) proof fn lemma_mode_infos_len(order: XByteOrder, modes: Seq<XRandrModeInfo>)
    ensures
        mode_infos_bytes(order, modes).len() == 32 * modes.len(),
    decreases modes.len(),
{
    if modes.len() > 0 {
        lemma_mode_infos_len(order, modes.drop_last());
    }
}

pub(crate) proof fn lemma_monitors_len(order: XByteOrder, monitors: Seq<XRandrMonitorInfo>)
    ensures
        monitors_bytes(order, monitors).len() == monitors_payload(monitors),
        monitors_payload(monitors) % 4 == 0,
    decreases monitors.len(),
{
    if monitors.len() > 0 {
        lemma_monitors_len(order, monitors.drop_last());
        lemma_u32_seq_bytes_len(order, monitors.last().outputs@);
    }
}

pub(crate) proof fn lemma_key_names_len(names: Seq<[u8; 4]>)
    ensures
        key_names_bytes(names).len() == 4 * names.len(),
    decreases names.len(),
{
    if names.len() > 0 {
        lemma_key_names_len(names.drop_last());
    }
}

pub(crate) proof fn lemma_xkb_names_body_aligned(
    order: XByteOrder,
    which: u32,
    component_atoms: Seq<u32>,
    type_atoms: Seq<u32>,
    key_names: Seq<[u8; 4]>,
)
    ensures
        xkb_names_body(order, which, component_atoms, type_atoms, key_names).len() % 4 == 0,
{
    lemma_u32_seq_bytes_len(order, component_atoms);
    lemma_u32_seq_bytes_len(order, type_atoms);
    lemma_key_names_len(key_names);
    let atoms = u32_seq_bytes(order, component_atoms) + if which & 0x40 != 0 {
        u32_seq_bytes(order, type_atoms)
    } else {
        Seq::empty()
    };
    lemma_pad_to_four_len(atoms + zero_bytes(type_atoms.len()));
}

pub(crate) proof fn lemma_xi_classes_aligned(order: XByteOrder, classes: Seq<XXiDeviceClass>)
    ensures
        xi_classes_bytes(order, classes).len() % 4 == 0,
    decreases classes.len(),
{
    if classes.len() > 0 {
        lemma_xi_classes_aligned(order, classes.drop_last());
        match classes.last() {
            XXiDeviceClass::Key { keys, .. } => {
                lemma_u32_seq_bytes_len(order, keys@);
            },
            _ => {},
        }
    }
}

pub(crate) proof fn lemma_xi_devices_aligned(order: XByteOrder, devices: Seq<XXiDeviceInfo>)
    ensures
        xi_devices_bytes(order, devices).len() % 4 == 0,
    decreases devices.len(),
{
    if devices.len() > 0 {
        let device = devices.last();
        lemma_xi_devices_aligned(order, devices.drop_last());
        lemma_pad_to_four_len(
            xi_devices_bytes(order, devices.drop_last()) + xi_device_head(order, device)
                + encode_utf8(device.name@),
        );
        lemma_xi_classes_aligned(order, device.classes@);
    }
}

pub(crate) proof fn lemma_xkb_map_body_aligned(
    order: XByteOrder,
    present: u16,
    keysyms: Seq<[u32; 2]>,
    modifier_map: Seq<(u8, u8)>,
)
    ensures
        xkb_map_body(order, present, keysyms, modifier_map).len() % 4 == 0,
{
    lemma_keysym_maps_len(order, keysyms);
    lemma_modmap_len(modifier_map);
    let types = if present & 1 != 0 {
        xkb_key_types_bytes(order)
    } else {
        Seq::empty()
    };
    let syms = if present & 2 != 0 {
        keysym_maps_bytes(order, keysyms)
    } else {
        Seq::empty()
    };
    let actions = if present & 0x10 != 0 {
        pad_to_four(types + syms + zero_bytes(keysyms.len()))
    } else {
        types + syms
    };
    lemma_pad_to_four_len(types + syms + zero_bytes(keysyms.len()));
    lemma_pad_to_four_len(actions + modmap_bytes(modifier_map));
}
pub open spec fn shm_get_image_record(
    order: XByteOrder,
    sequence: u16,
    depth: u8,
    visual: u32,
    size: u32,
) -> Seq<u8> {
    reply_head(order, depth, sequence, 0) + u32_bytes(order, visual) + u32_bytes(order, size)
        + zero_bytes(16)
}

pub(crate) fn encode_shm_get_image(order: XByteOrder, sequence: u16, depth: u8, visual: u32, size: u32) -> (out:
    Vec<u8>)
    ensures
        out@ == shm_get_image_record(order, sequence, depth, visual, size),
{
    let mut out: Vec<u8> = Vec::new();
    push_reply_head(order, &mut out, depth, sequence, 0);
    push_u32(order, &mut out, visual);
    push_u32(order, &mut out, size);
    push_zeros(&mut out, 16);
    out
}

/// A gamma ramp of size zero: the CRTC's gamma is not adjustable.
pub open spec fn crtc_gamma_record(order: XByteOrder, sequence: u16) -> Seq<u8> {
    reply_head(order, 0, sequence, 0) + u16_bytes(order, 0) + zero_bytes(22)
}

pub(crate) fn encode_crtc_gamma(order: XByteOrder, sequence: u16) -> (out: Vec<u8>)
    ensures
        out@ == crtc_gamma_record(order, sequence),
{
    let mut out: Vec<u8> = Vec::new();
    push_reply_head(order, &mut out, 0, sequence, 0);
    push_u16(order, &mut out, 0);
    push_zeros(&mut out, 22);
    out
}

/// One in the 16.16 fixed-point numbers a transform matrix is written in.
pub const X_FIXED_ONE: u32 = 0x0001_0000;

/// The identity transform matrix, row by row, in 16.16 fixed point.
pub open spec fn identity_matrix_values() -> Seq<u32> {
    seq![X_FIXED_ONE, 0u32, 0u32, 0u32, X_FIXED_ONE, 0u32, 0u32, 0u32, X_FIXED_ONE]
}

/// The identity as both the pending and the current transform, with no
/// filter: the only transform a CRTC has here.
pub open spec fn crtc_transform_record(order: XByteOrder, sequence: u16) -> Seq<u8> {
    reply_head(order, 0, sequence, 16) + u32_seq_bytes(order, identity_matrix_values())
        + zero_bytes(4) + u32_seq_bytes(order, identity_matrix_values()) + zero_bytes(12)
}

pub(crate) fn encode_crtc_transform(order: XByteOrder, sequence: u16) -> (out: Vec<u8>)
    ensures
        out@ == crtc_transform_record(order, sequence),
{
    let identity: [u32; 9] = [X_FIXED_ONE, 0, 0, 0, X_FIXED_ONE, 0, 0, 0, X_FIXED_ONE];
    assert(identity@ == identity_matrix_values());
    let mut out: Vec<u8> = Vec::new();
    push_reply_head(order, &mut out, 0, sequence, 16);
    push_u32_seq(order, &mut out, identity.as_slice());
    push_zeros(&mut out, 4);
    push_u32_seq(order, &mut out, identity.as_slice());
    push_zeros(&mut out, 12);
    out
}

/// Zero-sized panning and tracking areas: panning is off for the CRTC.
pub open spec fn panning_record(order: XByteOrder, sequence: u16, timestamp: u32) -> Seq<u8> {
    reply_head(order, 0, sequence, 1) + u32_bytes(order, timestamp) + zero_bytes(24)
}

pub(crate) fn encode_panning(order: XByteOrder, sequence: u16, timestamp: u32) -> (out: Vec<u8>)
    ensures
        out@ == panning_record(order, sequence, timestamp),
{
    let mut out: Vec<u8> = Vec::new();
    push_reply_head(order, &mut out, 0, sequence, 1);
    push_u32(order, &mut out, timestamp);
    push_zeros(&mut out, 24);
    out
}

/// No system counters.
pub open spec fn list_system_counters_record(order: XByteOrder, sequence: u16) -> Seq<u8> {
    reply_head(order, 0, sequence, 0) + u32_bytes(order, 0) + zero_bytes(20)
}

pub(crate) fn encode_list_system_counters(order: XByteOrder, sequence: u16) -> (out: Vec<u8>)
    ensures
        out@ == list_system_counters_record(order, sequence),
{
    let mut out: Vec<u8> = Vec::new();
    push_reply_head(order, &mut out, 0, sequence, 0);
    push_u32(order, &mut out, 0);
    push_zeros(&mut out, 20);
    out
}

/// A counter's 64-bit value, high word first.
pub open spec fn query_counter_record(order: XByteOrder, sequence: u16, value: i64) -> Seq<u8> {
    reply_head(order, 0, sequence, 0) + u32_bytes(order, (value >> 32u64) as u32) + u32_bytes(
        order,
        value as u32,
    ) + zero_bytes(16)
}

pub(crate) fn encode_query_counter(order: XByteOrder, sequence: u16, value: i64) -> (out: Vec<u8>)
    ensures
        out@ == query_counter_record(order, sequence, value),
{
    let mut out: Vec<u8> = Vec::new();
    push_reply_head(order, &mut out, 0, sequence, 0);
    push_u32(order, &mut out, (value >> 32u64) as u32);
    push_u32(order, &mut out, value as u32);
    push_zeros(&mut out, 16);
    out
}

} // verus!
