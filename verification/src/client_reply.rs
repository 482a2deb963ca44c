//! The replies the server answers X requests with, and their wire records.
use vstd::prelude::*;

use crate::client_output::{
    XClientError, XClientEvent, XRandrModeInfo, XRandrMonitorInfo, XXiDeviceInfo,
    encode_font_info_reply, encode_x_client_error, encode_x_client_event, error_record,
    event_record, font_info_length_units, font_info_reply, optional_raw_xid, optional_raw_xid_of, raw_xid, raw_xid_of,
};
use crate::extensions::{
    X_INPUT_GET_EXTENSION_VERSION_MINOR_OPCODE, X_INPUT_GET_FOCUS_MINOR_OPCODE,
    X_INPUT_QUERY_DEVICE_MINOR_OPCODE, X_INPUT_GET_PROPERTY_MINOR_OPCODE,
    X_INPUT_QUERY_VERSION_MINOR_OPCODE,
};
use crate::geometry::Rect;
use crate::reply_bytes::{
    fit_i16, fit_u16, fit_u32, lemma_padded, lemma_pair_seq_bytes_len, lemma_u32_seq_bytes_len,
    lemma_u64_seq_bytes_len, lemma_xid_seq_bytes_len, push_slice, reply_head,
};
use crate::reply_records::{
    alloc_color_record, alloc_named_color_record, crtc_gamma_record, crtc_transform_record,
    encode_crtc_gamma, encode_crtc_transform, encode_list_system_counters, encode_panning,
    encode_query_counter, encode_shm_get_image, identity_matrix_values, list_system_counters_record,
    panning_record, query_counter_record, shm_get_image_record, color_bytes, colors_bytes, crtc_gamma_size_record,
    crtc_info_record, dot_clock, drawable_attributes_record, dri3_modifiers_record, empty_record,
    encode_alloc_color, encode_alloc_named_color, encode_crtc_gamma_size, encode_crtc_info,
    encode_drawable_attributes, encode_dri3_modifiers, encode_empty, encode_fb_configs,
    encode_get_atom_name, encode_get_geometry, encode_get_image, encode_get_keyboard_control,
    encode_get_keyboard_mapping, encode_get_modifier_mapping, encode_get_property,
    encode_get_window_attributes, encode_glx_is_direct, encode_glx_string, encode_list_fonts,
    encode_list_fonts_with_info, encode_list_properties, encode_monitors, encode_output_info,
    encode_output_property, encode_query_colors, encode_query_extension, encode_query_pointer,
    encode_query_tree, encode_screen_resources, encode_screen_size_range, encode_shm_query_version,
    encode_short_pair, encode_sync_initialize, encode_translate_coordinates, encode_visual_configs,
    encode_word, encode_word_pair, encode_xi_get_client_pointer, encode_xi_get_extension_version,
    encode_xi_query_device, encode_xi_query_pointer, encode_xkb_get_controls,
    encode_xkb_get_device_info, encode_xkb_get_map, encode_xkb_get_names, encode_xkb_get_state,
    fb_attribute_count, fb_configs_record, fb_pair_count, fb_pairs_bytes, flag, font_infos_bytes,
    font_names_bytes, get_atom_name_record, get_geometry_record, get_image_record,
    get_keyboard_control_record, get_keyboard_mapping_record, get_modifier_mapping_record,
    get_property_record, get_window_attributes_record, glx_is_direct_record, glx_string_record,
    key_names_bytes, keysym_map_bytes, keysym_maps_bytes, lemma_colors_len, lemma_fb_pairs_len,
    lemma_mode_infos_len, lemma_monitors_len, lemma_visual_configs_len, lemma_xi_devices_aligned,
    lemma_xkb_map_body_aligned, lemma_xkb_names_body_aligned, list_fonts_record,
    list_fonts_with_info_record, list_properties_record, mode_info_bytes, mode_infos_bytes,
    mode_names_bytes, modmap_bytes, monitor_bytes, monitor_outputs_total, monitors_bytes,
    monitors_payload, monitors_record, output_info_payload, output_info_record,
    output_property_items, output_property_record, query_colors_record, query_extension_record,
    query_pointer_record, query_tree_record, screen_resources_payload, screen_resources_record,
    screen_size_range_record, shm_query_version_record, short_pair_record, sync_initialize_record,
    translate_coordinates_record, visual_configs_bytes, visual_configs_record, word_pair_record,
    word_record, xi_button_counts_fit, xi_class_bytes, xi_classes_bytes, xi_device_head,
    xi_devices_bytes, xi_get_client_pointer_record, xi_get_extension_version_record,
    xi_query_device_record, xi_query_pointer_record, xkb_get_controls_record,
    xkb_get_device_info_record, xkb_get_map_record, xkb_get_names_record, xkb_get_state_record,
    xkb_key_type_bytes, xkb_key_types_bytes, xkb_map_body, xkb_map_body_len, xkb_map_fields,
    xkb_map_prelude, xkb_names_body,
};
use crate::resource::XResourceId;
use crate::wire::{
    lemma_u16_at_written, lemma_u16_bytes_len, lemma_u32_bytes_len,
    XByteOrder, law_u16_read_inverts_write, law_u32_read_inverts_write, spec_padded_len, u16_at,
    u16_bytes, u32_at, u32_bytes,
};
use vstd::utf8::encode_utf8;

verus! {

/// A reply to one X request.
#[derive(Clone, Debug, PartialEq, Eq)]
pub enum XClientReply {
    GrabStatus { sequence: u16, status: u8 },
    InternAtom { sequence: u16, atom: u32 },
    GetAtomName { sequence: u16, name: String },
    GetGeometry { sequence: u16, depth: u8, root: XResourceId, geometry: Rect, border_width: u16 },
    GetImage { sequence: u16, depth: u8, visual: u32, data: Vec<u8> },
    QueryTree { sequence: u16, root: XResourceId, parent: XResourceId, children: Vec<XResourceId> },
    GetWindowAttributes {
        sequence: u16,
        visual: u32,
        colormap: XResourceId,
        map_state: u8,
        override_redirect: bool,
    },
    QueryExtension { sequence: u16, present: bool, major_opcode: u8, first_event: u8, first_error: u8 },
    ListExtensions { sequence: u16 },
    ListFonts { sequence: u16, names: Vec<String> },
    ListFontsWithInfo { sequence: u16, names: Vec<String> },
    QueryBestSize { sequence: u16, width: u16, height: u16 },
    ShmQueryVersion {
        sequence: u16,
        major_version: u16,
        minor_version: u16,
        shared_pixmaps: bool,
        pixmap_format: u8,
    },
    ShmGetImage { sequence: u16, depth: u8, visual: u32, size: u32 },
    Dri3QueryVersion { sequence: u16, major_version: u32, minor_version: u32 },
    Dri3Open { sequence: u16 },
    Dri3GetSupportedModifiers { sequence: u16, window_modifiers: Vec<u64>, screen_modifiers: Vec<u64> },
    XfixesQueryVersion { sequence: u16, major_version: u32, minor_version: u32 },
    PresentQueryVersion { sequence: u16, major_version: u32, minor_version: u32 },
    PresentQueryCapabilities { sequence: u16, capabilities: u32 },
    RandrQueryVersion { sequence: u16, major_version: u32, minor_version: u32 },
    RandrGetScreenSizeRange {
        sequence: u16,
        min_width: u16,
        min_height: u16,
        max_width: u16,
        max_height: u16,
    },
    RandrGetScreenResources {
        sequence: u16,
        timestamp: u32,
        crtcs: Vec<u32>,
        outputs: Vec<u32>,
        modes: Vec<XRandrModeInfo>,
    },
    RandrGetOutputInfo {
        sequence: u16,
        timestamp: u32,
        crtc: u32,
        mm_width: u32,
        mm_height: u32,
        crtcs: Vec<u32>,
        modes: Vec<u32>,
        name: Vec<u8>,
    },
    RandrGetOutputProperty {
        sequence: u16,
        property_type: u32,
        bytes_after: u32,
        format: u8,
        data: Vec<u8>,
    },
    RandrGetCrtcInfo {
        sequence: u16,
        timestamp: u32,
        x: i16,
        y: i16,
        width: u16,
        height: u16,
        mode: u32,
        outputs: Vec<u32>,
    },
    RandrGetCrtcGammaSize { sequence: u16, size: u16 },
    RandrGetCrtcGamma { sequence: u16 },
    RandrGetCrtcTransform { sequence: u16 },
    RandrGetPanning { sequence: u16, timestamp: u32 },
    RandrGetOutputPrimary { sequence: u16, output: u32 },
    RandrGetProviders { sequence: u16, timestamp: u32 },
    RandrGetMonitors { sequence: u16, timestamp: u32, monitors: Vec<XRandrMonitorInfo> },
    XkbUseExtension { sequence: u16, supported: bool, server_major: u16, server_minor: u16 },
    GlxQueryVersion { sequence: u16, major_version: u32, minor_version: u32 },
    GlxString { sequence: u16, value: String },
    GlxVisualConfigs { sequence: u16, configs: Vec<[u32; 18]> },
    GlxFbConfigs { sequence: u16, configs: Vec<Vec<(u32, u32)>> },
    GlxIsDirect { sequence: u16, direct: bool },
    GlxDrawableAttributes { sequence: u16, attributes: Vec<(u32, u32)> },
    SyncInitialize { sequence: u16, major_version: u8, minor_version: u8 },
    SyncListSystemCounters { sequence: u16 },
    SyncQueryCounter { sequence: u16, value: i64 },
    XkbGetMap { sequence: u16, present: u16, keysyms: Vec<[u32; 2]>, modifier_map: Vec<(u8, u8)> },
    XkbGetCompatMap { sequence: u16, device_id: u8 },
    XkbGetIndicatorMap { sequence: u16, device_id: u8 },
    XkbGetState { sequence: u16, modifiers: u8 },
    XkbGetControls { sequence: u16 },
    XkbGetNames {
        sequence: u16,
        which: u32,
        min_keycode: u8,
        max_keycode: u8,
        component_atoms: Vec<u32>,
        type_atoms: Vec<u32>,
        key_names: Vec<[u8; 4]>,
    },
    XkbGetDeviceInfo { sequence: u16, device_id: u8, supported: u16, unsupported: u16 },
    XkbPerClientFlags { sequence: u16, supported: u32, value: u32 },
    XiQueryVersion { sequence: u16, major_version: u16, minor_version: u16 },
    GeQueryVersion { sequence: u16, major_version: u16, minor_version: u16 },
    XiGetClientPointer { sequence: u16, device_id: u16 },
    XiGetExtensionVersion { sequence: u16, server_major: u16, server_minor: u16 },
    XiQueryDevice { sequence: u16, devices: Vec<XXiDeviceInfo> },
    XiQueryPointer { sequence: u16, root: XResourceId, child: XResourceId },
    XiGetFocus { sequence: u16, focus: XResourceId },
    XiGetProperty { sequence: u16 },
    BigRequestsEnable { sequence: u16, maximum_request_length: u32 },
    GetInputFocus { sequence: u16, focus: XResourceId, revert_to: u8 },
    QueryPointer {
        sequence: u16,
        root: XResourceId,
        child: XResourceId,
        root_x: i16,
        root_y: i16,
        win_x: i16,
        win_y: i16,
        mask: u16,
    },
    GetModifierMapping { sequence: u16, keycodes_per_modifier: u8, keycodes: Vec<u8> },
    GetKeyboardMapping { sequence: u16, keysyms_per_keycode: u8, keysyms: Vec<u32> },
    GetKeyboardControl { sequence: u16 },
    TranslateCoordinates {
        sequence: u16,
        same_screen: bool,
        child: Option<XResourceId>,
        dst_x: i16,
        dst_y: i16,
    },
    QueryFont { sequence: u16, font_ascent: i16, font_descent: i16 },
    GetProperty {
        sequence: u16,
        property_type: u32,
        format: u8,
        bytes_after: u32,
        item_count: u32,
        bytes: Vec<u8>,
    },
    GetSelectionOwner { sequence: u16, owner: Option<XResourceId> },
    AllocNamedColor { sequence: u16, pixel: u32, red: u16, green: u16, blue: u16 },
    AllocColor { sequence: u16, pixel: u32, red: u16, green: u16, blue: u16 },
    ListProperties { sequence: u16, atoms: Vec<u32> },
    QueryColors { sequence: u16, pixels: Vec<u32> },
}

/// The wire record a client receives for `reply`.
pub open spec fn reply_record(order: XByteOrder, reply: XClientReply) -> Seq<u8> {
    match reply {
        XClientReply::GrabStatus { sequence, status } => empty_record(order, sequence, status),
        XClientReply::InternAtom { sequence, atom } => word_record(order, sequence, 0, atom),
        XClientReply::GetAtomName { sequence, name } => get_atom_name_record(
            order,
            sequence,
            encode_utf8(name@),
        ),
        XClientReply::GetGeometry { sequence, depth, root, geometry, border_width } =>
            get_geometry_record(order, sequence, depth, root, geometry, border_width),
        XClientReply::GetImage { sequence, depth, visual, data } => get_image_record(
            order,
            sequence,
            depth,
            visual,
            data@,
        ),
        XClientReply::QueryTree { sequence, root, parent, children } => query_tree_record(
            order,
            sequence,
            root,
            parent,
            children@,
        ),
        XClientReply::GetWindowAttributes {
            sequence,
            visual,
            colormap,
            map_state,
            override_redirect,
        } => get_window_attributes_record(
            order,
            sequence,
            visual,
            colormap,
            map_state,
            override_redirect,
        ),
        XClientReply::QueryExtension {
            sequence,
            present,
            major_opcode,
            first_event,
            first_error,
        } => query_extension_record(order, sequence, present, major_opcode, first_event, first_error),
        XClientReply::ListExtensions { sequence } => empty_record(order, sequence, 0),
        XClientReply::ListFonts { sequence, names } => list_fonts_record(order, sequence, names@),
        XClientReply::ListFontsWithInfo { sequence, names } => list_fonts_with_info_record(
            order,
            sequence,
            names@,
        ),
        XClientReply::QueryBestSize { sequence, width, height } => short_pair_record(
            order,
            sequence,
            0,
            width,
            height,
        ),
        XClientReply::ShmQueryVersion {
            sequence,
            major_version,
            minor_version,
            shared_pixmaps,
            pixmap_format,
        } => shm_query_version_record(
            order,
            sequence,
            major_version,
            minor_version,
            shared_pixmaps,
            pixmap_format,
        ),
        XClientReply::ShmGetImage { sequence, depth, visual, size } => shm_get_image_record(
            order,
            sequence,
            depth,
            visual,
            size,
        ),
        XClientReply::Dri3QueryVersion { sequence, major_version, minor_version } =>
            word_pair_record(order, sequence, 0, major_version, minor_version),
        XClientReply::Dri3Open { sequence } => empty_record(order, sequence, 1),
        XClientReply::Dri3GetSupportedModifiers { sequence, window_modifiers, screen_modifiers } =>
            dri3_modifiers_record(order, sequence, window_modifiers@, screen_modifiers@),
        XClientReply::XfixesQueryVersion { sequence, major_version, minor_version } =>
            word_pair_record(order, sequence, 0, major_version, minor_version),
        XClientReply::PresentQueryVersion { sequence, major_version, minor_version } =>
            word_pair_record(order, sequence, 0, major_version, minor_version),
        XClientReply::PresentQueryCapabilities { sequence, capabilities } => word_record(
            order,
            sequence,
            0,
            capabilities,
        ),
        XClientReply::RandrQueryVersion { sequence, major_version, minor_version } =>
            word_pair_record(order, sequence, 0, major_version, minor_version),
        XClientReply::RandrGetScreenSizeRange {
            sequence,
            min_width,
            min_height,
            max_width,
            max_height,
        } => screen_size_range_record(order, sequence, min_width, min_height, max_width, max_height),
        XClientReply::RandrGetScreenResources { sequence, timestamp, crtcs, outputs, modes } =>
            screen_resources_record(order, sequence, timestamp, crtcs@, outputs@, modes@),
        XClientReply::RandrGetOutputInfo {
            sequence,
            timestamp,
            crtc,
            mm_width,
            mm_height,
            crtcs,
            modes,
            name,
        } => output_info_record(
            order,
            sequence,
            timestamp,
            crtc,
            mm_width,
            mm_height,
            crtcs@,
            modes@,
            name@,
        ),
        XClientReply::RandrGetOutputProperty {
            sequence,
            property_type,
            bytes_after,
            format,
            data,
        } => output_property_record(order, sequence, property_type, bytes_after, format, data@),
        XClientReply::RandrGetCrtcInfo { sequence, timestamp, x, y, width, height, mode, outputs } =>
            crtc_info_record(order, sequence, timestamp, x, y, width, height, mode, outputs@),
        XClientReply::RandrGetCrtcGammaSize { sequence, size } => crtc_gamma_size_record(
            order,
            sequence,
            size,
        ),
        XClientReply::RandrGetCrtcGamma { sequence } => crtc_gamma_record(order, sequence),
        XClientReply::RandrGetCrtcTransform { sequence } => crtc_transform_record(order, sequence),
        XClientReply::RandrGetPanning { sequence, timestamp } => panning_record(
            order,
            sequence,
            timestamp,
        ),
        XClientReply::RandrGetOutputPrimary { sequence, output } => word_record(
            order,
            sequence,
            0,
            output,
        ),
        XClientReply::RandrGetProviders { sequence, timestamp } => word_record(
            order,
            sequence,
            0,
            timestamp,
        ),
        XClientReply::RandrGetMonitors { sequence, timestamp, monitors } => monitors_record(
            order,
            sequence,
            timestamp,
            monitors@,
        ),
        XClientReply::XkbUseExtension { sequence, supported, server_major, server_minor } =>
            short_pair_record(order, sequence, flag(supported), server_major, server_minor),
        XClientReply::GlxQueryVersion { sequence, major_version, minor_version } =>
            word_pair_record(order, sequence, 0, major_version, minor_version),
        XClientReply::GlxString { sequence, value } => glx_string_record(
            order,
            sequence,
            encode_utf8(value@),
        ),
        XClientReply::GlxVisualConfigs { sequence, configs } => visual_configs_record(
            order,
            sequence,
            configs@,
        ),
        XClientReply::GlxFbConfigs { sequence, configs } => fb_configs_record(
            order,
            sequence,
            configs@,
        ),
        XClientReply::GlxIsDirect { sequence, direct } => glx_is_direct_record(
            order,
            sequence,
            direct,
        ),
        XClientReply::GlxDrawableAttributes { sequence, attributes } =>
            drawable_attributes_record(order, sequence, attributes@),
        XClientReply::SyncInitialize { sequence, major_version, minor_version } =>
            sync_initialize_record(order, sequence, major_version, minor_version),
        XClientReply::SyncListSystemCounters { sequence } => list_system_counters_record(
            order,
            sequence,
        ),
        XClientReply::SyncQueryCounter { sequence, value } => query_counter_record(
            order,
            sequence,
            value,
        ),
        XClientReply::XkbGetMap { sequence, present, keysyms, modifier_map } => xkb_get_map_record(
            order,
            sequence,
            present,
            keysyms@,
            modifier_map@,
        ),
        XClientReply::XkbGetCompatMap { sequence, device_id } => empty_record(
            order,
            sequence,
            device_id,
        ),
        XClientReply::XkbGetIndicatorMap { sequence, device_id } => empty_record(
            order,
            sequence,
            device_id,
        ),
        XClientReply::XkbGetState { sequence, modifiers } => xkb_get_state_record(
            order,
            sequence,
            modifiers,
        ),
        XClientReply::XkbGetControls { sequence } => xkb_get_controls_record(order, sequence),
        XClientReply::XkbGetNames {
            sequence,
            which,
            min_keycode,
            max_keycode,
            component_atoms,
            type_atoms,
            key_names,
        } => xkb_get_names_record(
            order,
            sequence,
            which,
            min_keycode,
            max_keycode,
            component_atoms@,
            type_atoms@,
            key_names@,
        ),
        XClientReply::XkbGetDeviceInfo { sequence, device_id, supported, unsupported } =>
            xkb_get_device_info_record(order, sequence, device_id, supported, unsupported),
        XClientReply::XkbPerClientFlags { sequence, supported, value } => word_pair_record(
            order,
            sequence,
            3,
            supported,
            value,
        ),
        XClientReply::XiQueryVersion { sequence, major_version, minor_version } =>
            short_pair_record(
            order,
            sequence,
            X_INPUT_QUERY_VERSION_MINOR_OPCODE,
            major_version,
            minor_version,
        ),
        XClientReply::GeQueryVersion { sequence, major_version, minor_version } =>
            short_pair_record(order, sequence, 0, major_version, minor_version),
        XClientReply::XiGetClientPointer { sequence, device_id } => xi_get_client_pointer_record(
            order,
            sequence,
            device_id,
        ),
        XClientReply::XiGetExtensionVersion { sequence, server_major, server_minor } =>
            xi_get_extension_version_record(order, sequence, server_major, server_minor),
        XClientReply::XiQueryDevice { sequence, devices } => xi_query_device_record(
            order,
            sequence,
            devices@,
        ),
        XClientReply::XiQueryPointer { sequence, root, child } => xi_query_pointer_record(
            order,
            sequence,
            root,
            child,
        ),
        XClientReply::XiGetFocus { sequence, focus } => word_record(
            order,
            sequence,
            X_INPUT_GET_FOCUS_MINOR_OPCODE,
            raw_xid(focus),
        ),
        XClientReply::XiGetProperty { sequence } => empty_record(
            order,
            sequence,
            X_INPUT_GET_PROPERTY_MINOR_OPCODE,
        ),
        XClientReply::BigRequestsEnable { sequence, maximum_request_length } => word_record(
            order,
            sequence,
            0,
            maximum_request_length,
        ),
        XClientReply::GetInputFocus { sequence, focus, revert_to } => word_record(
            order,
            sequence,
            revert_to,
            raw_xid(focus),
        ),
        XClientReply::QueryPointer {
            sequence,
            root,
            child,
            root_x,
            root_y,
            win_x,
            win_y,
            mask,
        } => query_pointer_record(order, sequence, root, child, root_x, root_y, win_x, win_y, mask),
        XClientReply::GetModifierMapping { sequence, keycodes_per_modifier, keycodes } =>
            get_modifier_mapping_record(order, sequence, keycodes_per_modifier, keycodes@),
        XClientReply::GetKeyboardMapping { sequence, keysyms_per_keycode, keysyms } =>
            get_keyboard_mapping_record(order, sequence, keysyms_per_keycode, keysyms@),
        XClientReply::GetKeyboardControl { sequence } => get_keyboard_control_record(
            order,
            sequence,
        ),
        XClientReply::TranslateCoordinates { sequence, same_screen, child, dst_x, dst_y } =>
            translate_coordinates_record(order, sequence, same_screen, child, dst_x, dst_y),
        XClientReply::QueryFont { sequence, font_ascent, font_descent } => font_info_reply(
            order,
            sequence,
            font_ascent,
            font_descent,
            Seq::empty(),
        ),
        XClientReply::GetProperty {
            sequence,
            property_type,
            format,
            bytes_after,
            item_count,
            bytes,
        } => get_property_record(
            order,
            sequence,
            property_type,
            format,
            bytes_after,
            item_count,
            bytes@,
        ),
        XClientReply::GetSelectionOwner { sequence, owner } => word_record(
            order,
            sequence,
            0,
            optional_raw_xid(owner),
        ),
        XClientReply::AllocNamedColor { sequence, pixel, red, green, blue } =>
            alloc_named_color_record(order, sequence, pixel, red, green, blue),
        XClientReply::AllocColor { sequence, pixel, red, green, blue } => alloc_color_record(
            order,
            sequence,
            pixel,
            red,
            green,
            blue,
        ),
        XClientReply::ListProperties { sequence, atoms } => list_properties_record(
            order,
            sequence,
            atoms@,
        ),
        XClientReply::QueryColors { sequence, pixels } => query_colors_record(
            order,
            sequence,
            pixels@,
        ),
    }
}

/// Whether `reply` can be written: its lengths fit the machine's and the
/// protocol's count fields where writing them would otherwise overflow, and
/// every framebuffer configuration holds no more attributes than the first.
pub open spec fn reply_encodable(reply: XClientReply) -> bool {
    match reply {
        XClientReply::ListFontsWithInfo { names, .. } => forall|i: int|
            0 <= i < names@.len() ==> encode_utf8(#[trigger] names@[i]@).len() + 63 <= usize::MAX,
        XClientReply::Dri3GetSupportedModifiers { window_modifiers, screen_modifiers, .. } => 8 * (
        window_modifiers@.len() + screen_modifiers@.len()) + 32 <= usize::MAX,
        XClientReply::RandrGetScreenResources { crtcs, outputs, modes, .. } =>
            screen_resources_payload(crtcs@.len(), outputs@.len(), modes@) + 35 <= usize::MAX,
        XClientReply::RandrGetOutputInfo { crtcs, modes, name, .. } => output_info_payload(
            crtcs@.len(),
            modes@.len(),
            name@.len(),
        ) + 39 <= usize::MAX,
        XClientReply::RandrGetCrtcInfo { outputs, .. } => 8 * outputs@.len() + 32 <= usize::MAX,
        XClientReply::RandrGetMonitors { monitors, .. } => monitors_payload(monitors@) + 32
            <= usize::MAX && monitor_outputs_total(monitors@) <= u32::MAX,
        XClientReply::GlxString { value, .. } => encode_utf8(value@).len() + 36 <= usize::MAX,
        XClientReply::GlxVisualConfigs { configs, .. } => 72 * configs@.len() + 32 <= usize::MAX,
        XClientReply::GlxFbConfigs { configs, .. } => 8 * configs@.len() * fb_attribute_count(
            configs@,
        ) + 32 <= usize::MAX && fb_pair_count(configs@) <= configs@.len() * fb_attribute_count(
            configs@,
        ),
        XClientReply::GlxDrawableAttributes { attributes, .. } => 8 * attributes@.len() + 32
            <= usize::MAX,
        XClientReply::XkbGetMap { present, keysyms, modifier_map, .. } => xkb_map_body_len(
            present,
            keysyms@.len(),
            modifier_map@.len(),
        ) + 8 <= usize::MAX && (xkb_map_body_len(present, keysyms@.len(), modifier_map@.len())
            + 8) / 4 <= u32::MAX,
        XClientReply::XiQueryDevice { devices, .. } => xi_button_counts_fit(devices@),
        XClientReply::QueryColors { pixels, .. } => 8 * pixels@.len() + 32 <= usize::MAX,
        _ => true,
    }
}

/// The sequence number of the request `reply` answers.
pub open spec fn reply_sequence(reply: XClientReply) -> u16 {
    match reply {
        XClientReply::GrabStatus { sequence, .. } => sequence,
        XClientReply::InternAtom { sequence, .. } => sequence,
        XClientReply::GetAtomName { sequence, .. } => sequence,
        XClientReply::GetGeometry { sequence, .. } => sequence,
        XClientReply::GetImage { sequence, .. } => sequence,
        XClientReply::QueryTree { sequence, .. } => sequence,
        XClientReply::GetWindowAttributes { sequence, .. } => sequence,
        XClientReply::QueryExtension { sequence, .. } => sequence,
        XClientReply::ListExtensions { sequence, .. } => sequence,
        XClientReply::ListFonts { sequence, .. } => sequence,
        XClientReply::ListFontsWithInfo { sequence, .. } => sequence,
        XClientReply::QueryBestSize { sequence, .. } => sequence,
        XClientReply::ShmQueryVersion { sequence, .. } => sequence,
        XClientReply::ShmGetImage { sequence, .. } => sequence,
        XClientReply::Dri3QueryVersion { sequence, .. } => sequence,
        XClientReply::Dri3Open { sequence, .. } => sequence,
        XClientReply::Dri3GetSupportedModifiers { sequence, .. } => sequence,
        XClientReply::XfixesQueryVersion { sequence, .. } => sequence,
        XClientReply::PresentQueryVersion { sequence, .. } => sequence,
        XClientReply::PresentQueryCapabilities { sequence, .. } => sequence,
        XClientReply::RandrQueryVersion { sequence, .. } => sequence,
        XClientReply::RandrGetScreenSizeRange { sequence, .. } => sequence,
        XClientReply::RandrGetScreenResources { sequence, .. } => sequence,
        XClientReply::RandrGetOutputInfo { sequence, .. } => sequence,
        XClientReply::RandrGetOutputProperty { sequence, .. } => sequence,
        XClientReply::RandrGetCrtcInfo { sequence, .. } => sequence,
        XClientReply::RandrGetCrtcGammaSize { sequence, .. } => sequence,
        XClientReply::RandrGetCrtcGamma { sequence, .. } => sequence,
        XClientReply::RandrGetCrtcTransform { sequence, .. } => sequence,
        XClientReply::RandrGetPanning { sequence, .. } => sequence,
        XClientReply::RandrGetOutputPrimary { sequence, .. } => sequence,
        XClientReply::RandrGetProviders { sequence, .. } => sequence,
        XClientReply::RandrGetMonitors { sequence, .. } => sequence,
        XClientReply::XkbUseExtension { sequence, .. } => sequence,
        XClientReply::GlxQueryVersion { sequence, .. } => sequence,
        XClientReply::GlxString { sequence, .. } => sequence,
        XClientReply::GlxVisualConfigs { sequence, .. } => sequence,
        XClientReply::GlxFbConfigs { sequence, .. } => sequence,
        XClientReply::GlxIsDirect { sequence, .. } => sequence,
        XClientReply::GlxDrawableAttributes { sequence, .. } => sequence,
        XClientReply::SyncInitialize { sequence, .. } => sequence,
        XClientReply::SyncListSystemCounters { sequence, .. } => sequence,
        XClientReply::SyncQueryCounter { sequence, .. } => sequence,
        XClientReply::XkbGetMap { sequence, .. } => sequence,
        XClientReply::XkbGetCompatMap { sequence, .. } => sequence,
        XClientReply::XkbGetIndicatorMap { sequence, .. } => sequence,
        XClientReply::XkbGetState { sequence, .. } => sequence,
        XClientReply::XkbGetControls { sequence, .. } => sequence,
        XClientReply::XkbGetNames { sequence, .. } => sequence,
        XClientReply::XkbGetDeviceInfo { sequence, .. } => sequence,
        XClientReply::XkbPerClientFlags { sequence, .. } => sequence,
        XClientReply::XiQueryVersion { sequence, .. } => sequence,
        XClientReply::GeQueryVersion { sequence, .. } => sequence,
        XClientReply::XiGetClientPointer { sequence, .. } => sequence,
        XClientReply::XiGetExtensionVersion { sequence, .. } => sequence,
        XClientReply::XiQueryDevice { sequence, .. } => sequence,
        XClientReply::XiQueryPointer { sequence, .. } => sequence,
        XClientReply::XiGetFocus { sequence, .. } => sequence,
        XClientReply::XiGetProperty { sequence, .. } => sequence,
        XClientReply::BigRequestsEnable { sequence, .. } => sequence,
        XClientReply::GetInputFocus { sequence, .. } => sequence,
        XClientReply::QueryPointer { sequence, .. } => sequence,
        XClientReply::GetModifierMapping { sequence, .. } => sequence,
        XClientReply::GetKeyboardMapping { sequence, .. } => sequence,
        XClientReply::GetKeyboardControl { sequence, .. } => sequence,
        XClientReply::TranslateCoordinates { sequence, .. } => sequence,
        XClientReply::QueryFont { sequence, .. } => sequence,
        XClientReply::GetProperty { sequence, .. } => sequence,
        XClientReply::GetSelectionOwner { sequence, .. } => sequence,
        XClientReply::AllocNamedColor { sequence, .. } => sequence,
        XClientReply::AllocColor { sequence, .. } => sequence,
        XClientReply::ListProperties { sequence, .. } => sequence,
        XClientReply::QueryColors { sequence, .. } => sequence,
    }
}

/// Which of the encoders below writes `reply`.
pub open spec fn reply_group(reply: XClientReply) -> u8 {
    match reply {
        XClientReply::GrabStatus { .. } => 0,
        XClientReply::InternAtom { .. } => 0,
        XClientReply::GetAtomName { .. } => 0,
        XClientReply::GetGeometry { .. } => 0,
        XClientReply::GetImage { .. } => 0,
        XClientReply::QueryTree { .. } => 0,
        XClientReply::GetWindowAttributes { .. } => 0,
        XClientReply::QueryExtension { .. } => 0,
        XClientReply::ListExtensions { .. } => 0,
        XClientReply::ListFonts { .. } => 0,
        XClientReply::ListFontsWithInfo { .. } => 0,
        XClientReply::QueryBestSize { .. } => 0,
        XClientReply::ShmQueryVersion { .. } => 1,
        XClientReply::ShmGetImage { .. } => 1,
        XClientReply::Dri3QueryVersion { .. } => 1,
        XClientReply::Dri3Open { .. } => 1,
        XClientReply::Dri3GetSupportedModifiers { .. } => 1,
        XClientReply::XfixesQueryVersion { .. } => 1,
        XClientReply::PresentQueryVersion { .. } => 1,
        XClientReply::PresentQueryCapabilities { .. } => 1,
        XClientReply::RandrQueryVersion { .. } => 1,
        XClientReply::RandrGetScreenSizeRange { .. } => 1,
        XClientReply::RandrGetScreenResources { .. } => 1,
        XClientReply::RandrGetOutputInfo { .. } => 1,
        XClientReply::RandrGetOutputProperty { .. } => 1,
        XClientReply::RandrGetCrtcInfo { .. } => 1,
        XClientReply::RandrGetCrtcGammaSize { .. } => 1,
        XClientReply::RandrGetCrtcGamma { .. } => 1,
        XClientReply::RandrGetCrtcTransform { .. } => 1,
        XClientReply::RandrGetPanning { .. } => 1,
        XClientReply::RandrGetOutputPrimary { .. } => 1,
        XClientReply::RandrGetProviders { .. } => 1,
        XClientReply::RandrGetMonitors { .. } => 1,
        XClientReply::XkbUseExtension { .. } => 2,
        XClientReply::GlxQueryVersion { .. } => 2,
        XClientReply::GlxString { .. } => 2,
        XClientReply::GlxVisualConfigs { .. } => 2,
        XClientReply::GlxFbConfigs { .. } => 2,
        XClientReply::GlxIsDirect { .. } => 2,
        XClientReply::GlxDrawableAttributes { .. } => 2,
        XClientReply::SyncInitialize { .. } => 2,
        XClientReply::SyncListSystemCounters { .. } => 2,
        XClientReply::SyncQueryCounter { .. } => 2,
        XClientReply::XkbGetMap { .. } => 2,
        XClientReply::XkbGetCompatMap { .. } => 2,
        XClientReply::XkbGetIndicatorMap { .. } => 2,
        XClientReply::XkbGetState { .. } => 2,
        XClientReply::XkbGetControls { .. } => 2,
        XClientReply::XkbGetNames { .. } => 2,
        XClientReply::XkbGetDeviceInfo { .. } => 2,
        XClientReply::XkbPerClientFlags { .. } => 2,
        XClientReply::XiQueryVersion { .. } => 3,
        XClientReply::GeQueryVersion { .. } => 3,
        XClientReply::XiGetClientPointer { .. } => 3,
        XClientReply::XiGetExtensionVersion { .. } => 3,
        XClientReply::XiQueryDevice { .. } => 3,
        XClientReply::XiQueryPointer { .. } => 3,
        XClientReply::XiGetFocus { .. } => 3,
        XClientReply::XiGetProperty { .. } => 3,
        XClientReply::BigRequestsEnable { .. } => 3,
        XClientReply::GetInputFocus { .. } => 3,
        XClientReply::QueryPointer { .. } => 3,
        XClientReply::GetModifierMapping { .. } => 3,
        XClientReply::GetKeyboardMapping { .. } => 3,
        XClientReply::GetKeyboardControl { .. } => 3,
        XClientReply::TranslateCoordinates { .. } => 3,
        XClientReply::QueryFont { .. } => 3,
        XClientReply::GetProperty { .. } => 3,
        XClientReply::GetSelectionOwner { .. } => 3,
        XClientReply::AllocNamedColor { .. } => 3,
        XClientReply::AllocColor { .. } => 3,
        XClientReply::ListProperties { .. } => 3,
        XClientReply::QueryColors { .. } => 3,
    }
}

fn reply_group_of(reply: &XClientReply) -> (group: u8)
    ensures
        group == reply_group(*reply),
{
    match reply {
        XClientReply::GrabStatus { .. } => 0,
        XClientReply::InternAtom { .. } => 0,
        XClientReply::GetAtomName { .. } => 0,
        XClientReply::GetGeometry { .. } => 0,
        XClientReply::GetImage { .. } => 0,
        XClientReply::QueryTree { .. } => 0,
        XClientReply::GetWindowAttributes { .. } => 0,
        XClientReply::QueryExtension { .. } => 0,
        XClientReply::ListExtensions { .. } => 0,
        XClientReply::ListFonts { .. } => 0,
        XClientReply::ListFontsWithInfo { .. } => 0,
        XClientReply::QueryBestSize { .. } => 0,
        XClientReply::ShmQueryVersion { .. } => 1,
        XClientReply::ShmGetImage { .. } => 1,
        XClientReply::Dri3QueryVersion { .. } => 1,
        XClientReply::Dri3Open { .. } => 1,
        XClientReply::Dri3GetSupportedModifiers { .. } => 1,
        XClientReply::XfixesQueryVersion { .. } => 1,
        XClientReply::PresentQueryVersion { .. } => 1,
        XClientReply::PresentQueryCapabilities { .. } => 1,
        XClientReply::RandrQueryVersion { .. } => 1,
        XClientReply::RandrGetScreenSizeRange { .. } => 1,
        XClientReply::RandrGetScreenResources { .. } => 1,
        XClientReply::RandrGetOutputInfo { .. } => 1,
        XClientReply::RandrGetOutputProperty { .. } => 1,
        XClientReply::RandrGetCrtcInfo { .. } => 1,
        XClientReply::RandrGetCrtcGammaSize { .. } => 1,
        XClientReply::RandrGetCrtcGamma { .. } => 1,
        XClientReply::RandrGetCrtcTransform { .. } => 1,
        XClientReply::RandrGetPanning { .. } => 1,
        XClientReply::RandrGetOutputPrimary { .. } => 1,
        XClientReply::RandrGetProviders { .. } => 1,
        XClientReply::RandrGetMonitors { .. } => 1,
        XClientReply::XkbUseExtension { .. } => 2,
        XClientReply::GlxQueryVersion { .. } => 2,
        XClientReply::GlxString { .. } => 2,
        XClientReply::GlxVisualConfigs { .. } => 2,
        XClientReply::GlxFbConfigs { .. } => 2,
        XClientReply::GlxIsDirect { .. } => 2,
        XClientReply::GlxDrawableAttributes { .. } => 2,
        XClientReply::SyncInitialize { .. } => 2,
        XClientReply::SyncListSystemCounters { .. } => 2,
        XClientReply::SyncQueryCounter { .. } => 2,
        XClientReply::XkbGetMap { .. } => 2,
        XClientReply::XkbGetCompatMap { .. } => 2,
        XClientReply::XkbGetIndicatorMap { .. } => 2,
        XClientReply::XkbGetState { .. } => 2,
        XClientReply::XkbGetControls { .. } => 2,
        XClientReply::XkbGetNames { .. } => 2,
        XClientReply::XkbGetDeviceInfo { .. } => 2,
        XClientReply::XkbPerClientFlags { .. } => 2,
        XClientReply::XiQueryVersion { .. } => 3,
        XClientReply::GeQueryVersion { .. } => 3,
        XClientReply::XiGetClientPointer { .. } => 3,
        XClientReply::XiGetExtensionVersion { .. } => 3,
        XClientReply::XiQueryDevice { .. } => 3,
        XClientReply::XiQueryPointer { .. } => 3,
        XClientReply::XiGetFocus { .. } => 3,
        XClientReply::XiGetProperty { .. } => 3,
        XClientReply::BigRequestsEnable { .. } => 3,
        XClientReply::GetInputFocus { .. } => 3,
        XClientReply::QueryPointer { .. } => 3,
        XClientReply::GetModifierMapping { .. } => 3,
        XClientReply::GetKeyboardMapping { .. } => 3,
        XClientReply::GetKeyboardControl { .. } => 3,
        XClientReply::TranslateCoordinates { .. } => 3,
        XClientReply::QueryFont { .. } => 3,
        XClientReply::GetProperty { .. } => 3,
        XClientReply::GetSelectionOwner { .. } => 3,
        XClientReply::AllocNamedColor { .. } => 3,
        XClientReply::AllocColor { .. } => 3,
        XClientReply::ListProperties { .. } => 3,
        XClientReply::QueryColors { .. } => 3,
    }
}

/// Writes the core protocol replies of window, atom, image and font requests.
fn encode_core_reply(order: XByteOrder, reply: XClientReply) -> (out: Vec<u8>)
    requires
        reply_encodable(reply),
        reply_group(reply) == 0,
    ensures
        out@ == reply_record(order, reply),
{
    match reply {
        XClientReply::GrabStatus { sequence, status } => encode_empty(order, sequence, status),
        XClientReply::InternAtom { sequence, atom } => encode_word(order, sequence, 0, atom),
        XClientReply::GetAtomName { sequence, name } => encode_get_atom_name(
            order,
            sequence,
            name.as_str().as_bytes(),
        ),
        XClientReply::GetGeometry { sequence, depth, root, geometry, border_width } =>
            encode_get_geometry(order, sequence, depth, root, geometry, border_width),
        XClientReply::GetImage { sequence, depth, visual, data } => encode_get_image(
            order,
            sequence,
            depth,
            visual,
            data.as_slice(),
        ),
        XClientReply::QueryTree { sequence, root, parent, children } => encode_query_tree(
            order,
            sequence,
            root,
            parent,
            children.as_slice(),
        ),
        XClientReply::GetWindowAttributes {
            sequence,
            visual,
            colormap,
            map_state,
            override_redirect,
        } => encode_get_window_attributes(
            order,
            sequence,
            visual,
            colormap,
            map_state,
            override_redirect,
        ),
        XClientReply::QueryExtension {
            sequence,
            present,
            major_opcode,
            first_event,
            first_error,
        } => encode_query_extension(order, sequence, present, major_opcode, first_event, first_error),
        XClientReply::ListExtensions { sequence } => encode_empty(order, sequence, 0),
        XClientReply::ListFonts { sequence, names } => encode_list_fonts(
            order,
            sequence,
            names.as_slice(),
        ),
        XClientReply::ListFontsWithInfo { sequence, names } => encode_list_fonts_with_info(
            order,
            sequence,
            names.as_slice(),
        ),
        XClientReply::QueryBestSize { sequence, width, height } => encode_short_pair(
            order,
            sequence,
            0,
            width,
            height,
        ),
        _ => {
            proof {
                assert(false);
            }
            Vec::new()
        },
    }
}

/// Writes the MIT-SHM, DRI3, XFIXES, Present and RandR replies.
fn encode_display_reply(order: XByteOrder, reply: XClientReply) -> (out: Vec<u8>)
    requires
        reply_encodable(reply),
        reply_group(reply) == 1,
    ensures
        out@ == reply_record(order, reply),
{
    match reply {
        XClientReply::ShmQueryVersion {
            sequence,
            major_version,
            minor_version,
            shared_pixmaps,
            pixmap_format,
        } => encode_shm_query_version(
            order,
            sequence,
            major_version,
            minor_version,
            shared_pixmaps,
            pixmap_format,
        ),
        XClientReply::ShmGetImage { sequence, depth, visual, size } => encode_shm_get_image(
            order,
            sequence,
            depth,
            visual,
            size,
        ),
        XClientReply::Dri3QueryVersion { sequence, major_version, minor_version } =>
            encode_word_pair(order, sequence, 0, major_version, minor_version),
        XClientReply::Dri3Open { sequence } => encode_empty(order, sequence, 1),
        XClientReply::Dri3GetSupportedModifiers { sequence, window_modifiers, screen_modifiers } =>
            encode_dri3_modifiers(
            order,
            sequence,
            window_modifiers.as_slice(),
            screen_modifiers.as_slice(),
        ),
        XClientReply::XfixesQueryVersion { sequence, major_version, minor_version } =>
            encode_word_pair(order, sequence, 0, major_version, minor_version),
        XClientReply::PresentQueryVersion { sequence, major_version, minor_version } =>
            encode_word_pair(order, sequence, 0, major_version, minor_version),
        XClientReply::PresentQueryCapabilities { sequence, capabilities } => encode_word(
            order,
            sequence,
            0,
            capabilities,
        ),
        XClientReply::RandrQueryVersion { sequence, major_version, minor_version } =>
            encode_word_pair(order, sequence, 0, major_version, minor_version),
        XClientReply::RandrGetScreenSizeRange {
            sequence,
            min_width,
            min_height,
            max_width,
            max_height,
        } => encode_screen_size_range(order, sequence, min_width, min_height, max_width, max_height),
        XClientReply::RandrGetScreenResources { sequence, timestamp, crtcs, outputs, modes } =>
            encode_screen_resources(
            order,
            sequence,
            timestamp,
            crtcs.as_slice(),
            outputs.as_slice(),
            modes.as_slice(),
        ),
        XClientReply::RandrGetOutputInfo {
            sequence,
            timestamp,
            crtc,
            mm_width,
            mm_height,
            crtcs,
            modes,
            name,
        } => encode_output_info(
            order,
            sequence,
            timestamp,
            crtc,
            mm_width,
            mm_height,
            crtcs.as_slice(),
            modes.as_slice(),
            name.as_slice(),
        ),
        XClientReply::RandrGetOutputProperty {
            sequence,
            property_type,
            bytes_after,
            format,
            data,
        } => encode_output_property(
            order,
            sequence,
            property_type,
            bytes_after,
            format,
            data.as_slice(),
        ),
        XClientReply::RandrGetCrtcInfo { sequence, timestamp, x, y, width, height, mode, outputs } =>
            encode_crtc_info(
            order,
            sequence,
            timestamp,
            x,
            y,
            width,
            height,
            mode,
            outputs.as_slice(),
        ),
        XClientReply::RandrGetCrtcGammaSize { sequence, size } => encode_crtc_gamma_size(
            order,
            sequence,
            size,
        ),
        XClientReply::RandrGetCrtcGamma { sequence } => encode_crtc_gamma(order, sequence),
        XClientReply::RandrGetCrtcTransform { sequence } => encode_crtc_transform(order, sequence),
        XClientReply::RandrGetPanning { sequence, timestamp } => encode_panning(
            order,
            sequence,
            timestamp,
        ),
        XClientReply::RandrGetOutputPrimary { sequence, output } => encode_word(
            order,
            sequence,
            0,
            output,
        ),
        XClientReply::RandrGetProviders { sequence, timestamp } => encode_word(
            order,
            sequence,
            0,
            timestamp,
        ),
        XClientReply::RandrGetMonitors { sequence, timestamp, monitors } => encode_monitors(
            order,
            sequence,
            timestamp,
            monitors.as_slice(),
        ),
        _ => {
            proof {
                assert(false);
            }
            Vec::new()
        },
    }
}

/// Writes the XKB, GLX and SYNC replies.
fn encode_keyboard_glx_reply(order: XByteOrder, reply: XClientReply) -> (out: Vec<u8>)
    requires
        reply_encodable(reply),
        reply_group(reply) == 2,
    ensures
        out@ == reply_record(order, reply),
{
    match reply {
        XClientReply::XkbUseExtension { sequence, supported, server_major, server_minor } =>
            encode_short_pair(
            order,
            sequence,
            if supported {
                1
            } else {
                0
            },
            server_major,
            server_minor,
        ),
        XClientReply::GlxQueryVersion { sequence, major_version, minor_version } =>
            encode_word_pair(order, sequence, 0, major_version, minor_version),
        XClientReply::GlxString { sequence, value } => encode_glx_string(
            order,
            sequence,
            value.as_str().as_bytes(),
        ),
        XClientReply::GlxVisualConfigs { sequence, configs } => encode_visual_configs(
            order,
            sequence,
            configs.as_slice(),
        ),
        XClientReply::GlxFbConfigs { sequence, configs } => encode_fb_configs(
            order,
            sequence,
            configs.as_slice(),
        ),
        XClientReply::GlxIsDirect { sequence, direct } => encode_glx_is_direct(
            order,
            sequence,
            direct,
        ),
        XClientReply::GlxDrawableAttributes { sequence, attributes } => encode_drawable_attributes(
            order,
            sequence,
            attributes.as_slice(),
        ),
        XClientReply::SyncInitialize { sequence, major_version, minor_version } =>
            encode_sync_initialize(order, sequence, major_version, minor_version),
        XClientReply::SyncListSystemCounters { sequence } => encode_list_system_counters(
            order,
            sequence,
        ),
        XClientReply::SyncQueryCounter { sequence, value } => encode_query_counter(
            order,
            sequence,
            value,
        ),
        XClientReply::XkbGetMap { sequence, present, keysyms, modifier_map } => encode_xkb_get_map(
            order,
            sequence,
            present,
            keysyms.as_slice(),
            modifier_map.as_slice(),
        ),
        XClientReply::XkbGetCompatMap { sequence, device_id } => encode_empty(
            order,
            sequence,
            device_id,
        ),
        XClientReply::XkbGetIndicatorMap { sequence, device_id } => encode_empty(
            order,
            sequence,
            device_id,
        ),
        XClientReply::XkbGetState { sequence, modifiers } => encode_xkb_get_state(
            order,
            sequence,
            modifiers,
        ),
        XClientReply::XkbGetControls { sequence } => encode_xkb_get_controls(order, sequence),
        XClientReply::XkbGetNames {
            sequence,
            which,
            min_keycode,
            max_keycode,
            component_atoms,
            type_atoms,
            key_names,
        } => encode_xkb_get_names(
            order,
            sequence,
            which,
            min_keycode,
            max_keycode,
            component_atoms.as_slice(),
            type_atoms.as_slice(),
            key_names.as_slice(),
        ),
        XClientReply::XkbGetDeviceInfo { sequence, device_id, supported, unsupported } =>
            encode_xkb_get_device_info(order, sequence, device_id, supported, unsupported),
        XClientReply::XkbPerClientFlags { sequence, supported, value } => encode_word_pair(
            order,
            sequence,
            3,
            supported,
            value,
        ),
        _ => {
            proof {
                assert(false);
            }
            Vec::new()
        },
    }
}

/// Writes the XInput, pointer, keyboard mapping, property and color replies.
fn encode_input_reply(order: XByteOrder, reply: XClientReply) -> (out: Vec<u8>)
    requires
        reply_encodable(reply),
        reply_group(reply) == 3,
    ensures
        out@ == reply_record(order, reply),
{
    match reply {
        XClientReply::XiQueryVersion { sequence, major_version, minor_version } =>
            encode_short_pair(
            order,
            sequence,
            X_INPUT_QUERY_VERSION_MINOR_OPCODE,
            major_version,
            minor_version,
        ),
        XClientReply::GeQueryVersion { sequence, major_version, minor_version } =>
            encode_short_pair(order, sequence, 0, major_version, minor_version),
        XClientReply::XiGetClientPointer { sequence, device_id } => encode_xi_get_client_pointer(
            order,
            sequence,
            device_id,
        ),
        XClientReply::XiGetExtensionVersion { sequence, server_major, server_minor } =>
            encode_xi_get_extension_version(order, sequence, server_major, server_minor),
        XClientReply::XiQueryDevice { sequence, devices } => encode_xi_query_device(
            order,
            sequence,
            devices.as_slice(),
        ),
        XClientReply::XiQueryPointer { sequence, root, child } => encode_xi_query_pointer(
            order,
            sequence,
            root,
            child,
        ),
        XClientReply::XiGetFocus { sequence, focus } => encode_word(
            order,
            sequence,
            X_INPUT_GET_FOCUS_MINOR_OPCODE,
            raw_xid_of(focus),
        ),
        XClientReply::XiGetProperty { sequence } => encode_empty(
            order,
            sequence,
            X_INPUT_GET_PROPERTY_MINOR_OPCODE,
        ),
        XClientReply::BigRequestsEnable { sequence, maximum_request_length } => encode_word(
            order,
            sequence,
            0,
            maximum_request_length,
        ),
        XClientReply::GetInputFocus { sequence, focus, revert_to } => encode_word(
            order,
            sequence,
            revert_to,
            raw_xid_of(focus),
        ),
        XClientReply::QueryPointer {
            sequence,
            root,
            child,
            root_x,
            root_y,
            win_x,
            win_y,
            mask,
        } => encode_query_pointer(order, sequence, root, child, root_x, root_y, win_x, win_y, mask),
        XClientReply::GetModifierMapping { sequence, keycodes_per_modifier, keycodes } =>
            encode_get_modifier_mapping(order, sequence, keycodes_per_modifier, keycodes.as_slice()),
        XClientReply::GetKeyboardMapping { sequence, keysyms_per_keycode, keysyms } =>
            encode_get_keyboard_mapping(order, sequence, keysyms_per_keycode, keysyms.as_slice()),
        XClientReply::GetKeyboardControl { sequence } => encode_get_keyboard_control(
            order,
            sequence,
        ),
        XClientReply::TranslateCoordinates { sequence, same_screen, child, dst_x, dst_y } =>
            encode_translate_coordinates(order, sequence, same_screen, child, dst_x, dst_y),
        XClientReply::QueryFont { sequence, font_ascent, font_descent } => encode_font_info_reply(
            order,
            sequence,
            font_ascent,
            font_descent,
            None,
        ),
        XClientReply::GetProperty {
            sequence,
            property_type,
            format,
            bytes_after,
            item_count,
            bytes,
        } => encode_get_property(
            order,
            sequence,
            property_type,
            format,
            bytes_after,
            item_count,
            bytes.as_slice(),
        ),
        XClientReply::GetSelectionOwner { sequence, owner } => encode_word(
            order,
            sequence,
            0,
            optional_raw_xid_of(owner),
        ),
        XClientReply::AllocNamedColor { sequence, pixel, red, green, blue } =>
            encode_alloc_named_color(order, sequence, pixel, red, green, blue),
        XClientReply::AllocColor { sequence, pixel, red, green, blue } => encode_alloc_color(
            order,
            sequence,
            pixel,
            red,
            green,
            blue,
        ),
        XClientReply::ListProperties { sequence, atoms } => encode_list_properties(
            order,
            sequence,
            atoms.as_slice(),
        ),
        XClientReply::QueryColors { sequence, pixels } => encode_query_colors(
            order,
            sequence,
            pixels.as_slice(),
        ),
        _ => {
            proof {
                assert(false);
            }
            Vec::new()
        },
    }
}

/// Encodes `reply` as the bytes the client reads.
pub fn encode_x_client_reply(byte_order: XByteOrder, reply: XClientReply) -> (out: Vec<u8>)
    requires
        reply_encodable(reply),
    ensures
        out@ == reply_record(byte_order, reply),
{
    let group = reply_group_of(&reply);
    if group == 0 {
        encode_core_reply(byte_order, reply)
    } else if group == 1 {
        encode_display_reply(byte_order, reply)
    } else if group == 2 {
        encode_keyboard_glx_reply(byte_order, reply)
    } else {
        encode_input_reply(byte_order, reply)
    }
}

/// Anything the server writes to a client.
#[derive(Clone, Debug, PartialEq, Eq)]
pub enum XClientOutput {
    Error(XClientError),
    Event(XClientEvent),
    Reply(XClientReply),
}

/// The bytes a client reads for `output`.
pub open spec fn output_record(order: XByteOrder, output: XClientOutput) -> Seq<u8> {
    match output {
        XClientOutput::Error(error) => error_record(order, error),
        XClientOutput::Event(event) => event_record(order, event),
        XClientOutput::Reply(reply) => reply_record(order, reply),
    }
}

pub open spec fn output_encodable(output: XClientOutput) -> bool {
    match output {
        XClientOutput::Reply(reply) => reply_encodable(reply),
        _ => true,
    }
}

pub fn encode_x_client_output(byte_order: XByteOrder, output: XClientOutput) -> (out: Vec<u8>)
    requires
        output_encodable(output),
    ensures
        out@ == output_record(byte_order, output),
{
    match output {
        XClientOutput::Error(error) => {
            let record = encode_x_client_error(byte_order, error);
            let mut out: Vec<u8> = Vec::new();
            push_slice(&mut out, &record);
            out
        },
        XClientOutput::Event(event) => encode_x_client_event(byte_order, event),
        XClientOutput::Reply(reply) => encode_x_client_reply(byte_order, reply),
    }
}


proof fn lemma_header_reads_units(
    order: XByteOrder,
    detail: u8,
    sequence: u16,
    units: u32,
    record: Seq<u8>,
)
    requires
        record.len() >= 8,
        record.subrange(0, 8) == reply_head(order, detail, sequence, units),
    ensures
        u32_at(order, record, 4) == units,
        u16_at(order, record, 2) == sequence,
        record[0] == 1,
{
    law_u32_read_inverts_write(order, units);
    law_u16_read_inverts_write(order, sequence);
    let head = reply_head(order, detail, sequence, units);
    assert(record[0] == head[0]);
    assert(record[4] == head[4] && record[5] == head[5] && record[6] == head[6] && record[7]
        == head[7]);
    assert(head.subrange(4, 8) =~= u32_bytes(order, units));
    assert(record[2] == head[2] && record[3] == head[3]);
    assert(head.subrange(2, 4) =~= u16_bytes(order, sequence));
}

proof fn lemma_reply_shape(order: XByteOrder, detail: u8, sequence: u16, units: u32, record: Seq<u8>)
    requires
        record.len() == 32 + 4 * units,
        record.subrange(0, 8) == reply_head(order, detail, sequence, units),
    ensures
        record.len() >= 32,
        record[0] == 1,
        record.len() == 32 + 4 * u32_at(order, record, 4),
        u16_at(order, record, 2) == sequence,
{
    lemma_header_reads_units(order, detail, sequence, units, record);
}

proof fn lemma_fb_body(configs: nat, attributes: nat, pairs: int)
    requires
        0 <= pairs <= configs * attributes,
    ensures
        8 * configs * attributes / 4 == 2 * configs * attributes,
        8 * configs * attributes == 4 * (2 * configs * attributes),
        8 * pairs <= 8 * configs * attributes,
{
    assert(8 * configs * attributes == 4 * (2 * configs * attributes)) by (nonlinear_arith);
    assert(8 * pairs <= 8 * configs * attributes) by (nonlinear_arith)
        requires
            0 <= pairs <= configs * attributes,
    ;
}

proof fn lemma_fb_nonnegative(configs: Seq<Vec<(u32, u32)>>)
    ensures
        fb_pair_count(configs) >= 0,
    decreases configs.len(),
{
    if configs.len() > 0 {
        lemma_fb_nonnegative(configs.drop_last());
    }
}

proof fn lemma_grab_status_reply_length(order: XByteOrder, reply: XClientReply)
    requires
        reply is GrabStatus,
        reply_encodable(reply),
        reply_record(order, reply).len() <= 32 + 4 * 0xffff_ffffint,
    ensures
        reply_record(order, reply).len() >= 32,
        reply_record(order, reply)[0] == 1,
        reply_record(order, reply).len() == 32 + 4 * u32_at(order, reply_record(order, reply), 4),
        u16_at(order, reply_record(order, reply), 2) == reply_sequence(reply),
{
    match reply {
        XClientReply::GrabStatus { sequence, status } => {
            let record = empty_record(order, sequence, status);
            assert(record.subrange(0, 8) =~= reply_head(order, status, sequence, 0));
            lemma_reply_shape(order, status, sequence, 0, record);
        },
        _ => {},
    }
}

proof fn lemma_intern_atom_reply_length(order: XByteOrder, reply: XClientReply)
    requires
        reply is InternAtom,
        reply_encodable(reply),
        reply_record(order, reply).len() <= 32 + 4 * 0xffff_ffffint,
    ensures
        reply_record(order, reply).len() >= 32,
        reply_record(order, reply)[0] == 1,
        reply_record(order, reply).len() == 32 + 4 * u32_at(order, reply_record(order, reply), 4),
        u16_at(order, reply_record(order, reply), 2) == reply_sequence(reply),
{
    match reply {
        XClientReply::InternAtom { sequence, atom } => {
            let record = word_record(order, sequence, 0, atom);
            assert(record.subrange(0, 8) =~= reply_head(order, 0, sequence, 0));
            lemma_reply_shape(order, 0, sequence, 0, record);
        },
        _ => {},
    }
}

proof fn lemma_get_atom_name_reply_length(order: XByteOrder, reply: XClientReply)
    requires
        reply is GetAtomName,
        reply_encodable(reply),
        reply_record(order, reply).len() <= 32 + 4 * 0xffff_ffffint,
    ensures
        reply_record(order, reply).len() >= 32,
        reply_record(order, reply)[0] == 1,
        reply_record(order, reply).len() == 32 + 4 * u32_at(order, reply_record(order, reply), 4),
        u16_at(order, reply_record(order, reply), 2) == reply_sequence(reply),
{
    match reply {
        XClientReply::GetAtomName { sequence, name } => {
            let record = get_atom_name_record(order, sequence, encode_utf8(name@));
            lemma_padded(encode_utf8(name@).len() as int);
            assert(record.subrange(0, 8) =~= reply_head(order, 0, sequence, fit_u32(spec_padded_len(encode_utf8(name@).len() as int) / 4, 0)));
            lemma_reply_shape(order, 0, sequence, fit_u32(spec_padded_len(encode_utf8(name@).len() as int) / 4, 0), record);
        },
        _ => {},
    }
}

proof fn lemma_get_geometry_reply_length(order: XByteOrder, reply: XClientReply)
    requires
        reply is GetGeometry,
        reply_encodable(reply),
        reply_record(order, reply).len() <= 32 + 4 * 0xffff_ffffint,
    ensures
        reply_record(order, reply).len() >= 32,
        reply_record(order, reply)[0] == 1,
        reply_record(order, reply).len() == 32 + 4 * u32_at(order, reply_record(order, reply), 4),
        u16_at(order, reply_record(order, reply), 2) == reply_sequence(reply),
{
    match reply {
        XClientReply::GetGeometry { sequence, depth, root, geometry, border_width } => {
            let record = get_geometry_record(order, sequence, depth, root, geometry, border_width);
            assert(record.subrange(0, 8) =~= reply_head(order, depth, sequence, 0));
            lemma_reply_shape(order, depth, sequence, 0, record);
        },
        _ => {},
    }
}

proof fn lemma_get_image_reply_length(order: XByteOrder, reply: XClientReply)
    requires
        reply is GetImage,
        reply_encodable(reply),
        reply_record(order, reply).len() <= 32 + 4 * 0xffff_ffffint,
    ensures
        reply_record(order, reply).len() >= 32,
        reply_record(order, reply)[0] == 1,
        reply_record(order, reply).len() == 32 + 4 * u32_at(order, reply_record(order, reply), 4),
        u16_at(order, reply_record(order, reply), 2) == reply_sequence(reply),
{
    match reply {
        XClientReply::GetImage { sequence, depth, visual, data } => {
            let record = get_image_record(order, sequence, depth, visual, data@);
            lemma_padded(data@.len() as int);
            assert(record.subrange(0, 8) =~= reply_head(order, depth, sequence, fit_u32(spec_padded_len(data@.len() as int) / 4, u32::MAX)));
            lemma_reply_shape(order, depth, sequence, fit_u32(spec_padded_len(data@.len() as int) / 4, u32::MAX), record);
        },
        _ => {},
    }
}

proof fn lemma_query_tree_reply_length(order: XByteOrder, reply: XClientReply)
    requires
        reply is QueryTree,
        reply_encodable(reply),
        reply_record(order, reply).len() <= 32 + 4 * 0xffff_ffffint,
    ensures
        reply_record(order, reply).len() >= 32,
        reply_record(order, reply)[0] == 1,
        reply_record(order, reply).len() == 32 + 4 * u32_at(order, reply_record(order, reply), 4),
        u16_at(order, reply_record(order, reply), 2) == reply_sequence(reply),
{
    match reply {
        XClientReply::QueryTree { sequence, root, parent, children } => {
            let record = query_tree_record(order, sequence, root, parent, children@);
            lemma_xid_seq_bytes_len(order, children@);
            assert(record.subrange(0, 8) =~= reply_head(order, 0, sequence, fit_u32(children@.len() as int, 0)));
            lemma_reply_shape(order, 0, sequence, fit_u32(children@.len() as int, 0), record);
        },
        _ => {},
    }
}

proof fn lemma_get_window_attributes_reply_length(order: XByteOrder, reply: XClientReply)
    requires
        reply is GetWindowAttributes,
        reply_encodable(reply),
        reply_record(order, reply).len() <= 32 + 4 * 0xffff_ffffint,
    ensures
        reply_record(order, reply).len() >= 32,
        reply_record(order, reply)[0] == 1,
        reply_record(order, reply).len() == 32 + 4 * u32_at(order, reply_record(order, reply), 4),
        u16_at(order, reply_record(order, reply), 2) == reply_sequence(reply),
{
    match reply {
        XClientReply::GetWindowAttributes { sequence, visual, colormap, map_state, override_redirect, } => {
            let record = get_window_attributes_record(order, sequence, visual, colormap, map_state, override_redirect);
            assert(record.subrange(0, 8) =~= reply_head(order, 0, sequence, 3));
            lemma_reply_shape(order, 0, sequence, 3, record);
        },
        _ => {},
    }
}

proof fn lemma_query_extension_reply_length(order: XByteOrder, reply: XClientReply)
    requires
        reply is QueryExtension,
        reply_encodable(reply),
        reply_record(order, reply).len() <= 32 + 4 * 0xffff_ffffint,
    ensures
        reply_record(order, reply).len() >= 32,
        reply_record(order, reply)[0] == 1,
        reply_record(order, reply).len() == 32 + 4 * u32_at(order, reply_record(order, reply), 4),
        u16_at(order, reply_record(order, reply), 2) == reply_sequence(reply),
{
    match reply {
        XClientReply::QueryExtension { sequence, present, major_opcode, first_event, first_error, } => {
            let record = query_extension_record(order, sequence, present, major_opcode, first_event, first_error);
            assert(record.subrange(0, 8) =~= reply_head(order, 0, sequence, 0));
            lemma_reply_shape(order, 0, sequence, 0, record);
        },
        _ => {},
    }
}

proof fn lemma_list_extensions_reply_length(order: XByteOrder, reply: XClientReply)
    requires
        reply is ListExtensions,
        reply_encodable(reply),
        reply_record(order, reply).len() <= 32 + 4 * 0xffff_ffffint,
    ensures
        reply_record(order, reply).len() >= 32,
        reply_record(order, reply)[0] == 1,
        reply_record(order, reply).len() == 32 + 4 * u32_at(order, reply_record(order, reply), 4),
        u16_at(order, reply_record(order, reply), 2) == reply_sequence(reply),
{
    match reply {
        XClientReply::ListExtensions { sequence } => {
            let record = empty_record(order, sequence, 0);
            assert(record.subrange(0, 8) =~= reply_head(order, 0, sequence, 0));
            lemma_reply_shape(order, 0, sequence, 0, record);
        },
        _ => {},
    }
}

proof fn lemma_list_fonts_reply_length(order: XByteOrder, reply: XClientReply)
    requires
        reply is ListFonts,
        reply_encodable(reply),
        reply_record(order, reply).len() <= 32 + 4 * 0xffff_ffffint,
    ensures
        reply_record(order, reply).len() >= 32,
        reply_record(order, reply)[0] == 1,
        reply_record(order, reply).len() == 32 + 4 * u32_at(order, reply_record(order, reply), 4),
        u16_at(order, reply_record(order, reply), 2) == reply_sequence(reply),
{
    match reply {
        XClientReply::ListFonts { sequence, names } => {
            let record = list_fonts_record(order, sequence, names@);
            lemma_padded(font_names_bytes(names@).len() as int);
            assert(record.subrange(0, 8) =~= reply_head(order, 0, sequence, fit_u32(spec_padded_len(font_names_bytes(names@).len() as int) / 4, 0)));
            lemma_reply_shape(order, 0, sequence, fit_u32(spec_padded_len(font_names_bytes(names@).len() as int) / 4, 0), record);
        },
        _ => {},
    }
}

proof fn lemma_query_best_size_reply_length(order: XByteOrder, reply: XClientReply)
    requires
        reply is QueryBestSize,
        reply_encodable(reply),
        reply_record(order, reply).len() <= 32 + 4 * 0xffff_ffffint,
    ensures
        reply_record(order, reply).len() >= 32,
        reply_record(order, reply)[0] == 1,
        reply_record(order, reply).len() == 32 + 4 * u32_at(order, reply_record(order, reply), 4),
        u16_at(order, reply_record(order, reply), 2) == reply_sequence(reply),
{
    match reply {
        XClientReply::QueryBestSize { sequence, width, height } => {
            let record = short_pair_record(order, sequence, 0, width, height);
            assert(record.subrange(0, 8) =~= reply_head(order, 0, sequence, 0));
            lemma_reply_shape(order, 0, sequence, 0, record);
        },
        _ => {},
    }
}

proof fn lemma_core_reply_length(order: XByteOrder, reply: XClientReply)
    requires
        reply_encodable(reply),
        !(reply is ListFontsWithInfo),
        reply_group(reply) == 0,
        reply_record(order, reply).len() <= 32 + 4 * 0xffff_ffffint,
    ensures
        reply_record(order, reply).len() >= 32,
        reply_record(order, reply)[0] == 1,
        reply_record(order, reply).len() == 32 + 4 * u32_at(order, reply_record(order, reply), 4),
        u16_at(order, reply_record(order, reply), 2) == reply_sequence(reply),
{
    if reply is GrabStatus {
        lemma_grab_status_reply_length(order, reply);
    } else if reply is InternAtom {
        lemma_intern_atom_reply_length(order, reply);
    } else if reply is GetAtomName {
        lemma_get_atom_name_reply_length(order, reply);
    } else if reply is GetGeometry {
        lemma_get_geometry_reply_length(order, reply);
    } else if reply is GetImage {
        lemma_get_image_reply_length(order, reply);
    } else if reply is QueryTree {
        lemma_query_tree_reply_length(order, reply);
    } else if reply is GetWindowAttributes {
        lemma_get_window_attributes_reply_length(order, reply);
    } else if reply is QueryExtension {
        lemma_query_extension_reply_length(order, reply);
    } else if reply is ListExtensions {
        lemma_list_extensions_reply_length(order, reply);
    } else if reply is ListFonts {
        lemma_list_fonts_reply_length(order, reply);
    } else if reply is QueryBestSize {
        lemma_query_best_size_reply_length(order, reply);
    }
}

proof fn lemma_shm_query_version_reply_length(order: XByteOrder, reply: XClientReply)
    requires
        reply is ShmQueryVersion,
        reply_encodable(reply),
        reply_record(order, reply).len() <= 32 + 4 * 0xffff_ffffint,
    ensures
        reply_record(order, reply).len() >= 32,
        reply_record(order, reply)[0] == 1,
        reply_record(order, reply).len() == 32 + 4 * u32_at(order, reply_record(order, reply), 4),
        u16_at(order, reply_record(order, reply), 2) == reply_sequence(reply),
{
    match reply {
        XClientReply::ShmQueryVersion { sequence, major_version, minor_version, shared_pixmaps, pixmap_format, } => {
            let record = shm_query_version_record(order, sequence, major_version, minor_version, shared_pixmaps, pixmap_format);
            assert(record.subrange(0, 8) =~= reply_head(order, flag(shared_pixmaps), sequence, 0));
            lemma_reply_shape(order, flag(shared_pixmaps), sequence, 0, record);
        },
        _ => {},
    }
}

proof fn lemma_dri3_query_version_reply_length(order: XByteOrder, reply: XClientReply)
    requires
        reply is Dri3QueryVersion,
        reply_encodable(reply),
        reply_record(order, reply).len() <= 32 + 4 * 0xffff_ffffint,
    ensures
        reply_record(order, reply).len() >= 32,
        reply_record(order, reply)[0] == 1,
        reply_record(order, reply).len() == 32 + 4 * u32_at(order, reply_record(order, reply), 4),
        u16_at(order, reply_record(order, reply), 2) == reply_sequence(reply),
{
    match reply {
        XClientReply::Dri3QueryVersion { sequence, major_version, minor_version } => {
            let record = word_pair_record(order, sequence, 0, major_version, minor_version);
            assert(record.subrange(0, 8) =~= reply_head(order, 0, sequence, 0));
            lemma_reply_shape(order, 0, sequence, 0, record);
        },
        _ => {},
    }
}

proof fn lemma_dri3_open_reply_length(order: XByteOrder, reply: XClientReply)
    requires
        reply is Dri3Open,
        reply_encodable(reply),
        reply_record(order, reply).len() <= 32 + 4 * 0xffff_ffffint,
    ensures
        reply_record(order, reply).len() >= 32,
        reply_record(order, reply)[0] == 1,
        reply_record(order, reply).len() == 32 + 4 * u32_at(order, reply_record(order, reply), 4),
        u16_at(order, reply_record(order, reply), 2) == reply_sequence(reply),
{
    match reply {
        XClientReply::Dri3Open { sequence } => {
            let record = empty_record(order, sequence, 1);
            assert(record.subrange(0, 8) =~= reply_head(order, 1, sequence, 0));
            lemma_reply_shape(order, 1, sequence, 0, record);
        },
        _ => {},
    }
}

proof fn lemma_dri3_get_supported_modifiers_reply_length(order: XByteOrder, reply: XClientReply)
    requires
        reply is Dri3GetSupportedModifiers,
        reply_encodable(reply),
        reply_record(order, reply).len() <= 32 + 4 * 0xffff_ffffint,
    ensures
        reply_record(order, reply).len() >= 32,
        reply_record(order, reply)[0] == 1,
        reply_record(order, reply).len() == 32 + 4 * u32_at(order, reply_record(order, reply), 4),
        u16_at(order, reply_record(order, reply), 2) == reply_sequence(reply),
{
    match reply {
        XClientReply::Dri3GetSupportedModifiers { sequence, window_modifiers, screen_modifiers } => {
            let record = dri3_modifiers_record(order, sequence, window_modifiers@, screen_modifiers@);
            lemma_u64_seq_bytes_len(order, window_modifiers@);
            lemma_u64_seq_bytes_len(order, screen_modifiers@);
            assert(record.subrange(0, 8) =~= reply_head(order, 0, sequence, fit_u32(2 * (window_modifiers@.len() + screen_modifiers@.len()) as int, u32::MAX)));
            lemma_reply_shape(order, 0, sequence, fit_u32(2 * (window_modifiers@.len() + screen_modifiers@.len()) as int, u32::MAX), record);
        },
        _ => {},
    }
}

proof fn lemma_xfixes_query_version_reply_length(order: XByteOrder, reply: XClientReply)
    requires
        reply is XfixesQueryVersion,
        reply_encodable(reply),
        reply_record(order, reply).len() <= 32 + 4 * 0xffff_ffffint,
    ensures
        reply_record(order, reply).len() >= 32,
        reply_record(order, reply)[0] == 1,
        reply_record(order, reply).len() == 32 + 4 * u32_at(order, reply_record(order, reply), 4),
        u16_at(order, reply_record(order, reply), 2) == reply_sequence(reply),
{
    match reply {
        XClientReply::XfixesQueryVersion { sequence, major_version, minor_version } => {
            let record = word_pair_record(order, sequence, 0, major_version, minor_version);
            assert(record.subrange(0, 8) =~= reply_head(order, 0, sequence, 0));
            lemma_reply_shape(order, 0, sequence, 0, record);
        },
        _ => {},
    }
}

proof fn lemma_present_query_version_reply_length(order: XByteOrder, reply: XClientReply)
    requires
        reply is PresentQueryVersion,
        reply_encodable(reply),
        reply_record(order, reply).len() <= 32 + 4 * 0xffff_ffffint,
    ensures
        reply_record(order, reply).len() >= 32,
        reply_record(order, reply)[0] == 1,
        reply_record(order, reply).len() == 32 + 4 * u32_at(order, reply_record(order, reply), 4),
        u16_at(order, reply_record(order, reply), 2) == reply_sequence(reply),
{
    match reply {
        XClientReply::PresentQueryVersion { sequence, major_version, minor_version } => {
            let record = word_pair_record(order, sequence, 0, major_version, minor_version);
            assert(record.subrange(0, 8) =~= reply_head(order, 0, sequence, 0));
            lemma_reply_shape(order, 0, sequence, 0, record);
        },
        _ => {},
    }
}

proof fn lemma_present_query_capabilities_reply_length(order: XByteOrder, reply: XClientReply)
    requires
        reply is PresentQueryCapabilities,
        reply_encodable(reply),
        reply_record(order, reply).len() <= 32 + 4 * 0xffff_ffffint,
    ensures
        reply_record(order, reply).len() >= 32,
        reply_record(order, reply)[0] == 1,
        reply_record(order, reply).len() == 32 + 4 * u32_at(order, reply_record(order, reply), 4),
        u16_at(order, reply_record(order, reply), 2) == reply_sequence(reply),
{
    match reply {
        XClientReply::PresentQueryCapabilities { sequence, capabilities } => {
            let record = word_record(order, sequence, 0, capabilities);
            assert(record.subrange(0, 8) =~= reply_head(order, 0, sequence, 0));
            lemma_reply_shape(order, 0, sequence, 0, record);
        },
        _ => {},
    }
}

proof fn lemma_randr_query_version_reply_length(order: XByteOrder, reply: XClientReply)
    requires
        reply is RandrQueryVersion,
        reply_encodable(reply),
        reply_record(order, reply).len() <= 32 + 4 * 0xffff_ffffint,
    ensures
        reply_record(order, reply).len() >= 32,
        reply_record(order, reply)[0] == 1,
        reply_record(order, reply).len() == 32 + 4 * u32_at(order, reply_record(order, reply), 4),
        u16_at(order, reply_record(order, reply), 2) == reply_sequence(reply),
{
    match reply {
        XClientReply::RandrQueryVersion { sequence, major_version, minor_version } => {
            let record = word_pair_record(order, sequence, 0, major_version, minor_version);
            assert(record.subrange(0, 8) =~= reply_head(order, 0, sequence, 0));
            lemma_reply_shape(order, 0, sequence, 0, record);
        },
        _ => {},
    }
}

proof fn lemma_randr_get_screen_size_range_reply_length(order: XByteOrder, reply: XClientReply)
    requires
        reply is RandrGetScreenSizeRange,
        reply_encodable(reply),
        reply_record(order, reply).len() <= 32 + 4 * 0xffff_ffffint,
    ensures
        reply_record(order, reply).len() >= 32,
        reply_record(order, reply)[0] == 1,
        reply_record(order, reply).len() == 32 + 4 * u32_at(order, reply_record(order, reply), 4),
        u16_at(order, reply_record(order, reply), 2) == reply_sequence(reply),
{
    match reply {
        XClientReply::RandrGetScreenSizeRange { sequence, min_width, min_height, max_width, max_height, } => {
            let record = screen_size_range_record(order, sequence, min_width, min_height, max_width, max_height);
            assert(record.subrange(0, 8) =~= reply_head(order, 0, sequence, 0));
            lemma_reply_shape(order, 0, sequence, 0, record);
        },
        _ => {},
    }
}

proof fn lemma_randr_get_screen_resources_reply_length(order: XByteOrder, reply: XClientReply)
    requires
        reply is RandrGetScreenResources,
        reply_encodable(reply),
        reply_record(order, reply).len() <= 32 + 4 * 0xffff_ffffint,
    ensures
        reply_record(order, reply).len() >= 32,
        reply_record(order, reply)[0] == 1,
        reply_record(order, reply).len() == 32 + 4 * u32_at(order, reply_record(order, reply), 4),
        u16_at(order, reply_record(order, reply), 2) == reply_sequence(reply),
{
    match reply {
        XClientReply::RandrGetScreenResources { sequence, timestamp, crtcs, outputs, modes } => {
            let record = screen_resources_record(order, sequence, timestamp, crtcs@, outputs@, modes@);
            lemma_u32_seq_bytes_len(order, crtcs@);
            lemma_u32_seq_bytes_len(order, outputs@);
            lemma_mode_infos_len(order, modes@);
            lemma_padded(screen_resources_payload(crtcs@.len(), outputs@.len(), modes@));
            assert(record.subrange(0, 8) =~= reply_head(order, 0, sequence, fit_u32(spec_padded_len(screen_resources_payload(crtcs@.len(), outputs@.len(), modes@)) / 4, u32::MAX)));
            lemma_reply_shape(order, 0, sequence, fit_u32(spec_padded_len(screen_resources_payload(crtcs@.len(), outputs@.len(), modes@)) / 4, u32::MAX), record);
        },
        _ => {},
    }
}

proof fn lemma_randr_get_output_info_reply_length(order: XByteOrder, reply: XClientReply)
    requires
        reply is RandrGetOutputInfo,
        reply_encodable(reply),
        reply_record(order, reply).len() <= 32 + 4 * 0xffff_ffffint,
    ensures
        reply_record(order, reply).len() >= 32,
        reply_record(order, reply)[0] == 1,
        reply_record(order, reply).len() == 32 + 4 * u32_at(order, reply_record(order, reply), 4),
        u16_at(order, reply_record(order, reply), 2) == reply_sequence(reply),
{
    match reply {
        XClientReply::RandrGetOutputInfo { sequence, timestamp, crtc, mm_width, mm_height, crtcs, modes, name, } => {
            let record = output_info_record(order, sequence, timestamp, crtc, mm_width, mm_height, crtcs@, modes@, name@);
            lemma_u32_seq_bytes_len(order, crtcs@);
            lemma_u32_seq_bytes_len(order, modes@);
            lemma_padded(output_info_payload(crtcs@.len(), modes@.len(), name@.len()));
            assert(record.subrange(0, 8) =~= reply_head(order, 0, sequence, (spec_padded_len(output_info_payload(crtcs@.len(), modes@.len(), name@.len())) / 4 + 1) as u32));
            lemma_reply_shape(order, 0, sequence, (spec_padded_len(output_info_payload(crtcs@.len(), modes@.len(), name@.len())) / 4 + 1) as u32, record);
        },
        _ => {},
    }
}

proof fn lemma_randr_get_output_property_reply_length(order: XByteOrder, reply: XClientReply)
    requires
        reply is RandrGetOutputProperty,
        reply_encodable(reply),
        reply_record(order, reply).len() <= 32 + 4 * 0xffff_ffffint,
    ensures
        reply_record(order, reply).len() >= 32,
        reply_record(order, reply)[0] == 1,
        reply_record(order, reply).len() == 32 + 4 * u32_at(order, reply_record(order, reply), 4),
        u16_at(order, reply_record(order, reply), 2) == reply_sequence(reply),
{
    match reply {
        XClientReply::RandrGetOutputProperty { sequence, property_type, bytes_after, format, data, } => {
            let record = output_property_record(order, sequence, property_type, bytes_after, format, data@);
            lemma_padded(data@.len() as int);
            assert(record.subrange(0, 8) =~= reply_head(order, format, sequence, (spec_padded_len(data@.len() as int) / 4) as u32));
            lemma_reply_shape(order, format, sequence, (spec_padded_len(data@.len() as int) / 4) as u32, record);
        },
        _ => {},
    }
}

proof fn lemma_randr_get_crtc_info_reply_length(order: XByteOrder, reply: XClientReply)
    requires
        reply is RandrGetCrtcInfo,
        reply_encodable(reply),
        reply_record(order, reply).len() <= 32 + 4 * 0xffff_ffffint,
    ensures
        reply_record(order, reply).len() >= 32,
        reply_record(order, reply)[0] == 1,
        reply_record(order, reply).len() == 32 + 4 * u32_at(order, reply_record(order, reply), 4),
        u16_at(order, reply_record(order, reply), 2) == reply_sequence(reply),
{
    match reply {
        XClientReply::RandrGetCrtcInfo { sequence, timestamp, x, y, width, height, mode, outputs } => {
            let record = crtc_info_record(order, sequence, timestamp, x, y, width, height, mode, outputs@);
            lemma_u32_seq_bytes_len(order, outputs@);
            assert(record.subrange(0, 8) =~= reply_head(order, 0, sequence, (2 * outputs@.len()) as u32));
            lemma_reply_shape(order, 0, sequence, (2 * outputs@.len()) as u32, record);
        },
        _ => {},
    }
}

proof fn lemma_randr_get_crtc_gamma_size_reply_length(order: XByteOrder, reply: XClientReply)
    requires
        reply is RandrGetCrtcGammaSize,
        reply_encodable(reply),
        reply_record(order, reply).len() <= 32 + 4 * 0xffff_ffffint,
    ensures
        reply_record(order, reply).len() >= 32,
        reply_record(order, reply)[0] == 1,
        reply_record(order, reply).len() == 32 + 4 * u32_at(order, reply_record(order, reply), 4),
        u16_at(order, reply_record(order, reply), 2) == reply_sequence(reply),
{
    match reply {
        XClientReply::RandrGetCrtcGammaSize { sequence, size } => {
            let record = crtc_gamma_size_record(order, sequence, size);
            assert(record.subrange(0, 8) =~= reply_head(order, 0, sequence, 0));
            lemma_reply_shape(order, 0, sequence, 0, record);
        },
        _ => {},
    }
}

proof fn lemma_randr_get_output_primary_reply_length(order: XByteOrder, reply: XClientReply)
    requires
        reply is RandrGetOutputPrimary,
        reply_encodable(reply),
        reply_record(order, reply).len() <= 32 + 4 * 0xffff_ffffint,
    ensures
        reply_record(order, reply).len() >= 32,
        reply_record(order, reply)[0] == 1,
        reply_record(order, reply).len() == 32 + 4 * u32_at(order, reply_record(order, reply), 4),
        u16_at(order, reply_record(order, reply), 2) == reply_sequence(reply),
{
    match reply {
        XClientReply::RandrGetOutputPrimary { sequence, output } => {
            let record = word_record(order, sequence, 0, output);
            assert(record.subrange(0, 8) =~= reply_head(order, 0, sequence, 0));
            lemma_reply_shape(order, 0, sequence, 0, record);
        },
        _ => {},
    }
}

proof fn lemma_randr_get_providers_reply_length(order: XByteOrder, reply: XClientReply)
    requires
        reply is RandrGetProviders,
        reply_encodable(reply),
        reply_record(order, reply).len() <= 32 + 4 * 0xffff_ffffint,
    ensures
        reply_record(order, reply).len() >= 32,
        reply_record(order, reply)[0] == 1,
        reply_record(order, reply).len() == 32 + 4 * u32_at(order, reply_record(order, reply), 4),
        u16_at(order, reply_record(order, reply), 2) == reply_sequence(reply),
{
    match reply {
        XClientReply::RandrGetProviders { sequence, timestamp } => {
            let record = word_record(order, sequence, 0, timestamp);
            assert(record.subrange(0, 8) =~= reply_head(order, 0, sequence, 0));
            lemma_reply_shape(order, 0, sequence, 0, record);
        },
        _ => {},
    }
}

proof fn lemma_randr_get_monitors_reply_length(order: XByteOrder, reply: XClientReply)
    requires
        reply is RandrGetMonitors,
        reply_encodable(reply),
        reply_record(order, reply).len() <= 32 + 4 * 0xffff_ffffint,
    ensures
        reply_record(order, reply).len() >= 32,
        reply_record(order, reply)[0] == 1,
        reply_record(order, reply).len() == 32 + 4 * u32_at(order, reply_record(order, reply), 4),
        u16_at(order, reply_record(order, reply), 2) == reply_sequence(reply),
{
    match reply {
        XClientReply::RandrGetMonitors { sequence, timestamp, monitors } => {
            let record = monitors_record(order, sequence, timestamp, monitors@);
            lemma_monitors_len(order, monitors@);
            assert(record.subrange(0, 8) =~= reply_head(order, 0, sequence, (monitors_payload(monitors@) / 4) as u32));
            lemma_reply_shape(order, 0, sequence, (monitors_payload(monitors@) / 4) as u32, record);
        },
        _ => {},
    }
}

proof fn lemma_display_reply_length(order: XByteOrder, reply: XClientReply)
    requires
        reply_encodable(reply),
        !(reply is ListFontsWithInfo),
        reply_group(reply) == 1,
        reply_record(order, reply).len() <= 32 + 4 * 0xffff_ffffint,
    ensures
        reply_record(order, reply).len() >= 32,
        reply_record(order, reply)[0] == 1,
        reply_record(order, reply).len() == 32 + 4 * u32_at(order, reply_record(order, reply), 4),
        u16_at(order, reply_record(order, reply), 2) == reply_sequence(reply),
{
    if reply is ShmQueryVersion {
        lemma_shm_query_version_reply_length(order, reply);
    } else if reply is Dri3QueryVersion {
        lemma_dri3_query_version_reply_length(order, reply);
    } else if reply is Dri3Open {
        lemma_dri3_open_reply_length(order, reply);
    } else if reply is Dri3GetSupportedModifiers {
        lemma_dri3_get_supported_modifiers_reply_length(order, reply);
    } else if reply is XfixesQueryVersion {
        lemma_xfixes_query_version_reply_length(order, reply);
    } else if reply is PresentQueryVersion {
        lemma_present_query_version_reply_length(order, reply);
    } else if reply is PresentQueryCapabilities {
        lemma_present_query_capabilities_reply_length(order, reply);
    } else if reply is RandrQueryVersion {
        lemma_randr_query_version_reply_length(order, reply);
    } else if reply is RandrGetScreenSizeRange {
        lemma_randr_get_screen_size_range_reply_length(order, reply);
    } else if reply is RandrGetScreenResources {
        lemma_randr_get_screen_resources_reply_length(order, reply);
    } else if reply is RandrGetOutputInfo {
        lemma_randr_get_output_info_reply_length(order, reply);
    } else if reply is RandrGetOutputProperty {
        lemma_randr_get_output_property_reply_length(order, reply);
    } else if reply is RandrGetCrtcInfo {
        lemma_randr_get_crtc_info_reply_length(order, reply);
    } else if reply is RandrGetCrtcGammaSize {
        lemma_randr_get_crtc_gamma_size_reply_length(order, reply);
    } else if reply is RandrGetCrtcGamma || reply is RandrGetCrtcTransform
        || reply is RandrGetPanning || reply is ShmGetImage {
        lemma_extra_display_reply_length(order, reply);
    } else if reply is RandrGetOutputPrimary {
        lemma_randr_get_output_primary_reply_length(order, reply);
    } else if reply is RandrGetProviders {
        lemma_randr_get_providers_reply_length(order, reply);
    } else if reply is RandrGetMonitors {
        lemma_randr_get_monitors_reply_length(order, reply);
    }
}

proof fn lemma_xkb_use_extension_reply_length(order: XByteOrder, reply: XClientReply)
    requires
        reply is XkbUseExtension,
        reply_encodable(reply),
        reply_record(order, reply).len() <= 32 + 4 * 0xffff_ffffint,
    ensures
        reply_record(order, reply).len() >= 32,
        reply_record(order, reply)[0] == 1,
        reply_record(order, reply).len() == 32 + 4 * u32_at(order, reply_record(order, reply), 4),
        u16_at(order, reply_record(order, reply), 2) == reply_sequence(reply),
{
    match reply {
        XClientReply::XkbUseExtension { sequence, supported, server_major, server_minor } => {
            let record = short_pair_record(order, sequence, flag(supported), server_major, server_minor);
            assert(record.subrange(0, 8) =~= reply_head(order, flag(supported), sequence, 0));
            lemma_reply_shape(order, flag(supported), sequence, 0, record);
        },
        _ => {},
    }
}

proof fn lemma_glx_query_version_reply_length(order: XByteOrder, reply: XClientReply)
    requires
        reply is GlxQueryVersion,
        reply_encodable(reply),
        reply_record(order, reply).len() <= 32 + 4 * 0xffff_ffffint,
    ensures
        reply_record(order, reply).len() >= 32,
        reply_record(order, reply)[0] == 1,
        reply_record(order, reply).len() == 32 + 4 * u32_at(order, reply_record(order, reply), 4),
        u16_at(order, reply_record(order, reply), 2) == reply_sequence(reply),
{
    match reply {
        XClientReply::GlxQueryVersion { sequence, major_version, minor_version } => {
            let record = word_pair_record(order, sequence, 0, major_version, minor_version);
            assert(record.subrange(0, 8) =~= reply_head(order, 0, sequence, 0));
            lemma_reply_shape(order, 0, sequence, 0, record);
        },
        _ => {},
    }
}

proof fn lemma_glx_string_reply_length(order: XByteOrder, reply: XClientReply)
    requires
        reply is GlxString,
        reply_encodable(reply),
        reply_record(order, reply).len() <= 32 + 4 * 0xffff_ffffint,
    ensures
        reply_record(order, reply).len() >= 32,
        reply_record(order, reply)[0] == 1,
        reply_record(order, reply).len() == 32 + 4 * u32_at(order, reply_record(order, reply), 4),
        u16_at(order, reply_record(order, reply), 2) == reply_sequence(reply),
{
    match reply {
        XClientReply::GlxString { sequence, value } => {
            let record = glx_string_record(order, sequence, encode_utf8(value@));
            lemma_padded(encode_utf8(value@).len() as int + 1);
            assert(record.subrange(0, 8) =~= reply_head(order, 0, sequence, fit_u32(spec_padded_len(encode_utf8(value@).len() as int + 1) / 4, u32::MAX)));
            lemma_reply_shape(order, 0, sequence, fit_u32(spec_padded_len(encode_utf8(value@).len() as int + 1) / 4, u32::MAX), record);
        },
        _ => {},
    }
}

proof fn lemma_glx_visual_configs_reply_length(order: XByteOrder, reply: XClientReply)
    requires
        reply is GlxVisualConfigs,
        reply_encodable(reply),
        reply_record(order, reply).len() <= 32 + 4 * 0xffff_ffffint,
    ensures
        reply_record(order, reply).len() >= 32,
        reply_record(order, reply)[0] == 1,
        reply_record(order, reply).len() == 32 + 4 * u32_at(order, reply_record(order, reply), 4),
        u16_at(order, reply_record(order, reply), 2) == reply_sequence(reply),
{
    match reply {
        XClientReply::GlxVisualConfigs { sequence, configs } => {
            let record = visual_configs_record(order, sequence, configs@);
            lemma_visual_configs_len(order, configs@);
            assert(record.subrange(0, 8) =~= reply_head(order, 0, sequence, (18 * configs@.len()) as u32));
            lemma_reply_shape(order, 0, sequence, (18 * configs@.len()) as u32, record);
        },
        _ => {},
    }
}

proof fn lemma_glx_fb_configs_reply_length(order: XByteOrder, reply: XClientReply)
    requires
        reply is GlxFbConfigs,
        reply_encodable(reply),
        reply_record(order, reply).len() <= 32 + 4 * 0xffff_ffffint,
    ensures
        reply_record(order, reply).len() >= 32,
        reply_record(order, reply)[0] == 1,
        reply_record(order, reply).len() == 32 + 4 * u32_at(order, reply_record(order, reply), 4),
        u16_at(order, reply_record(order, reply), 2) == reply_sequence(reply),
{
    match reply {
        XClientReply::GlxFbConfigs { sequence, configs } => {
            let record = fb_configs_record(order, sequence, configs@);
            lemma_fb_pairs_len(order, configs@);
            lemma_fb_nonnegative(configs@);
            lemma_fb_body(configs@.len(), fb_attribute_count(configs@), fb_pair_count(configs@));
            assert(record.subrange(0, 8) =~= reply_head(order, 0, sequence, (8 * configs@.len() * fb_attribute_count(configs@) / 4) as u32));
            lemma_reply_shape(order, 0, sequence, (8 * configs@.len() * fb_attribute_count(configs@) / 4) as u32, record);
        },
        _ => {},
    }
}

proof fn lemma_glx_is_direct_reply_length(order: XByteOrder, reply: XClientReply)
    requires
        reply is GlxIsDirect,
        reply_encodable(reply),
        reply_record(order, reply).len() <= 32 + 4 * 0xffff_ffffint,
    ensures
        reply_record(order, reply).len() >= 32,
        reply_record(order, reply)[0] == 1,
        reply_record(order, reply).len() == 32 + 4 * u32_at(order, reply_record(order, reply), 4),
        u16_at(order, reply_record(order, reply), 2) == reply_sequence(reply),
{
    match reply {
        XClientReply::GlxIsDirect { sequence, direct } => {
            let record = glx_is_direct_record(order, sequence, direct);
            assert(record.subrange(0, 8) =~= reply_head(order, 0, sequence, 0));
            lemma_reply_shape(order, 0, sequence, 0, record);
        },
        _ => {},
    }
}

proof fn lemma_glx_drawable_attributes_reply_length(order: XByteOrder, reply: XClientReply)
    requires
        reply is GlxDrawableAttributes,
        reply_encodable(reply),
        reply_record(order, reply).len() <= 32 + 4 * 0xffff_ffffint,
    ensures
        reply_record(order, reply).len() >= 32,
        reply_record(order, reply)[0] == 1,
        reply_record(order, reply).len() == 32 + 4 * u32_at(order, reply_record(order, reply), 4),
        u16_at(order, reply_record(order, reply), 2) == reply_sequence(reply),
{
    match reply {
        XClientReply::GlxDrawableAttributes { sequence, attributes } => {
            let record = drawable_attributes_record(order, sequence, attributes@);
            lemma_pair_seq_bytes_len(order, attributes@);
            assert(record.subrange(0, 8) =~= reply_head(order, 0, sequence, (2 * attributes@.len()) as u32));
            lemma_reply_shape(order, 0, sequence, (2 * attributes@.len()) as u32, record);
        },
        _ => {},
    }
}

proof fn lemma_sync_initialize_reply_length(order: XByteOrder, reply: XClientReply)
    requires
        reply is SyncInitialize,
        reply_encodable(reply),
        reply_record(order, reply).len() <= 32 + 4 * 0xffff_ffffint,
    ensures
        reply_record(order, reply).len() >= 32,
        reply_record(order, reply)[0] == 1,
        reply_record(order, reply).len() == 32 + 4 * u32_at(order, reply_record(order, reply), 4),
        u16_at(order, reply_record(order, reply), 2) == reply_sequence(reply),
{
    match reply {
        XClientReply::SyncInitialize { sequence, major_version, minor_version } => {
            let record = sync_initialize_record(order, sequence, major_version, minor_version);
            assert(record.subrange(0, 8) =~= reply_head(order, 0, sequence, 0));
            lemma_reply_shape(order, 0, sequence, 0, record);
        },
        _ => {},
    }
}

proof fn lemma_xkb_get_map_reply_length(order: XByteOrder, reply: XClientReply)
    requires
        reply is XkbGetMap,
        reply_encodable(reply),
        reply_record(order, reply).len() <= 32 + 4 * 0xffff_ffffint,
    ensures
        reply_record(order, reply).len() >= 32,
        reply_record(order, reply)[0] == 1,
        reply_record(order, reply).len() == 32 + 4 * u32_at(order, reply_record(order, reply), 4),
        u16_at(order, reply_record(order, reply), 2) == reply_sequence(reply),
{
    match reply {
        XClientReply::XkbGetMap { sequence, present, keysyms, modifier_map } => {
            let record = xkb_get_map_record(order, sequence, present, keysyms@, modifier_map@);
            lemma_xkb_map_body_aligned(order, present, keysyms@, modifier_map@);
            assert(record.subrange(0, 8) =~= reply_head(order, 3, sequence, ((8 + xkb_map_body(order, present, keysyms@, modifier_map@).len()) / 4) as u32));
            lemma_reply_shape(order, 3, sequence, ((8 + xkb_map_body(order, present, keysyms@, modifier_map@).len()) / 4) as u32, record);
        },
        _ => {},
    }
}

proof fn lemma_xkb_get_compat_map_reply_length(order: XByteOrder, reply: XClientReply)
    requires
        reply is XkbGetCompatMap,
        reply_encodable(reply),
        reply_record(order, reply).len() <= 32 + 4 * 0xffff_ffffint,
    ensures
        reply_record(order, reply).len() >= 32,
        reply_record(order, reply)[0] == 1,
        reply_record(order, reply).len() == 32 + 4 * u32_at(order, reply_record(order, reply), 4),
        u16_at(order, reply_record(order, reply), 2) == reply_sequence(reply),
{
    match reply {
        XClientReply::XkbGetCompatMap { sequence, device_id } => {
            let record = empty_record(order, sequence, device_id);
            assert(record.subrange(0, 8) =~= reply_head(order, device_id, sequence, 0));
            lemma_reply_shape(order, device_id, sequence, 0, record);
        },
        _ => {},
    }
}

proof fn lemma_xkb_get_indicator_map_reply_length(order: XByteOrder, reply: XClientReply)
    requires
        reply is XkbGetIndicatorMap,
        reply_encodable(reply),
        reply_record(order, reply).len() <= 32 + 4 * 0xffff_ffffint,
    ensures
        reply_record(order, reply).len() >= 32,
        reply_record(order, reply)[0] == 1,
        reply_record(order, reply).len() == 32 + 4 * u32_at(order, reply_record(order, reply), 4),
        u16_at(order, reply_record(order, reply), 2) == reply_sequence(reply),
{
    match reply {
        XClientReply::XkbGetIndicatorMap { sequence, device_id } => {
            let record = empty_record(order, sequence, device_id);
            assert(record.subrange(0, 8) =~= reply_head(order, device_id, sequence, 0));
            lemma_reply_shape(order, device_id, sequence, 0, record);
        },
        _ => {},
    }
}

proof fn lemma_xkb_get_state_reply_length(order: XByteOrder, reply: XClientReply)
    requires
        reply is XkbGetState,
        reply_encodable(reply),
        reply_record(order, reply).len() <= 32 + 4 * 0xffff_ffffint,
    ensures
        reply_record(order, reply).len() >= 32,
        reply_record(order, reply)[0] == 1,
        reply_record(order, reply).len() == 32 + 4 * u32_at(order, reply_record(order, reply), 4),
        u16_at(order, reply_record(order, reply), 2) == reply_sequence(reply),
{
    match reply {
        XClientReply::XkbGetState { sequence, modifiers } => {
            let record = xkb_get_state_record(order, sequence, modifiers);
            assert(record.subrange(0, 8) =~= reply_head(order, 3, sequence, 0));
            lemma_reply_shape(order, 3, sequence, 0, record);
        },
        _ => {},
    }
}

proof fn lemma_xkb_get_controls_reply_length(order: XByteOrder, reply: XClientReply)
    requires
        reply is XkbGetControls,
        reply_encodable(reply),
        reply_record(order, reply).len() <= 32 + 4 * 0xffff_ffffint,
    ensures
        reply_record(order, reply).len() >= 32,
        reply_record(order, reply)[0] == 1,
        reply_record(order, reply).len() == 32 + 4 * u32_at(order, reply_record(order, reply), 4),
        u16_at(order, reply_record(order, reply), 2) == reply_sequence(reply),
{
    match reply {
        XClientReply::XkbGetControls { sequence } => {
            let record = xkb_get_controls_record(order, sequence);
            assert(record.subrange(0, 8) =~= reply_head(order, 3, sequence, 15));
            lemma_reply_shape(order, 3, sequence, 15, record);
        },
        _ => {},
    }
}

proof fn lemma_xkb_get_names_reply_length(order: XByteOrder, reply: XClientReply)
    requires
        reply is XkbGetNames,
        reply_encodable(reply),
        reply_record(order, reply).len() <= 32 + 4 * 0xffff_ffffint,
    ensures
        reply_record(order, reply).len() >= 32,
        reply_record(order, reply)[0] == 1,
        reply_record(order, reply).len() == 32 + 4 * u32_at(order, reply_record(order, reply), 4),
        u16_at(order, reply_record(order, reply), 2) == reply_sequence(reply),
{
    match reply {
        XClientReply::XkbGetNames { sequence, which, min_keycode, max_keycode, component_atoms, type_atoms, key_names, } => {
            let record = xkb_get_names_record(order, sequence, which, min_keycode, max_keycode, component_atoms@, type_atoms@, key_names@);
            lemma_xkb_names_body_aligned(order, which, component_atoms@, type_atoms@, key_names@);
            assert(record.subrange(0, 8) =~= reply_head(order, 3, sequence, fit_u32(xkb_names_body(order, which, component_atoms@, type_atoms@, key_names@).len() as int / 4, u32::MAX)));
            lemma_reply_shape(order, 3, sequence, fit_u32(xkb_names_body(order, which, component_atoms@, type_atoms@, key_names@).len() as int / 4, u32::MAX), record);
        },
        _ => {},
    }
}

proof fn lemma_xkb_get_device_info_reply_length(order: XByteOrder, reply: XClientReply)
    requires
        reply is XkbGetDeviceInfo,
        reply_encodable(reply),
        reply_record(order, reply).len() <= 32 + 4 * 0xffff_ffffint,
    ensures
        reply_record(order, reply).len() >= 32,
        reply_record(order, reply)[0] == 1,
        reply_record(order, reply).len() == 32 + 4 * u32_at(order, reply_record(order, reply), 4),
        u16_at(order, reply_record(order, reply), 2) == reply_sequence(reply),
{
    match reply {
        XClientReply::XkbGetDeviceInfo { sequence, device_id, supported, unsupported } => {
            let record = xkb_get_device_info_record(order, sequence, device_id, supported, unsupported);
            assert(record.subrange(0, 8) =~= reply_head(order, device_id, sequence, 1));
            lemma_reply_shape(order, device_id, sequence, 1, record);
        },
        _ => {},
    }
}

proof fn lemma_xkb_per_client_flags_reply_length(order: XByteOrder, reply: XClientReply)
    requires
        reply is XkbPerClientFlags,
        reply_encodable(reply),
        reply_record(order, reply).len() <= 32 + 4 * 0xffff_ffffint,
    ensures
        reply_record(order, reply).len() >= 32,
        reply_record(order, reply)[0] == 1,
        reply_record(order, reply).len() == 32 + 4 * u32_at(order, reply_record(order, reply), 4),
        u16_at(order, reply_record(order, reply), 2) == reply_sequence(reply),
{
    match reply {
        XClientReply::XkbPerClientFlags { sequence, supported, value } => {
            let record = word_pair_record(order, sequence, 3, supported, value);
            assert(record.subrange(0, 8) =~= reply_head(order, 3, sequence, 0));
            lemma_reply_shape(order, 3, sequence, 0, record);
        },
        _ => {},
    }
}

proof fn lemma_keyboard_glx_reply_length(order: XByteOrder, reply: XClientReply)
    requires
        reply_encodable(reply),
        !(reply is ListFontsWithInfo),
        reply_group(reply) == 2,
        reply_record(order, reply).len() <= 32 + 4 * 0xffff_ffffint,
    ensures
        reply_record(order, reply).len() >= 32,
        reply_record(order, reply)[0] == 1,
        reply_record(order, reply).len() == 32 + 4 * u32_at(order, reply_record(order, reply), 4),
        u16_at(order, reply_record(order, reply), 2) == reply_sequence(reply),
{
    if reply is XkbUseExtension {
        lemma_xkb_use_extension_reply_length(order, reply);
    } else if reply is GlxQueryVersion {
        lemma_glx_query_version_reply_length(order, reply);
    } else if reply is GlxString {
        lemma_glx_string_reply_length(order, reply);
    } else if reply is GlxVisualConfigs {
        lemma_glx_visual_configs_reply_length(order, reply);
    } else if reply is GlxFbConfigs {
        lemma_glx_fb_configs_reply_length(order, reply);
    } else if reply is GlxIsDirect {
        lemma_glx_is_direct_reply_length(order, reply);
    } else if reply is GlxDrawableAttributes {
        lemma_glx_drawable_attributes_reply_length(order, reply);
    } else if reply is SyncInitialize {
        lemma_sync_initialize_reply_length(order, reply);
    } else if reply is SyncListSystemCounters || reply is SyncQueryCounter {
        lemma_sync_counter_reply_length(order, reply);
    } else if reply is XkbGetMap {
        lemma_xkb_get_map_reply_length(order, reply);
    } else if reply is XkbGetCompatMap {
        lemma_xkb_get_compat_map_reply_length(order, reply);
    } else if reply is XkbGetIndicatorMap {
        lemma_xkb_get_indicator_map_reply_length(order, reply);
    } else if reply is XkbGetState {
        lemma_xkb_get_state_reply_length(order, reply);
    } else if reply is XkbGetControls {
        lemma_xkb_get_controls_reply_length(order, reply);
    } else if reply is XkbGetNames {
        lemma_xkb_get_names_reply_length(order, reply);
    } else if reply is XkbGetDeviceInfo {
        lemma_xkb_get_device_info_reply_length(order, reply);
    } else if reply is XkbPerClientFlags {
        lemma_xkb_per_client_flags_reply_length(order, reply);
    }
}

proof fn lemma_xi_query_version_reply_length(order: XByteOrder, reply: XClientReply)
    requires
        reply is XiQueryVersion,
        reply_encodable(reply),
        reply_record(order, reply).len() <= 32 + 4 * 0xffff_ffffint,
    ensures
        reply_record(order, reply).len() >= 32,
        reply_record(order, reply)[0] == 1,
        reply_record(order, reply).len() == 32 + 4 * u32_at(order, reply_record(order, reply), 4),
        u16_at(order, reply_record(order, reply), 2) == reply_sequence(reply),
{
    match reply {
        XClientReply::XiQueryVersion { sequence, major_version, minor_version } => {
            let record = short_pair_record(order, sequence, X_INPUT_QUERY_VERSION_MINOR_OPCODE, major_version, minor_version);
            assert(record.subrange(0, 8) =~= reply_head(order, X_INPUT_QUERY_VERSION_MINOR_OPCODE, sequence, 0));
            lemma_reply_shape(order, X_INPUT_QUERY_VERSION_MINOR_OPCODE, sequence, 0, record);
        },
        _ => {},
    }
}

proof fn lemma_ge_query_version_reply_length(order: XByteOrder, reply: XClientReply)
    requires
        reply is GeQueryVersion,
        reply_encodable(reply),
        reply_record(order, reply).len() <= 32 + 4 * 0xffff_ffffint,
    ensures
        reply_record(order, reply).len() >= 32,
        reply_record(order, reply)[0] == 1,
        reply_record(order, reply).len() == 32 + 4 * u32_at(order, reply_record(order, reply), 4),
        u16_at(order, reply_record(order, reply), 2) == reply_sequence(reply),
{
    match reply {
        XClientReply::GeQueryVersion { sequence, major_version, minor_version } => {
            let record = short_pair_record(order, sequence, 0, major_version, minor_version);
            assert(record.subrange(0, 8) =~= reply_head(order, 0, sequence, 0));
            lemma_reply_shape(order, 0, sequence, 0, record);
        },
        _ => {},
    }
}

proof fn lemma_xi_get_client_pointer_reply_length(order: XByteOrder, reply: XClientReply)
    requires
        reply is XiGetClientPointer,
        reply_encodable(reply),
        reply_record(order, reply).len() <= 32 + 4 * 0xffff_ffffint,
    ensures
        reply_record(order, reply).len() >= 32,
        reply_record(order, reply)[0] == 1,
        reply_record(order, reply).len() == 32 + 4 * u32_at(order, reply_record(order, reply), 4),
        u16_at(order, reply_record(order, reply), 2) == reply_sequence(reply),
{
    match reply {
        XClientReply::XiGetClientPointer { sequence, device_id } => {
            let record = xi_get_client_pointer_record(order, sequence, device_id);
            assert(record.subrange(0, 8) =~= reply_head(order, 0, sequence, 0));
            lemma_reply_shape(order, 0, sequence, 0, record);
        },
        _ => {},
    }
}

proof fn lemma_xi_get_extension_version_reply_length(order: XByteOrder, reply: XClientReply)
    requires
        reply is XiGetExtensionVersion,
        reply_encodable(reply),
        reply_record(order, reply).len() <= 32 + 4 * 0xffff_ffffint,
    ensures
        reply_record(order, reply).len() >= 32,
        reply_record(order, reply)[0] == 1,
        reply_record(order, reply).len() == 32 + 4 * u32_at(order, reply_record(order, reply), 4),
        u16_at(order, reply_record(order, reply), 2) == reply_sequence(reply),
{
    match reply {
        XClientReply::XiGetExtensionVersion { sequence, server_major, server_minor } => {
            let record = xi_get_extension_version_record(order, sequence, server_major, server_minor);
            assert(record.subrange(0, 8) =~= reply_head(order, X_INPUT_GET_EXTENSION_VERSION_MINOR_OPCODE, sequence, 0));
            lemma_reply_shape(order, X_INPUT_GET_EXTENSION_VERSION_MINOR_OPCODE, sequence, 0, record);
        },
        _ => {},
    }
}

proof fn lemma_xi_query_device_reply_length(order: XByteOrder, reply: XClientReply)
    requires
        reply is XiQueryDevice,
        reply_encodable(reply),
        reply_record(order, reply).len() <= 32 + 4 * 0xffff_ffffint,
    ensures
        reply_record(order, reply).len() >= 32,
        reply_record(order, reply)[0] == 1,
        reply_record(order, reply).len() == 32 + 4 * u32_at(order, reply_record(order, reply), 4),
        u16_at(order, reply_record(order, reply), 2) == reply_sequence(reply),
{
    match reply {
        XClientReply::XiQueryDevice { sequence, devices } => {
            let record = xi_query_device_record(order, sequence, devices@);
            lemma_xi_devices_aligned(order, devices@);
            assert(record.subrange(0, 8) =~= reply_head(order, X_INPUT_QUERY_DEVICE_MINOR_OPCODE, sequence, fit_u32(xi_devices_bytes(order, devices@).len() as int / 4, 0)));
            lemma_reply_shape(order, X_INPUT_QUERY_DEVICE_MINOR_OPCODE, sequence, fit_u32(xi_devices_bytes(order, devices@).len() as int / 4, 0), record);
        },
        _ => {},
    }
}

proof fn lemma_xi_query_pointer_reply_length(order: XByteOrder, reply: XClientReply)
    requires
        reply is XiQueryPointer,
        reply_encodable(reply),
        reply_record(order, reply).len() <= 32 + 4 * 0xffff_ffffint,
    ensures
        reply_record(order, reply).len() >= 32,
        reply_record(order, reply)[0] == 1,
        reply_record(order, reply).len() == 32 + 4 * u32_at(order, reply_record(order, reply), 4),
        u16_at(order, reply_record(order, reply), 2) == reply_sequence(reply),
{
    match reply {
        XClientReply::XiQueryPointer { sequence, root, child } => {
            let record = xi_query_pointer_record(order, sequence, root, child);
            assert(record.subrange(0, 8) =~= reply_head(order, 0, sequence, 6));
            lemma_reply_shape(order, 0, sequence, 6, record);
        },
        _ => {},
    }
}

proof fn lemma_xi_get_focus_reply_length(order: XByteOrder, reply: XClientReply)
    requires
        reply is XiGetFocus,
        reply_encodable(reply),
        reply_record(order, reply).len() <= 32 + 4 * 0xffff_ffffint,
    ensures
        reply_record(order, reply).len() >= 32,
        reply_record(order, reply)[0] == 1,
        reply_record(order, reply).len() == 32 + 4 * u32_at(order, reply_record(order, reply), 4),
        u16_at(order, reply_record(order, reply), 2) == reply_sequence(reply),
{
    match reply {
        XClientReply::XiGetFocus { sequence, focus } => {
            let record = word_record(order, sequence, X_INPUT_GET_FOCUS_MINOR_OPCODE, raw_xid(focus));
            assert(record.subrange(0, 8) =~= reply_head(order, X_INPUT_GET_FOCUS_MINOR_OPCODE, sequence, 0));
            lemma_reply_shape(order, X_INPUT_GET_FOCUS_MINOR_OPCODE, sequence, 0, record);
        },
        _ => {},
    }
}

proof fn lemma_xi_get_property_reply_length(order: XByteOrder, reply: XClientReply)
    requires
        reply is XiGetProperty,
        reply_encodable(reply),
        reply_record(order, reply).len() <= 32 + 4 * 0xffff_ffffint,
    ensures
        reply_record(order, reply).len() >= 32,
        reply_record(order, reply)[0] == 1,
        reply_record(order, reply).len() == 32 + 4 * u32_at(order, reply_record(order, reply), 4),
        u16_at(order, reply_record(order, reply), 2) == reply_sequence(reply),
{
    match reply {
        XClientReply::XiGetProperty { sequence } => {
            let record = empty_record(order, sequence, X_INPUT_GET_PROPERTY_MINOR_OPCODE);
            assert(record.subrange(0, 8) =~= reply_head(order, X_INPUT_GET_PROPERTY_MINOR_OPCODE, sequence, 0));
            lemma_reply_shape(order, X_INPUT_GET_PROPERTY_MINOR_OPCODE, sequence, 0, record);
        },
        _ => {},
    }
}

proof fn lemma_big_requests_enable_reply_length(order: XByteOrder, reply: XClientReply)
    requires
        reply is BigRequestsEnable,
        reply_encodable(reply),
        reply_record(order, reply).len() <= 32 + 4 * 0xffff_ffffint,
    ensures
        reply_record(order, reply).len() >= 32,
        reply_record(order, reply)[0] == 1,
        reply_record(order, reply).len() == 32 + 4 * u32_at(order, reply_record(order, reply), 4),
        u16_at(order, reply_record(order, reply), 2) == reply_sequence(reply),
{
    match reply {
        XClientReply::BigRequestsEnable { sequence, maximum_request_length } => {
            let record = word_record(order, sequence, 0, maximum_request_length);
            assert(record.subrange(0, 8) =~= reply_head(order, 0, sequence, 0));
            lemma_reply_shape(order, 0, sequence, 0, record);
        },
        _ => {},
    }
}

proof fn lemma_get_input_focus_reply_length(order: XByteOrder, reply: XClientReply)
    requires
        reply is GetInputFocus,
        reply_encodable(reply),
        reply_record(order, reply).len() <= 32 + 4 * 0xffff_ffffint,
    ensures
        reply_record(order, reply).len() >= 32,
        reply_record(order, reply)[0] == 1,
        reply_record(order, reply).len() == 32 + 4 * u32_at(order, reply_record(order, reply), 4),
        u16_at(order, reply_record(order, reply), 2) == reply_sequence(reply),
{
    match reply {
        XClientReply::GetInputFocus { sequence, focus, revert_to } => {
            let record = word_record(order, sequence, revert_to, raw_xid(focus));
            assert(record.subrange(0, 8) =~= reply_head(order, revert_to, sequence, 0));
            lemma_reply_shape(order, revert_to, sequence, 0, record);
        },
        _ => {},
    }
}

proof fn lemma_query_pointer_reply_length(order: XByteOrder, reply: XClientReply)
    requires
        reply is QueryPointer,
        reply_encodable(reply),
        reply_record(order, reply).len() <= 32 + 4 * 0xffff_ffffint,
    ensures
        reply_record(order, reply).len() >= 32,
        reply_record(order, reply)[0] == 1,
        reply_record(order, reply).len() == 32 + 4 * u32_at(order, reply_record(order, reply), 4),
        u16_at(order, reply_record(order, reply), 2) == reply_sequence(reply),
{
    match reply {
        XClientReply::QueryPointer { sequence, root, child, root_x, root_y, win_x, win_y, mask, } => {
            let record = query_pointer_record(order, sequence, root, child, root_x, root_y, win_x, win_y, mask);
            assert(record.subrange(0, 8) =~= reply_head(order, 1, sequence, 0));
            lemma_reply_shape(order, 1, sequence, 0, record);
        },
        _ => {},
    }
}

proof fn lemma_get_modifier_mapping_reply_length(order: XByteOrder, reply: XClientReply)
    requires
        reply is GetModifierMapping,
        reply_encodable(reply),
        reply_record(order, reply).len() <= 32 + 4 * 0xffff_ffffint,
    ensures
        reply_record(order, reply).len() >= 32,
        reply_record(order, reply)[0] == 1,
        reply_record(order, reply).len() == 32 + 4 * u32_at(order, reply_record(order, reply), 4),
        u16_at(order, reply_record(order, reply), 2) == reply_sequence(reply),
{
    match reply {
        XClientReply::GetModifierMapping { sequence, keycodes_per_modifier, keycodes } => {
            let record = get_modifier_mapping_record(order, sequence, keycodes_per_modifier, keycodes@);
            lemma_padded(keycodes@.len() as int);
            assert(record.subrange(0, 8) =~= reply_head(order, keycodes_per_modifier, sequence, fit_u32(spec_padded_len(keycodes@.len() as int) / 4, 0)));
            lemma_reply_shape(order, keycodes_per_modifier, sequence, fit_u32(spec_padded_len(keycodes@.len() as int) / 4, 0), record);
        },
        _ => {},
    }
}

proof fn lemma_get_keyboard_mapping_reply_length(order: XByteOrder, reply: XClientReply)
    requires
        reply is GetKeyboardMapping,
        reply_encodable(reply),
        reply_record(order, reply).len() <= 32 + 4 * 0xffff_ffffint,
    ensures
        reply_record(order, reply).len() >= 32,
        reply_record(order, reply)[0] == 1,
        reply_record(order, reply).len() == 32 + 4 * u32_at(order, reply_record(order, reply), 4),
        u16_at(order, reply_record(order, reply), 2) == reply_sequence(reply),
{
    match reply {
        XClientReply::GetKeyboardMapping { sequence, keysyms_per_keycode, keysyms } => {
            let record = get_keyboard_mapping_record(order, sequence, keysyms_per_keycode, keysyms@);
            lemma_u32_seq_bytes_len(order, keysyms@);
            assert(record.subrange(0, 8) =~= reply_head(order, keysyms_per_keycode, sequence, fit_u32(keysyms@.len() as int, 0)));
            lemma_reply_shape(order, keysyms_per_keycode, sequence, fit_u32(keysyms@.len() as int, 0), record);
        },
        _ => {},
    }
}

proof fn lemma_get_keyboard_control_reply_length(order: XByteOrder, reply: XClientReply)
    requires
        reply is GetKeyboardControl,
        reply_encodable(reply),
        reply_record(order, reply).len() <= 32 + 4 * 0xffff_ffffint,
    ensures
        reply_record(order, reply).len() >= 32,
        reply_record(order, reply)[0] == 1,
        reply_record(order, reply).len() == 32 + 4 * u32_at(order, reply_record(order, reply), 4),
        u16_at(order, reply_record(order, reply), 2) == reply_sequence(reply),
{
    match reply {
        XClientReply::GetKeyboardControl { sequence } => {
            let record = get_keyboard_control_record(order, sequence);
            assert(record.subrange(0, 8) =~= reply_head(order, 1, sequence, 5));
            lemma_reply_shape(order, 1, sequence, 5, record);
        },
        _ => {},
    }
}

proof fn lemma_translate_coordinates_reply_length(order: XByteOrder, reply: XClientReply)
    requires
        reply is TranslateCoordinates,
        reply_encodable(reply),
        reply_record(order, reply).len() <= 32 + 4 * 0xffff_ffffint,
    ensures
        reply_record(order, reply).len() >= 32,
        reply_record(order, reply)[0] == 1,
        reply_record(order, reply).len() == 32 + 4 * u32_at(order, reply_record(order, reply), 4),
        u16_at(order, reply_record(order, reply), 2) == reply_sequence(reply),
{
    match reply {
        XClientReply::TranslateCoordinates { sequence, same_screen, child, dst_x, dst_y } => {
            let record = translate_coordinates_record(order, sequence, same_screen, child, dst_x, dst_y);
            assert(record.subrange(0, 8) =~= reply_head(order, flag(same_screen), sequence, 0));
            lemma_reply_shape(order, flag(same_screen), sequence, 0, record);
        },
        _ => {},
    }
}

proof fn lemma_query_font_reply_length(order: XByteOrder, reply: XClientReply)
    requires
        reply is QueryFont,
        reply_encodable(reply),
        reply_record(order, reply).len() <= 32 + 4 * 0xffff_ffffint,
    ensures
        reply_record(order, reply).len() >= 32,
        reply_record(order, reply)[0] == 1,
        reply_record(order, reply).len() == 32 + 4 * u32_at(order, reply_record(order, reply), 4),
        u16_at(order, reply_record(order, reply), 2) == reply_sequence(reply),
{
    match reply {
        XClientReply::QueryFont { sequence, font_ascent, font_descent } => {
            let record = font_info_reply(order, sequence, font_ascent, font_descent, Seq::empty());
            assert(record.subrange(0, 8) =~= reply_head(order, 0, sequence, font_info_length_units(0)));
            lemma_reply_shape(order, 0, sequence, font_info_length_units(0), record);
        },
        _ => {},
    }
}

proof fn lemma_get_property_reply_length(order: XByteOrder, reply: XClientReply)
    requires
        reply is GetProperty,
        reply_encodable(reply),
        reply_record(order, reply).len() <= 32 + 4 * 0xffff_ffffint,
    ensures
        reply_record(order, reply).len() >= 32,
        reply_record(order, reply)[0] == 1,
        reply_record(order, reply).len() == 32 + 4 * u32_at(order, reply_record(order, reply), 4),
        u16_at(order, reply_record(order, reply), 2) == reply_sequence(reply),
{
    match reply {
        XClientReply::GetProperty { sequence, property_type, format, bytes_after, item_count, bytes, } => {
            let record = get_property_record(order, sequence, property_type, format, bytes_after, item_count, bytes@);
            lemma_padded(bytes@.len() as int);
            assert(record.subrange(0, 8) =~= reply_head(order, format, sequence, fit_u32(spec_padded_len(bytes@.len() as int) / 4, 0)));
            lemma_reply_shape(order, format, sequence, fit_u32(spec_padded_len(bytes@.len() as int) / 4, 0), record);
        },
        _ => {},
    }
}

proof fn lemma_get_selection_owner_reply_length(order: XByteOrder, reply: XClientReply)
    requires
        reply is GetSelectionOwner,
        reply_encodable(reply),
        reply_record(order, reply).len() <= 32 + 4 * 0xffff_ffffint,
    ensures
        reply_record(order, reply).len() >= 32,
        reply_record(order, reply)[0] == 1,
        reply_record(order, reply).len() == 32 + 4 * u32_at(order, reply_record(order, reply), 4),
        u16_at(order, reply_record(order, reply), 2) == reply_sequence(reply),
{
    match reply {
        XClientReply::GetSelectionOwner { sequence, owner } => {
            let record = word_record(order, sequence, 0, optional_raw_xid(owner));
            assert(record.subrange(0, 8) =~= reply_head(order, 0, sequence, 0));
            lemma_reply_shape(order, 0, sequence, 0, record);
        },
        _ => {},
    }
}

proof fn lemma_alloc_named_color_reply_length(order: XByteOrder, reply: XClientReply)
    requires
        reply is AllocNamedColor,
        reply_encodable(reply),
        reply_record(order, reply).len() <= 32 + 4 * 0xffff_ffffint,
    ensures
        reply_record(order, reply).len() >= 32,
        reply_record(order, reply)[0] == 1,
        reply_record(order, reply).len() == 32 + 4 * u32_at(order, reply_record(order, reply), 4),
        u16_at(order, reply_record(order, reply), 2) == reply_sequence(reply),
{
    match reply {
        XClientReply::AllocNamedColor { sequence, pixel, red, green, blue } => {
            let record = alloc_named_color_record(order, sequence, pixel, red, green, blue);
            assert(record.subrange(0, 8) =~= reply_head(order, 0, sequence, 0));
            lemma_reply_shape(order, 0, sequence, 0, record);
        },
        _ => {},
    }
}

proof fn lemma_alloc_color_reply_length(order: XByteOrder, reply: XClientReply)
    requires
        reply is AllocColor,
        reply_encodable(reply),
        reply_record(order, reply).len() <= 32 + 4 * 0xffff_ffffint,
    ensures
        reply_record(order, reply).len() >= 32,
        reply_record(order, reply)[0] == 1,
        reply_record(order, reply).len() == 32 + 4 * u32_at(order, reply_record(order, reply), 4),
        u16_at(order, reply_record(order, reply), 2) == reply_sequence(reply),
{
    match reply {
        XClientReply::AllocColor { sequence, pixel, red, green, blue } => {
            let record = alloc_color_record(order, sequence, pixel, red, green, blue);
            assert(record.subrange(0, 8) =~= reply_head(order, 0, sequence, 0));
            lemma_reply_shape(order, 0, sequence, 0, record);
        },
        _ => {},
    }
}

proof fn lemma_list_properties_reply_length(order: XByteOrder, reply: XClientReply)
    requires
        reply is ListProperties,
        reply_encodable(reply),
        reply_record(order, reply).len() <= 32 + 4 * 0xffff_ffffint,
    ensures
        reply_record(order, reply).len() >= 32,
        reply_record(order, reply)[0] == 1,
        reply_record(order, reply).len() == 32 + 4 * u32_at(order, reply_record(order, reply), 4),
        u16_at(order, reply_record(order, reply), 2) == reply_sequence(reply),
{
    match reply {
        XClientReply::ListProperties { sequence, atoms } => {
            let record = list_properties_record(order, sequence, atoms@);
            lemma_u32_seq_bytes_len(order, atoms@);
            assert(record.subrange(0, 8) =~= reply_head(order, 0, sequence, fit_u32(atoms@.len() as int, 0)));
            lemma_reply_shape(order, 0, sequence, fit_u32(atoms@.len() as int, 0), record);
        },
        _ => {},
    }
}

proof fn lemma_query_colors_reply_length(order: XByteOrder, reply: XClientReply)
    requires
        reply is QueryColors,
        reply_encodable(reply),
        reply_record(order, reply).len() <= 32 + 4 * 0xffff_ffffint,
    ensures
        reply_record(order, reply).len() >= 32,
        reply_record(order, reply)[0] == 1,
        reply_record(order, reply).len() == 32 + 4 * u32_at(order, reply_record(order, reply), 4),
        u16_at(order, reply_record(order, reply), 2) == reply_sequence(reply),
{
    match reply {
        XClientReply::QueryColors { sequence, pixels } => {
            let record = query_colors_record(order, sequence, pixels@);
            lemma_colors_len(order, pixels@);
            assert(record.subrange(0, 8) =~= reply_head(order, 0, sequence, fit_u32(2 * pixels@.len() as int, 0)));
            lemma_reply_shape(order, 0, sequence, fit_u32(2 * pixels@.len() as int, 0), record);
        },
        _ => {},
    }
}

proof fn lemma_input_reply_length(order: XByteOrder, reply: XClientReply)
    requires
        reply_encodable(reply),
        !(reply is ListFontsWithInfo),
        reply_group(reply) == 3,
        reply_record(order, reply).len() <= 32 + 4 * 0xffff_ffffint,
    ensures
        reply_record(order, reply).len() >= 32,
        reply_record(order, reply)[0] == 1,
        reply_record(order, reply).len() == 32 + 4 * u32_at(order, reply_record(order, reply), 4),
        u16_at(order, reply_record(order, reply), 2) == reply_sequence(reply),
{
    if reply is XiQueryVersion {
        lemma_xi_query_version_reply_length(order, reply);
    } else if reply is GeQueryVersion {
        lemma_ge_query_version_reply_length(order, reply);
    } else if reply is XiGetClientPointer {
        lemma_xi_get_client_pointer_reply_length(order, reply);
    } else if reply is XiGetExtensionVersion {
        lemma_xi_get_extension_version_reply_length(order, reply);
    } else if reply is XiQueryDevice {
        lemma_xi_query_device_reply_length(order, reply);
    } else if reply is XiQueryPointer {
        lemma_xi_query_pointer_reply_length(order, reply);
    } else if reply is XiGetFocus {
        lemma_xi_get_focus_reply_length(order, reply);
    } else if reply is XiGetProperty {
        lemma_xi_get_property_reply_length(order, reply);
    } else if reply is BigRequestsEnable {
        lemma_big_requests_enable_reply_length(order, reply);
    } else if reply is GetInputFocus {
        lemma_get_input_focus_reply_length(order, reply);
    } else if reply is QueryPointer {
        lemma_query_pointer_reply_length(order, reply);
    } else if reply is GetModifierMapping {
        lemma_get_modifier_mapping_reply_length(order, reply);
    } else if reply is GetKeyboardMapping {
        lemma_get_keyboard_mapping_reply_length(order, reply);
    } else if reply is GetKeyboardControl {
        lemma_get_keyboard_control_reply_length(order, reply);
    } else if reply is TranslateCoordinates {
        lemma_translate_coordinates_reply_length(order, reply);
    } else if reply is QueryFont {
        lemma_query_font_reply_length(order, reply);
    } else if reply is GetProperty {
        lemma_get_property_reply_length(order, reply);
    } else if reply is GetSelectionOwner {
        lemma_get_selection_owner_reply_length(order, reply);
    } else if reply is AllocNamedColor {
        lemma_alloc_named_color_reply_length(order, reply);
    } else if reply is AllocColor {
        lemma_alloc_color_reply_length(order, reply);
    } else if reply is ListProperties {
        lemma_list_properties_reply_length(order, reply);
    } else if reply is QueryColors {
        lemma_query_colors_reply_length(order, reply);
    }
}

proof fn lemma_extra_display_reply_length(order: XByteOrder, reply: XClientReply)
    requires
        reply is RandrGetCrtcGamma || reply is RandrGetCrtcTransform || reply is RandrGetPanning
            || reply is ShmGetImage,
    ensures
        reply_record(order, reply).len() >= 32,
        reply_record(order, reply)[0] == 1,
        reply_record(order, reply).len() == 32 + 4 * u32_at(order, reply_record(order, reply), 4),
        u16_at(order, reply_record(order, reply), 2) == reply_sequence(reply),
{
    match reply {
        XClientReply::RandrGetCrtcGamma { sequence } => {
            let record = crtc_gamma_record(order, sequence);
            assert(record.subrange(0, 8) =~= reply_head(order, 0, sequence, 0));
            lemma_reply_shape(order, 0, sequence, 0, record);
        },
        XClientReply::RandrGetCrtcTransform { sequence } => {
            let record = crtc_transform_record(order, sequence);
            lemma_u32_seq_bytes_len(order, identity_matrix_values());
            assert(record.subrange(0, 8) =~= reply_head(order, 0, sequence, 16));
            lemma_reply_shape(order, 0, sequence, 16, record);
        },
        XClientReply::RandrGetPanning { sequence, timestamp } => {
            let record = panning_record(order, sequence, timestamp);
            assert(record.subrange(0, 8) =~= reply_head(order, 0, sequence, 1));
            lemma_reply_shape(order, 0, sequence, 1, record);
        },
        XClientReply::ShmGetImage { sequence, depth, visual, size } => {
            let record = shm_get_image_record(order, sequence, depth, visual, size);
            assert(record.subrange(0, 8) =~= reply_head(order, depth, sequence, 0));
            lemma_reply_shape(order, depth, sequence, 0, record);
        },
        _ => {},
    }
}

proof fn lemma_sync_counter_reply_length(order: XByteOrder, reply: XClientReply)
    requires
        reply is SyncListSystemCounters || reply is SyncQueryCounter,
    ensures
        reply_record(order, reply).len() >= 32,
        reply_record(order, reply)[0] == 1,
        reply_record(order, reply).len() == 32 + 4 * u32_at(order, reply_record(order, reply), 4),
        u16_at(order, reply_record(order, reply), 2) == reply_sequence(reply),
{
    match reply {
        XClientReply::SyncListSystemCounters { sequence } => {
            let record = list_system_counters_record(order, sequence);
            assert(record.subrange(0, 8) =~= reply_head(order, 0, sequence, 0));
            lemma_reply_shape(order, 0, sequence, 0, record);
        },
        XClientReply::SyncQueryCounter { sequence, value } => {
            let record = query_counter_record(order, sequence, value);
            assert(record.subrange(0, 8) =~= reply_head(order, 0, sequence, 0));
            lemma_reply_shape(order, 0, sequence, 0, record);
        },
        _ => {},
    }
}

/// A reply's length field counts the four-byte units that follow its first
/// 32 bytes, so a client that reads 32 bytes and then as many units as the
/// field says has read exactly one reply; its bytes 2..4 carry the sequence
/// number of the request it answers. ListFontsWithInfo answers with a
/// series of replies and is left out, as is a reply too long for the field.
pub proof fn law_reply_length_field_counts_the_rest(order: XByteOrder, reply: XClientReply)
    requires
        reply_encodable(reply),
        !(reply is ListFontsWithInfo),
        reply_record(order, reply).len() <= 32 + 4 * 0xffff_ffffint,
    ensures
        reply_record(order, reply).len() >= 32,
        reply_record(order, reply)[0] == 1,
        reply_record(order, reply).len() == 32 + 4 * u32_at(order, reply_record(order, reply), 4),
        u16_at(order, reply_record(order, reply), 2) == reply_sequence(reply),
        reply_record(order, reply).len() % 4 == 0,
{
    if reply_group(reply) == 0 {
        lemma_core_reply_length(order, reply);
    } else if reply_group(reply) == 1 {
        lemma_display_reply_length(order, reply);
    } else if reply_group(reply) == 2 {
        lemma_keyboard_glx_reply_length(order, reply);
    } else {
        lemma_input_reply_length(order, reply);
    }
}

/// A `QueryPointer` reply carries the pointer's position relative to the
/// root window at byte 16 (x) and 18 (y), its position relative to the
/// queried window at 20 (x) and 22 (y), and the button and modifier mask at
/// 24, each in the client's byte order.
pub proof fn law_query_pointer_reply_positions(
    order: XByteOrder,
    sequence: u16,
    root: XResourceId,
    child: XResourceId,
    root_x: i16,
    root_y: i16,
    win_x: i16,
    win_y: i16,
    mask: u16,
)
    ensures
        ({
            let record = reply_record(
                order,
                XClientReply::QueryPointer { sequence, root, child, root_x, root_y, win_x, win_y, mask },
            );
            &&& record.len() == 32
            &&& u16_at(order, record, 16) == root_x as u16
            &&& u16_at(order, record, 18) == root_y as u16
            &&& u16_at(order, record, 20) == win_x as u16
            &&& u16_at(order, record, 22) == win_y as u16
            &&& u16_at(order, record, 24) == mask
        }),
{
    let record = reply_record(
        order,
        XClientReply::QueryPointer { sequence, root, child, root_x, root_y, win_x, win_y, mask },
    );
    lemma_u16_bytes_len(order, sequence);
    lemma_u32_bytes_len(order, 0);
    lemma_u32_bytes_len(order, raw_xid(root));
    lemma_u32_bytes_len(order, raw_xid(child));
    lemma_u16_bytes_len(order, root_x as u16);
    lemma_u16_bytes_len(order, root_y as u16);
    lemma_u16_bytes_len(order, win_x as u16);
    lemma_u16_bytes_len(order, win_y as u16);
    lemma_u16_bytes_len(order, mask);
    assert(record.len() == 32);
    assert(record.subrange(16, 18) =~= u16_bytes(order, root_x as u16));
    assert(record.subrange(18, 20) =~= u16_bytes(order, root_y as u16));
    assert(record.subrange(20, 22) =~= u16_bytes(order, win_x as u16));
    assert(record.subrange(22, 24) =~= u16_bytes(order, win_y as u16));
    assert(record.subrange(24, 26) =~= u16_bytes(order, mask));
    lemma_u16_at_written(order, record, 16, root_x as u16);
    lemma_u16_at_written(order, record, 18, root_y as u16);
    lemma_u16_at_written(order, record, 20, win_x as u16);
    lemma_u16_at_written(order, record, 22, win_y as u16);
    lemma_u16_at_written(order, record, 24, mask);
}

/// A `TranslateCoordinates` reply carries the translated x at byte 12 and
/// the translated y at byte 14.
pub proof fn law_translate_coordinates_reply_positions(
    order: XByteOrder,
    sequence: u16,
    same_screen: bool,
    child: Option<XResourceId>,
    dst_x: i16,
    dst_y: i16,
)
    ensures
        ({
            let record = reply_record(
                order,
                XClientReply::TranslateCoordinates { sequence, same_screen, child, dst_x, dst_y },
            );
            &&& record.len() == 32
            &&& record[1] == if same_screen { 1u8 } else { 0u8 }
            &&& u16_at(order, record, 12) == dst_x as u16
            &&& u16_at(order, record, 14) == dst_y as u16
        }),
{
    let record = reply_record(
        order,
        XClientReply::TranslateCoordinates { sequence, same_screen, child, dst_x, dst_y },
    );
    lemma_u16_bytes_len(order, sequence);
    lemma_u32_bytes_len(order, 0);
    lemma_u32_bytes_len(order, optional_raw_xid(child));
    lemma_u16_bytes_len(order, dst_x as u16);
    lemma_u16_bytes_len(order, dst_y as u16);
    assert(record.len() == 32);
    assert(record.subrange(12, 14) =~= u16_bytes(order, dst_x as u16));
    assert(record.subrange(14, 16) =~= u16_bytes(order, dst_y as u16));
    lemma_u16_at_written(order, record, 12, dst_x as u16);
    lemma_u16_at_written(order, record, 14, dst_y as u16);
}

/// A `GetGeometry` reply carries the depth as its detail byte, then the
/// window's x at byte 12, y at 14, width at 16, height at 18 and border
/// width at 20, for a geometry that fits the 16-bit fields.
pub proof fn law_get_geometry_reply_positions(
    order: XByteOrder,
    sequence: u16,
    depth: u8,
    root: XResourceId,
    geometry: Rect,
    border_width: u16,
)
    ensures
        ({
            let record = reply_record(
                order,
                XClientReply::GetGeometry { sequence, depth, root, geometry, border_width },
            );
            &&& record.len() == 32
            &&& record[1] == depth
            &&& (i16::MIN <= geometry.x <= i16::MAX) ==> u16_at(order, record, 12) == (geometry.x as i16) as u16
            &&& (i16::MIN <= geometry.y <= i16::MAX) ==> u16_at(order, record, 14) == (geometry.y as i16) as u16
            &&& (0 <= geometry.width <= u16::MAX) ==> u16_at(order, record, 16) == geometry.width as u16
            &&& (0 <= geometry.height <= u16::MAX) ==> u16_at(order, record, 18) == geometry.height as u16
            &&& u16_at(order, record, 20) == border_width
        }),
{
    let record = reply_record(
        order,
        XClientReply::GetGeometry { sequence, depth, root, geometry, border_width },
    );
    let x = fit_i16(geometry.x as int) as u16;
    let y = fit_i16(geometry.y as int) as u16;
    let w = fit_u16(geometry.width as int, 0);
    let h = fit_u16(geometry.height as int, 0);
    lemma_u16_bytes_len(order, sequence);
    lemma_u32_bytes_len(order, 0);
    lemma_u32_bytes_len(order, raw_xid(root));
    lemma_u16_bytes_len(order, x);
    lemma_u16_bytes_len(order, y);
    lemma_u16_bytes_len(order, w);
    lemma_u16_bytes_len(order, h);
    lemma_u16_bytes_len(order, border_width);
    assert(record.len() == 32);
    assert(record.subrange(12, 14) =~= u16_bytes(order, x));
    assert(record.subrange(14, 16) =~= u16_bytes(order, y));
    assert(record.subrange(16, 18) =~= u16_bytes(order, w));
    assert(record.subrange(18, 20) =~= u16_bytes(order, h));
    assert(record.subrange(20, 22) =~= u16_bytes(order, border_width));
    lemma_u16_at_written(order, record, 12, x);
    lemma_u16_at_written(order, record, 14, y);
    lemma_u16_at_written(order, record, 16, w);
    lemma_u16_at_written(order, record, 18, h);
    lemma_u16_at_written(order, record, 20, border_width);
}

} // verus!
