use sophia_x_authority::client_output::{
    encode_x_client_error, encode_x_client_event, XClientError, XClientEvent, XErrorCode,
    XRandrModeInfo, XRandrMonitorInfo, XXiDeviceClass, XXiDeviceInfo,
};
use sophia_x_authority::client_reply::{
    encode_x_client_output, encode_x_client_reply, XClientOutput, XClientReply,
};
use sophia_x_authority::geometry::Rect;
use sophia_x_authority::resource::XResourceId;
use sophia_x_authority::wire::XByteOrder;

const LE: XByteOrder = XByteOrder::LittleEndian;
const BE: XByteOrder = XByteOrder::BigEndian;

fn le16(v: u16) -> [u8; 2] {
    v.to_le_bytes()
}

fn le32(v: u32) -> [u8; 4] {
    v.to_le_bytes()
}

fn header(out: &[u8]) -> (u8, u8, u16, u32) {
    (
        out[0],
        out[1],
        u16::from_le_bytes([out[2], out[3]]),
        u32::from_le_bytes([out[4], out[5], out[6], out[7]]),
    )
}

#[test]
fn intern_atom_reply_layout() {
    let out = encode_x_client_reply(LE, XClientReply::InternAtom { sequence: 0x1234, atom: 0x0102_0304 });
    let mut expected = vec![0u8; 32];
    expected[..12].copy_from_slice(&[1, 0, 0x34, 0x12, 0, 0, 0, 0, 4, 3, 2, 1]);
    assert_eq!(out, expected);
}

#[test]
fn get_atom_name_pads_the_name_big_endian() {
    let out = encode_x_client_reply(
        BE,
        XClientReply::GetAtomName { sequence: 5, name: String::from("WM_NAME") },
    );
    assert_eq!(out.len(), 40);
    assert_eq!(&out[..10], &[1, 0, 0, 5, 0, 0, 0, 2, 0, 7]);
    assert!(out[10..32].iter().all(|b| *b == 0));
    assert_eq!(&out[32..39], b"WM_NAME");
    assert_eq!(out[39], 0);
}

#[test]
fn get_geometry_writes_signed_position_and_drops_oversized_extent() {
    let out = encode_x_client_reply(
        LE,
        XClientReply::GetGeometry {
            sequence: 1,
            depth: 24,
            root: XResourceId::new(0x100, 1),
            geometry: Rect { x: -5, y: 40_000, width: 70_000, height: 480 },
            border_width: 2,
        },
    );
    assert_eq!(out.len(), 32);
    assert_eq!(header(&out), (1, 24, 1, 0));
    assert_eq!(&out[8..12], &le32(0x100));
    assert_eq!(&out[12..14], &le16(0xFFFB));
    assert_eq!(&out[14..16], &[0, 0]);
    assert_eq!(&out[16..18], &[0, 0]);
    assert_eq!(&out[18..20], &le16(480));
    assert_eq!(&out[20..22], &le16(2));
}

#[test]
fn get_image_pads_pixel_data() {
    let out = encode_x_client_reply(
        LE,
        XClientReply::GetImage { sequence: 9, depth: 24, visual: 0x21, data: vec![7, 8, 9] },
    );
    assert_eq!(out.len(), 36);
    assert_eq!(header(&out), (1, 24, 9, 1));
    assert_eq!(&out[8..12], &le32(0x21));
    assert_eq!(&out[32..36], &[7, 8, 9, 0]);
}

#[test]
fn query_tree_lists_children() {
    let out = encode_x_client_reply(
        LE,
        XClientReply::QueryTree {
            sequence: 3,
            root: XResourceId::new(0x100, 1),
            parent: XResourceId::none(),
            children: vec![XResourceId::new(0x20_0001, 1), XResourceId::new(0x300, 2)],
        },
    );
    assert_eq!(out.len(), 40);
    assert_eq!(header(&out), (1, 0, 3, 2));
    assert_eq!(&out[8..12], &le32(0x100));
    assert_eq!(&out[12..16], &[0, 0, 0, 0]);
    assert_eq!(&out[16..18], &le16(2));
    assert_eq!(&out[32..36], &le32(0x20_0001));
    assert_eq!(&out[36..40], &le32(0x300));
}

#[test]
fn window_attributes_reply_is_forty_four_bytes() {
    let out = encode_x_client_reply(
        LE,
        XClientReply::GetWindowAttributes {
            sequence: 1,
            visual: 0x21,
            colormap: XResourceId::new(0x20, 1),
            map_state: 2,
            override_redirect: true,
        },
    );
    assert_eq!(out.len(), 44);
    assert_eq!(header(&out), (1, 0, 1, 3));
    assert_eq!(&out[8..16], &[0x21, 0, 0, 0, 1, 0, 0, 1]);
    assert_eq!(&out[24..28], &[0, 1, 2, 1]);
    assert_eq!(&out[28..32], &le32(0x20));
    assert!(out[32..].iter().all(|b| *b == 0));
}

#[test]
fn list_fonts_counts_length_prefixed_names() {
    let out = encode_x_client_reply(
        LE,
        XClientReply::ListFonts {
            sequence: 2,
            names: vec![String::from("fixed"), String::from("cursor")],
        },
    );
    assert_eq!(out.len(), 48);
    assert_eq!(header(&out), (1, 0, 2, 4));
    assert_eq!(&out[8..10], &le16(2));
    assert_eq!(out[32], 5);
    assert_eq!(&out[33..38], b"fixed");
    assert_eq!(out[38], 6);
    assert_eq!(&out[39..45], b"cursor");
    assert_eq!(&out[45..48], &[0, 0, 0]);
}

#[test]
fn list_fonts_with_info_ends_with_an_empty_reply() {
    let out = encode_x_client_reply(
        LE,
        XClientReply::ListFontsWithInfo { sequence: 4, names: vec![String::from("fixed")] },
    );
    assert_eq!(out.len(), 68 + 60);
    assert_eq!(header(&out[..8]), (1, 5, 4, 9));
    assert_eq!(&out[60..65], b"fixed");
    assert_eq!(header(&out[68..76]), (1, 0, 4, 7));
}

#[test]
fn dri3_modifiers_follow_the_counts() {
    let out = encode_x_client_reply(
        LE,
        XClientReply::Dri3GetSupportedModifiers {
            sequence: 1,
            window_modifiers: vec![1],
            screen_modifiers: vec![2, 3],
        },
    );
    assert_eq!(out.len(), 56);
    assert_eq!(header(&out), (1, 0, 1, 6));
    assert_eq!(&out[8..12], &le32(1));
    assert_eq!(&out[12..16], &le32(2));
    assert_eq!(&out[32..40], &1u64.to_le_bytes());
    assert_eq!(&out[48..56], &3u64.to_le_bytes());
}

#[test]
fn randr_screen_resources_describe_modes_and_names() {
    let out = encode_x_client_reply(
        LE,
        XClientReply::RandrGetScreenResources {
            sequence: 6,
            timestamp: 77,
            crtcs: vec![0x41],
            outputs: vec![0x51],
            modes: vec![XRandrModeInfo {
                id: 0x61,
                width: 1920,
                height: 1080,
                refresh_millihz: 60_000,
                name: b"1920x1080".to_vec(),
            }],
        },
    );
    assert_eq!(out.len(), 84);
    assert_eq!(header(&out), (1, 0, 6, 13));
    assert_eq!(&out[8..12], &le32(77));
    assert_eq!(&out[12..16], &le32(77));
    assert_eq!(&out[16..24], &[1, 0, 1, 0, 1, 0, 9, 0]);
    assert_eq!(&out[32..36], &le32(0x41));
    assert_eq!(&out[36..40], &le32(0x51));
    let mode = &out[40..72];
    assert_eq!(&mode[0..4], &le32(0x61));
    assert_eq!(&mode[4..8], &[0x80, 0x07, 0x38, 0x04]);
    assert_eq!(&mode[8..12], &le32(124_416_000));
    assert_eq!(&mode[12..18], &[0x80, 0x07, 0x80, 0x07, 0x80, 0x07]);
    assert_eq!(&mode[18..20], &[0, 0]);
    assert_eq!(&mode[20..26], &[0x38, 0x04, 0x38, 0x04, 0x38, 0x04]);
    assert_eq!(&mode[26..28], &le16(9));
    assert_eq!(&out[72..81], b"1920x1080");
    assert_eq!(&out[81..84], &[0, 0, 0]);
}

#[test]
fn randr_output_info_counts_its_name_word() {
    let out = encode_x_client_reply(
        LE,
        XClientReply::RandrGetOutputInfo {
            sequence: 7,
            timestamp: 1,
            crtc: 0x41,
            mm_width: 300,
            mm_height: 200,
            crtcs: vec![0x41],
            modes: vec![0x61],
            name: b"eDP-1".to_vec(),
        },
    );
    assert_eq!(out.len(), 52);
    assert_eq!(header(&out), (1, 0, 7, 5));
    assert_eq!(&out[12..16], &le32(0x41));
    assert_eq!(&out[16..20], &le32(300));
    assert_eq!(&out[26..36], &[1, 0, 1, 0, 1, 0, 0, 0, 5, 0]);
    assert_eq!(&out[36..40], &le32(0x41));
    assert_eq!(&out[40..44], &le32(0x61));
    assert_eq!(&out[44..49], b"eDP-1");
    assert_eq!(&out[49..52], &[0, 0, 0]);
}

#[test]
fn randr_output_property_counts_items_of_the_format() {
    let out = encode_x_client_reply(
        LE,
        XClientReply::RandrGetOutputProperty {
            sequence: 1,
            property_type: 19,
            bytes_after: 0,
            format: 32,
            data: vec![1, 0, 0, 0, 2, 0, 0, 0],
        },
    );
    assert_eq!(out.len(), 40);
    assert_eq!(header(&out), (1, 32, 1, 2));
    assert_eq!(&out[16..20], &le32(2));
    let zero_format = encode_x_client_reply(
        LE,
        XClientReply::RandrGetOutputProperty {
            sequence: 1,
            property_type: 0,
            bytes_after: 0,
            format: 0,
            data: vec![1, 2, 3],
        },
    );
    assert_eq!(&zero_format[16..20], &[0, 0, 0, 0]);
}

#[test]
fn randr_crtc_info_lists_outputs_twice() {
    let out = encode_x_client_reply(
        LE,
        XClientReply::RandrGetCrtcInfo {
            sequence: 1,
            timestamp: 5,
            x: -1,
            y: 0,
            width: 640,
            height: 480,
            mode: 0x61,
            outputs: vec![0x51],
        },
    );
    assert_eq!(out.len(), 40);
    assert_eq!(header(&out), (1, 0, 1, 2));
    assert_eq!(&out[12..14], &[0xFF, 0xFF]);
    assert_eq!(&out[24..32], &[1, 0, 1, 0, 1, 0, 1, 0]);
    assert_eq!(&out[32..36], &le32(0x51));
    assert_eq!(&out[36..40], &le32(0x51));
}

#[test]
fn randr_monitors_describe_each_monitor() {
    let out = encode_x_client_reply(
        LE,
        XClientReply::RandrGetMonitors {
            sequence: 2,
            timestamp: 9,
            monitors: vec![XRandrMonitorInfo {
                name: 0x99,
                primary: true,
                x: 0,
                y: 0,
                width: 800,
                height: 600,
                mm_width: 200,
                mm_height: 150,
                outputs: vec![0x51],
            }],
        },
    );
    assert_eq!(out.len(), 60);
    assert_eq!(header(&out), (1, 0, 2, 7));
    assert_eq!(&out[12..20], &[1, 0, 0, 0, 1, 0, 0, 0]);
    assert_eq!(&out[32..40], &[0x99, 0, 0, 0, 1, 1, 1, 0]);
    assert_eq!(&out[44..48], &[0x20, 0x03, 0x58, 0x02]);
    assert_eq!(&out[56..60], &le32(0x51));
}

#[test]
fn glx_string_is_zero_terminated() {
    let out = encode_x_client_reply(LE, XClientReply::GlxString { sequence: 1, value: String::from("abc") });
    assert_eq!(out.len(), 36);
    assert_eq!(header(&out), (1, 0, 1, 1));
    assert_eq!(&out[12..16], &le32(4));
    assert_eq!(&out[32..36], b"abc\0");
}

#[test]
fn glx_visual_configs_are_eighteen_words_each() {
    let mut config = [0u32; 18];
    for (i, value) in config.iter_mut().enumerate() {
        *value = i as u32;
    }
    let out = encode_x_client_reply(LE, XClientReply::GlxVisualConfigs { sequence: 1, configs: vec![config] });
    assert_eq!(out.len(), 32 + 72);
    assert_eq!(header(&out), (1, 0, 1, 18));
    assert_eq!(&out[8..16], &[1, 0, 0, 0, 18, 0, 0, 0]);
    assert_eq!(&out[100..104], &le32(17));
}

#[test]
fn glx_fb_configs_take_their_width_from_the_first() {
    let out = encode_x_client_reply(
        LE,
        XClientReply::GlxFbConfigs { sequence: 1, configs: vec![vec![(1, 2), (3, 4)], vec![(5, 6)]] },
    );
    assert_eq!(out.len(), 64);
    assert_eq!(header(&out), (1, 0, 1, 8));
    assert_eq!(&out[8..16], &[2, 0, 0, 0, 2, 0, 0, 0]);
    assert_eq!(&out[48..56], &[5, 0, 0, 0, 6, 0, 0, 0]);
    assert!(out[56..64].iter().all(|b| *b == 0));
}

#[test]
fn xkb_get_map_carries_types_symbols_and_modifier_map() {
    let out = encode_x_client_reply(
        LE,
        XClientReply::XkbGetMap {
            sequence: 3,
            present: 0x07,
            keysyms: vec![[0x61, 0x41]],
            modifier_map: vec![(38, 1)],
        },
    );
    assert_eq!(out.len(), 40 + 84);
    assert_eq!(header(&out), (1, 3, 3, 23));
    assert_eq!(&out[8..20], &[0, 0, 8, 255, 7, 0, 0, 4, 4, 8, 2, 0]);
    assert_eq!(out[20], 1);
    assert_eq!(&out[31..35], &[8, 248, 1, 0]);
    assert_eq!(&out[40..48], &[1, 1, 0, 0, 2, 1, 0, 0]);
    assert_eq!(&out[104..112], &[0, 0, 0, 0, 1, 2, 2, 0]);
    assert_eq!(&out[112..120], &[0x61, 0, 0, 0, 0x41, 0, 0, 0]);
    assert_eq!(&out[120..124], &[38, 1, 0, 0]);
}

#[test]
fn xkb_get_names_includes_what_which_asks_for() {
    let out = encode_x_client_reply(
        LE,
        XClientReply::XkbGetNames {
            sequence: 1,
            which: 0x240,
            min_keycode: 8,
            max_keycode: 255,
            component_atoms: vec![1, 2],
            type_atoms: vec![3],
            key_names: vec![*b"AB\0\0"],
        },
    );
    assert_eq!(out.len(), 48);
    assert_eq!(header(&out), (1, 3, 1, 4));
    assert_eq!(&out[8..20], &[0x40, 0x02, 0, 0, 8, 255, 1, 0, 0, 0, 8, 1]);
    assert_eq!(&out[32..44], &[1, 0, 0, 0, 2, 0, 0, 0, 3, 0, 0, 0]);
    assert_eq!(&out[44..48], b"AB\0\0");
}

#[test]
fn xi_query_device_describes_classes() {
    let out = encode_x_client_reply(
        LE,
        XClientReply::XiQueryDevice {
            sequence: 1,
            devices: vec![XXiDeviceInfo {
                device_id: 2,
                device_type: 1,
                attachment: 3,
                name: String::from("kbd"),
                classes: vec![
                    XXiDeviceClass::Key { source_id: 2, keys: vec![9] },
                    XXiDeviceClass::Button { source_id: 2, button_count: 2 },
                    XXiDeviceClass::Valuator { source_id: 2, number: 0, min: -1, max: 1 },
                ],
            }],
        },
    );
    assert_eq!(out.len(), 32 + 92);
    assert_eq!(header(&out), (1, 48, 1, 23));
    assert_eq!(&out[8..10], &le16(1));
    assert_eq!(&out[32..44], &[2, 0, 1, 0, 3, 0, 3, 0, 3, 0, 1, 0]);
    assert_eq!(&out[44..48], b"kbd\0");
    assert_eq!(&out[48..60], &[0, 0, 3, 0, 2, 0, 1, 0, 9, 0, 0, 0]);
    assert_eq!(&out[60..68], &[1, 0, 5, 0, 2, 0, 2, 0]);
    assert_eq!(&out[80..88], &[2, 0, 11, 0, 2, 0, 0, 0]);
    assert_eq!(&out[92..100], &(-1i64).to_le_bytes());
}

#[test]
fn query_colors_reads_zero_as_black() {
    let out = encode_x_client_reply(LE, XClientReply::QueryColors { sequence: 1, pixels: vec![0, 5] });
    assert_eq!(out.len(), 48);
    assert_eq!(header(&out), (1, 0, 1, 4));
    assert_eq!(&out[8..10], &le16(2));
    assert!(out[32..40].iter().all(|b| *b == 0));
    assert_eq!(&out[40..48], &[0xFF, 0xFF, 0xFF, 0xFF, 0xFF, 0xFF, 0, 0]);
}

#[test]
fn keyboard_control_reply_has_all_keys_repeating() {
    let out = encode_x_client_reply(LE, XClientReply::GetKeyboardControl { sequence: 1 });
    assert_eq!(out.len(), 52);
    assert_eq!(header(&out), (1, 1, 1, 5));
    assert_eq!(out[13], 50);
    assert_eq!(&out[14..18], &[0x90, 0x01, 100, 0]);
    assert!(out[20..52].iter().all(|b| *b == 0xFF));
}

#[test]
fn xkb_get_controls_reply_is_ninety_two_bytes() {
    let out = encode_x_client_reply(LE, XClientReply::XkbGetControls { sequence: 1 });
    assert_eq!(out.len(), 92);
    assert_eq!(header(&out), (1, 3, 1, 15));
    assert_eq!(out[9], 1);
    assert_eq!(&out[20..24], &[0x94, 0x02, 40, 0]);
}

#[test]
fn get_property_reply_carries_bytes_and_counts() {
    let out = encode_x_client_reply(
        LE,
        XClientReply::GetProperty {
            sequence: 1,
            property_type: 31,
            format: 8,
            bytes_after: 0,
            item_count: 5,
            bytes: b"hello".to_vec(),
        },
    );
    assert_eq!(out.len(), 40);
    assert_eq!(header(&out), (1, 8, 1, 2));
    assert_eq!(&out[8..20], &[31, 0, 0, 0, 0, 0, 0, 0, 5, 0, 0, 0]);
    assert_eq!(&out[32..40], b"hello\0\0\0");
}

#[test]
fn translate_coordinates_writes_none_for_no_child() {
    let out = encode_x_client_reply(
        LE,
        XClientReply::TranslateCoordinates { sequence: 1, same_screen: true, child: None, dst_x: -2, dst_y: 3 },
    );
    assert_eq!(header(&out), (1, 1, 1, 0));
    assert_eq!(&out[8..16], &[0, 0, 0, 0, 0xFE, 0xFF, 3, 0]);
}

#[test]
fn query_font_is_a_font_information_reply() {
    let out = encode_x_client_reply(LE, XClientReply::QueryFont { sequence: 1, font_ascent: 8, font_descent: 2 });
    assert_eq!(out.len(), 60);
    assert_eq!(header(&out), (1, 0, 1, 7));
    assert_eq!(&out[52..56], &[8, 0, 2, 0]);
}

#[test]
fn color_replies_echo_the_components() {
    let named = encode_x_client_reply(
        LE,
        XClientReply::AllocNamedColor { sequence: 1, pixel: 0xFF, red: 1, green: 2, blue: 3 },
    );
    assert_eq!(&named[8..24], &[0xFF, 0, 0, 0, 1, 0, 2, 0, 3, 0, 1, 0, 2, 0, 3, 0]);
    let plain = encode_x_client_reply(
        LE,
        XClientReply::AllocColor { sequence: 1, pixel: 0xFF, red: 1, green: 2, blue: 3 },
    );
    assert_eq!(&plain[8..20], &[1, 0, 2, 0, 3, 0, 0, 0, 0xFF, 0, 0, 0]);
}

#[test]
fn input_extension_replies_carry_their_minor_opcode() {
    let version = encode_x_client_reply(
        LE,
        XClientReply::XiQueryVersion { sequence: 1, major_version: 2, minor_version: 2 },
    );
    assert_eq!(header(&version), (1, 47, 1, 0));
    let focus = encode_x_client_reply(
        LE,
        XClientReply::XiGetFocus { sequence: 1, focus: XResourceId::new(0x400, 1) },
    );
    assert_eq!(header(&focus), (1, 50, 1, 0));
    assert_eq!(&focus[8..12], &le32(0x400));
    let pointer = encode_x_client_reply(
        LE,
        XClientReply::XiQueryPointer {
            sequence: 1,
            root: XResourceId::new(0x100, 1),
            child: XResourceId::none(),
        },
    );
    assert_eq!(pointer.len(), 56);
    assert_eq!(header(&pointer), (1, 0, 1, 6));
    assert_eq!(pointer[32], 1);
}

#[test]
fn output_wraps_errors_events_and_replies() {
    let error = XClientError {
        code: XErrorCode::BadAtom,
        sequence: 4,
        resource_id: 9,
        minor_code: 0,
        major_code: 17,
    };
    assert_eq!(
        encode_x_client_output(LE, XClientOutput::Error(error)),
        encode_x_client_error(LE, error).to_vec()
    );
    let event = XClientEvent::SelectionClear {
        sequence: 2,
        time: 10,
        owner: XResourceId::new(0x200, 1),
        selection: 1,
    };
    assert_eq!(encode_x_client_output(LE, XClientOutput::Event(event)), encode_x_client_event(LE, event));
    let reply = XClientReply::BigRequestsEnable { sequence: 1, maximum_request_length: 0x40_0000 };
    assert_eq!(
        encode_x_client_output(LE, XClientOutput::Reply(reply.clone())),
        encode_x_client_reply(LE, reply)
    );
}

#[test]
fn key_event_layout() {
    let out = encode_x_client_event(
        LE,
        XClientEvent::Key {
            sequence: 0x10,
            pressed: true,
            keycode: 38,
            time: 1000,
            root: XResourceId::new(0x100, 1),
            event: XResourceId::new(0x20_0001, 1),
            state: 1,
        },
    );
    assert_eq!(out.len(), 32);
    assert_eq!(&out[..4], &[2, 38, 0x10, 0]);
    assert_eq!(&out[4..8], &le32(1000));
    assert_eq!(&out[8..12], &le32(0x100));
    assert_eq!(&out[12..16], &le32(0x20_0001));
    assert_eq!(&out[16..28], &[0; 12]);
    assert_eq!(&out[28..32], &[1, 0, 1, 0]);
}

#[test]
fn client_message_takes_the_receivers_sequence() {
    let mut bytes = [0u8; 32];
    for (i, b) in bytes.iter_mut().enumerate() {
        *b = i as u8 + 100;
    }
    let out = encode_x_client_event(BE, XClientEvent::ClientMessage { sequence: 0x0102, bytes });
    assert_eq!(&out[..4], &[100, 101, 1, 2]);
    assert_eq!(&out[4..], &bytes[4..]);
}

#[test]
fn present_events_are_generic_events_of_their_length() {
    let complete = encode_x_client_event(
        LE,
        XClientEvent::PresentCompleteNotify {
            sequence: 5,
            event_id: XResourceId::new(0x700, 1),
            window: XResourceId::new(0x20_0001, 1),
            serial: 3,
            ust: 0x0102_0304_0506_0708,
            msc: 9,
            mode: 1,
        },
    );
    assert_eq!(complete.len(), 44);
    assert_eq!(&complete[..12], &[35, 148, 5, 0, 3, 0, 0, 0, 1, 0, 0, 1]);
    assert_eq!(&complete[24..32], &0x0102_0304_0506_0708u64.to_le_bytes());
    assert_eq!(&complete[32..36], &le32(5));
    assert_eq!(&complete[36..44], &9u64.to_le_bytes());
    let idle = encode_x_client_event(
        LE,
        XClientEvent::PresentIdleNotify {
            sequence: 5,
            event_id: XResourceId::new(0x700, 1),
            window: XResourceId::new(0x20_0001, 1),
            serial: 3,
            pixmap: XResourceId::new(0x800, 1),
            idle_fence: None,
        },
    );
    assert_eq!(idle.len(), 36);
    assert_eq!(&idle[..10], &[35, 148, 5, 0, 1, 0, 0, 0, 2, 0]);
}

#[test]
fn crtc_gamma_transform_and_panning_replies() {
    let out = encode_x_client_reply(LE, XClientReply::RandrGetCrtcGamma { sequence: 5 });
    assert_eq!(out.len(), 32);
    assert_eq!(header(&out), (1, 0, 5, 0));
    assert_eq!(&out[8..10], &[0, 0]);

    let out = encode_x_client_reply(LE, XClientReply::RandrGetCrtcTransform { sequence: 6 });
    assert_eq!(out.len(), 96);
    assert_eq!(header(&out), (1, 0, 6, 16));
    let identity = [0x1_0000u32, 0, 0, 0, 0x1_0000, 0, 0, 0, 0x1_0000];
    for (index, value) in identity.iter().enumerate() {
        assert_eq!(&out[8 + index * 4..12 + index * 4], &le32(*value));
        assert_eq!(&out[48 + index * 4..52 + index * 4], &le32(*value));
    }
    assert_eq!(&out[44..48], &[0, 0, 0, 0]);
    assert!(out[84..96].iter().all(|b| *b == 0));

    let out = encode_x_client_reply(BE, XClientReply::RandrGetPanning { sequence: 7, timestamp: 0x0102_0304 });
    assert_eq!(out.len(), 36);
    assert_eq!(&out[..12], &[1, 0, 0, 7, 0, 0, 0, 1, 1, 2, 3, 4]);
    assert!(out[12..].iter().all(|b| *b == 0));
}

#[test]
fn sync_counter_and_shm_get_image_replies() {
    let out = encode_x_client_reply(LE, XClientReply::SyncListSystemCounters { sequence: 8 });
    let mut expected = vec![0u8; 32];
    expected[..4].copy_from_slice(&[1, 0, 8, 0]);
    assert_eq!(out, expected);

    let out = encode_x_client_reply(LE, XClientReply::SyncQueryCounter { sequence: 9, value: -2 });
    assert_eq!(out.len(), 32);
    assert_eq!(header(&out), (1, 0, 9, 0));
    assert_eq!(&out[8..12], &le32(0xffff_ffff));
    assert_eq!(&out[12..16], &le32(0xffff_fffe));

    let out = encode_x_client_reply(BE, XClientReply::SyncQueryCounter { sequence: 9, value: 0x0000_0001_0000_0002 });
    assert_eq!(&out[8..16], &[0, 0, 0, 1, 0, 0, 0, 2]);

    let out = encode_x_client_reply(
        LE,
        XClientReply::ShmGetImage { sequence: 10, depth: 24, visual: 0x21, size: 4096 },
    );
    assert_eq!(out.len(), 32);
    assert_eq!(header(&out), (1, 24, 10, 0));
    assert_eq!(&out[8..12], &le32(0x21));
    assert_eq!(&out[12..16], &le32(4096));
    assert!(out[16..].iter().all(|b| *b == 0));
}
