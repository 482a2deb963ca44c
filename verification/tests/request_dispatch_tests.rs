use sophia_x_authority::authority_ids::{FenceHandle, NamespaceId};
use sophia_x_authority::client_output::{XClientError, XErrorCode, XWireParseError};
use sophia_x_authority::client_reply::{XClientOutput, XClientReply};
use sophia_x_authority::dispatch::{
    randr_resources, stable_randr_mode_id, OutputTopologyEntry, OutputTopologySnapshot, XDispatchContext,
};
use sophia_x_authority::geometry::{Rect, Size};
use sophia_x_authority::request_dispatch::{dispatch_x11_parse_error, dispatch_x11_wire_request, XWireRequest};
use sophia_x_authority::resource::XResourceId;
use sophia_x_authority::runtime::XAuthorityRuntime;
use sophia_x_authority::wire::XByteOrder;
use sophia_x_authority::keyboard::{XkbCompiledKey, XkbKeymapSnapshot, XkbRmlvoConfig, XKB_CORE_KEYCODE_COUNT};


fn test_keymap() -> XkbKeymapSnapshot {
    let keys: Vec<XkbCompiledKey> = (0..XKB_CORE_KEYCODE_COUNT)
        .map(|index| XkbCompiledKey {
            level0: vec![0x61 + index as u32],
            level1: vec![0x41 + index as u32],
            repeats: true,
        })
        .collect();
    XkbKeymapSnapshot::from_compiled_keys(&XkbRmlvoConfig::default(), &keys).unwrap()
}

fn fresh_runtime() -> XAuthorityRuntime {
    XAuthorityRuntime::with_keymap(test_keymap())
}

fn context(sequence: u16, major_opcode: u8) -> XDispatchContext {
    XDispatchContext {
        byte_order: XByteOrder::LittleEndian,
        namespace: NamespaceId::new(3),
        sequence,
        major_opcode,
        client_id: 1,
    }
}

fn id(raw: u64) -> XResourceId {
    XResourceId::new(raw, 1)
}

fn error(code: XErrorCode, sequence: u16, resource_id: u32, minor_code: u16, major_code: u8) -> XClientOutput {
    XClientOutput::Error(XClientError { code, sequence, resource_id, minor_code, major_code })
}

#[test]
fn fonts_open_query_and_close() {
    let mut runtime = fresh_runtime();
    let font = id(0x40_0001);
    assert!(dispatch_x11_wire_request(context(1, 45), XWireRequest::OpenFont { font }, &mut runtime).outputs.is_empty());
    assert_eq!(
        dispatch_x11_wire_request(context(2, 47), XWireRequest::QueryFont { font }, &mut runtime).outputs,
        vec![XClientOutput::Reply(XClientReply::QueryFont { sequence: 2, font_ascent: 8, font_descent: 2 })]
    );
    assert!(dispatch_x11_wire_request(context(3, 46), XWireRequest::CloseFont { font }, &mut runtime).outputs.is_empty());
    assert_eq!(
        dispatch_x11_wire_request(context(4, 47), XWireRequest::QueryFont { font }, &mut runtime).outputs,
        vec![error(XErrorCode::BadWindow, 4, 0x40_0001, 0, 47)]
    );
}

#[test]
fn list_fonts_names_fixed_unless_none_are_wanted() {
    let mut runtime = fresh_runtime();
    assert_eq!(
        dispatch_x11_wire_request(context(5, 49), XWireRequest::ListFonts { max_names: 10 }, &mut runtime).outputs,
        vec![XClientOutput::Reply(XClientReply::ListFonts { sequence: 5, names: vec!["fixed".to_owned()] })]
    );
    assert_eq!(
        dispatch_x11_wire_request(context(6, 50), XWireRequest::ListFontsWithInfo { max_names: 0 }, &mut runtime)
            .outputs,
        vec![XClientOutput::Reply(XClientReply::ListFontsWithInfo { sequence: 6, names: Vec::new() })]
    );
}

#[test]
fn cursors_and_pixmaps_check_what_they_are_drawn_from() {
    let mut runtime = fresh_runtime();
    let cursor = id(0x40_0002);
    let missing = id(0x40_0099);
    assert_eq!(
        dispatch_x11_wire_request(
            context(7, 93),
            XWireRequest::CreateCursor { cursor, source: missing, mask: None },
            &mut runtime
        )
        .outputs,
        vec![error(XErrorCode::BadWindow, 7, 0x40_0002, 0, 93)]
    );
    assert_eq!(
        dispatch_x11_wire_request(
            context(8, 94),
            XWireRequest::CreateGlyphCursor { cursor, source_font: missing, mask_font: None },
            &mut runtime
        )
        .outputs,
        vec![error(XErrorCode::BadWindow, 8, 0x40_0099, 0, 94)]
    );
    let root = XResourceId::new(0x100, 1);
    assert!(dispatch_x11_wire_request(
        context(9, 93),
        XWireRequest::CreateCursor { cursor, source: root, mask: Some(root) },
        &mut runtime
    )
    .outputs
    .is_empty());
    assert!(dispatch_x11_wire_request(context(10, 96), XWireRequest::RecolorCursor { cursor }, &mut runtime)
        .outputs
        .is_empty());
    assert!(dispatch_x11_wire_request(context(11, 95), XWireRequest::FreeCursor { cursor }, &mut runtime)
        .outputs
        .is_empty());

    let pixmap = id(0x40_0003);
    assert_eq!(
        dispatch_x11_wire_request(
            context(12, 53),
            XWireRequest::CreatePixmap { pixmap, drawable: root, width: 0, height: 4 },
            &mut runtime
        )
        .outputs,
        vec![error(XErrorCode::BadWindow, 12, 0x40_0003, 0, 53)]
    );
    assert!(dispatch_x11_wire_request(
        context(13, 53),
        XWireRequest::CreatePixmap { pixmap, drawable: root, width: 8, height: 4 },
        &mut runtime
    )
    .outputs
    .is_empty());
    assert_eq!(runtime.pixmap_size(NamespaceId::new(3), pixmap), Ok(Size { width: 8, height: 4 }));
}

#[test]
fn xfixes_regions_and_sync_fences_answer_with_their_minor_opcodes() {
    let mut runtime = fresh_runtime();
    let region = id(0x40_0004);
    let rects = vec![Rect { x: 0, y: 0, width: 2, height: 2 }];
    assert!(dispatch_x11_wire_request(
        context(14, 138),
        XWireRequest::XfixesCreateRegion { region, rectangles: rects.clone() },
        &mut runtime
    )
    .outputs
    .is_empty());
    assert!(dispatch_x11_wire_request(context(15, 138), XWireRequest::XfixesDestroyRegion { region }, &mut runtime)
        .outputs
        .is_empty());
    assert_eq!(
        dispatch_x11_wire_request(
            context(16, 138),
            XWireRequest::XfixesSetRegion { region, rectangles: rects },
            &mut runtime
        )
        .outputs,
        vec![error(XErrorCode::BadWindow, 16, 0x40_0004, 11, 138)]
    );
    assert_eq!(
        dispatch_x11_wire_request(context(17, 134), XWireRequest::SyncDestroyFence { fence: region }, &mut runtime)
            .outputs,
        vec![error(XErrorCode::BadWindow, 17, 0x40_0004, 17, 134)]
    );
    runtime.create_dri3_fence(NamespaceId::new(3), region, 1).unwrap();
    assert!(dispatch_x11_wire_request(context(18, 134), XWireRequest::SyncDestroyFence { fence: region }, &mut runtime)
        .outputs
        .is_empty());
}

#[test]
fn version_queries_answer_fixed_versions() {
    let mut runtime = fresh_runtime();
    assert_eq!(
        dispatch_x11_wire_request(context(19, 134), XWireRequest::SyncInitialize, &mut runtime).outputs,
        vec![XClientOutput::Reply(XClientReply::SyncInitialize { sequence: 19, major_version: 3, minor_version: 1 })]
    );
    assert_eq!(
        dispatch_x11_wire_request(context(20, 130), XWireRequest::ShmQueryVersion, &mut runtime).outputs,
        vec![XClientOutput::Reply(XClientReply::ShmQueryVersion {
            sequence: 20,
            major_version: 1,
            minor_version: 2,
            shared_pixmaps: false,
            pixmap_format: 0,
        })]
    );
    assert_eq!(
        dispatch_x11_wire_request(context(21, 149), XWireRequest::Dri3QueryVersion, &mut runtime).outputs,
        vec![XClientOutput::Reply(XClientReply::Dri3QueryVersion { sequence: 21, major_version: 1, minor_version: 2 })]
    );
    assert_eq!(
        dispatch_x11_wire_request(context(22, 138), XWireRequest::XfixesQueryVersion, &mut runtime).outputs,
        vec![XClientOutput::Reply(XClientReply::XfixesQueryVersion { sequence: 22, major_version: 6, minor_version: 0 })]
    );
}

#[test]
fn undecodable_requests_answer_with_their_parse_error() {
    assert_eq!(
        dispatch_x11_parse_error(context(23, 18), 0, XWireParseError::InvalidValue(9)).outputs,
        vec![error(XErrorCode::BadValue, 23, 0, 0, 18)]
    );
    assert_eq!(
        dispatch_x11_parse_error(context(24, 200), 0, XWireParseError::UnknownOpcode(200)).outputs,
        vec![error(XErrorCode::BadRequest, 24, 0, 0, 200)]
    );
}

#[test]
fn core_and_xkb_keyboard_replies_describe_one_map() {
    let mut runtime = fresh_runtime();
    let core = dispatch_x11_wire_request(
        context(25, 101),
        XWireRequest::GetKeyboardMapping { first_keycode: 9, count: 2 },
        &mut runtime,
    )
    .outputs;
    assert_eq!(
        core,
        vec![XClientOutput::Reply(XClientReply::GetKeyboardMapping {
            sequence: 25,
            keysyms_per_keycode: 2,
            keysyms: vec![0x62, 0x42, 0x63, 0x43],
        })]
    );
    let xkb = dispatch_x11_wire_request(
        context(26, 135),
        XWireRequest::XkbGetMap { full: 0xff, partial: 0 },
        &mut runtime,
    )
    .outputs;
    match &xkb[..] {
        [XClientOutput::Reply(XClientReply::XkbGetMap { sequence, present, keysyms, modifier_map })] => {
            assert_eq!(*sequence, 26);
            assert_eq!(*present, 0x43);
            assert_eq!(keysyms.len(), 248);
            assert_eq!(keysyms[1], [0x62, 0x42]);
            assert_eq!(keysyms[2], [0x63, 0x43]);
            assert!(modifier_map.contains(&(50, 1)));
        }
        other => panic!("unexpected answer {other:?}"),
    }
    assert_eq!(
        dispatch_x11_wire_request(context(27, 119), XWireRequest::GetModifierMapping, &mut runtime).outputs,
        vec![XClientOutput::Reply(XClientReply::GetModifierMapping {
            sequence: 27,
            keycodes_per_modifier: 2,
            keycodes: vec![50, 62, 66, 0, 37, 105, 64, 108, 77, 0, 0, 0, 133, 134, 0, 0],
        })]
    );
}

#[test]
fn extension_and_input_queries_answer_fixed_replies() {
    let mut runtime = fresh_runtime();
    assert_eq!(
        dispatch_x11_wire_request(context(28, 98), XWireRequest::QueryExtension { name: b"MIT-SHM".to_vec() }, &mut runtime)
            .outputs,
        vec![XClientOutput::Reply(XClientReply::QueryExtension {
            sequence: 28,
            present: true,
            major_opcode: 130,
            first_event: 65,
            first_error: 0,
        })]
    );
    assert_eq!(
        dispatch_x11_wire_request(context(29, 98), XWireRequest::QueryExtension { name: b"NOPE".to_vec() }, &mut runtime)
            .outputs,
        vec![XClientOutput::Reply(XClientReply::QueryExtension {
            sequence: 29,
            present: false,
            major_opcode: 0,
            first_event: 0,
            first_error: 0,
        })]
    );
    assert_eq!(
        dispatch_x11_wire_request(context(30, 135), XWireRequest::XkbPerClientFlags { change: 0b110, value: 0b011 }, &mut runtime)
            .outputs,
        vec![XClientOutput::Reply(XClientReply::XkbPerClientFlags { sequence: 30, supported: 0b110, value: 0b010 })]
    );
    assert!(dispatch_x11_wire_request(context(31, 135), XWireRequest::XkbSelectEvents, &mut runtime).outputs.is_empty());
    assert_eq!(
        dispatch_x11_wire_request(context(32, 133), XWireRequest::BigRequestsEnable, &mut runtime).outputs,
        vec![XClientOutput::Reply(XClientReply::BigRequestsEnable { sequence: 32, maximum_request_length: 4096 })]
    );
    assert_eq!(
        dispatch_x11_wire_request(context(33, 97), XWireRequest::QueryBestSize { width: 16, height: 24 }, &mut runtime)
            .outputs,
        vec![XClientOutput::Reply(XClientReply::QueryBestSize { sequence: 33, width: 16, height: 24 })]
    );
    assert_eq!(
        dispatch_x11_wire_request(context(34, 131), XWireRequest::XiQueryVersion, &mut runtime).outputs,
        vec![XClientOutput::Reply(XClientReply::XiQueryVersion { sequence: 34, major_version: 2, minor_version: 0 })]
    );
}

#[test]
fn color_requests_answer_true_color_pixels() {
    let mut runtime = fresh_runtime();
    assert_eq!(
        dispatch_x11_wire_request(context(1, 91), XWireRequest::QueryColors { pixels: vec![7, 0x00ff_00ff] }, &mut runtime).outputs,
        vec![XClientOutput::Reply(XClientReply::QueryColors { sequence: 1, pixels: vec![7, 0x00ff_00ff] })]
    );
    assert_eq!(
        dispatch_x11_wire_request(context(2, 85), XWireRequest::AllocNamedColor { name: b"BlAcK".to_vec() }, &mut runtime).outputs,
        vec![XClientOutput::Reply(XClientReply::AllocNamedColor { sequence: 2, pixel: 0, red: 0, green: 0, blue: 0 })]
    );
    assert_eq!(
        dispatch_x11_wire_request(context(3, 85), XWireRequest::AllocNamedColor { name: b"white".to_vec() }, &mut runtime).outputs,
        vec![XClientOutput::Reply(XClientReply::AllocNamedColor { sequence: 3, pixel: 1, red: 0xffff, green: 0xffff, blue: 0xffff })]
    );
    assert_eq!(
        dispatch_x11_wire_request(context(4, 85), XWireRequest::AllocNamedColor { name: b"blacks".to_vec() }, &mut runtime).outputs,
        vec![XClientOutput::Reply(XClientReply::AllocNamedColor { sequence: 4, pixel: 1, red: 0xffff, green: 0xffff, blue: 0xffff })]
    );
    assert_eq!(
        dispatch_x11_wire_request(context(5, 84), XWireRequest::AllocColor { red: 0x1234, green: 0x5678, blue: 0x9abc }, &mut runtime).outputs,
        vec![XClientOutput::Reply(XClientReply::AllocColor { sequence: 5, pixel: 0x0012_569a, red: 0x1234, green: 0x5678, blue: 0x9abc })]
    );
}

#[test]
fn present_randr_and_glx_versions_are_fixed() {
    let mut runtime = fresh_runtime();
    assert_eq!(
        dispatch_x11_wire_request(context(1, 148), XWireRequest::PresentQueryVersion, &mut runtime).outputs,
        vec![XClientOutput::Reply(XClientReply::PresentQueryVersion { sequence: 1, major_version: 1, minor_version: 2 })]
    );
    assert_eq!(
        dispatch_x11_wire_request(context(2, 140), XWireRequest::RandrQueryVersion, &mut runtime).outputs,
        vec![XClientOutput::Reply(XClientReply::RandrQueryVersion { sequence: 2, major_version: 1, minor_version: 5 })]
    );
    assert_eq!(
        dispatch_x11_wire_request(context(3, 150), XWireRequest::GlxQueryVersion, &mut runtime).outputs,
        vec![XClientOutput::Reply(XClientReply::GlxQueryVersion { sequence: 3, major_version: 1, minor_version: 4 })]
    );
    assert!(dispatch_x11_wire_request(context(4, 150), XWireRequest::GlxClientInfo, &mut runtime).outputs.is_empty());
    assert_eq!(
        dispatch_x11_wire_request(context(5, 131), XWireRequest::XiGetProperty, &mut runtime).outputs,
        vec![XClientOutput::Reply(XClientReply::XiGetProperty { sequence: 5 })]
    );
}

fn two_outputs(generation: u64) -> OutputTopologySnapshot {
    OutputTopologySnapshot {
        generation,
        primary: 2,
        outputs: vec![
            OutputTopologyEntry {
                output: 1,
                logical: Rect { x: 0, y: 0, width: 1920, height: 1080 },
                refresh_millihz: 60_000,
            },
            OutputTopologyEntry {
                output: 2,
                logical: Rect { x: 1920, y: -40_000, width: 1280, height: 1024 },
                refresh_millihz: 74_973,
            },
        ],
    }
}

#[test]
fn output_topology_updates_only_forward() {
    let mut runtime = fresh_runtime();
    assert_eq!(runtime.output_topology().generation, 0);
    assert!(runtime.output_topology().outputs.is_empty());
    assert!(runtime.update_output_topology(two_outputs(5)));
    assert_eq!(runtime.output_topology(), &two_outputs(5));
    let mut older = two_outputs(5);
    older.outputs.pop();
    assert!(!runtime.update_output_topology(older));
    assert_eq!(runtime.output_topology(), &two_outputs(5));
}

#[test]
fn randr_output_and_crtc_info_describe_the_layout() {
    let mut runtime = fresh_runtime();
    assert!(runtime.update_output_topology(two_outputs(7)));
    assert_eq!(
        dispatch_x11_wire_request(context(1, 140), XWireRequest::RandrGetOutputInfo { output: 0x2000_0002 }, &mut runtime).outputs,
        vec![XClientOutput::Reply(XClientReply::RandrGetOutputInfo {
            sequence: 1,
            timestamp: 7,
            crtc: 0x1000_0002,
            mm_width: 339,
            mm_height: 271,
            crtcs: vec![0x1000_0002],
            modes: vec![stable_randr_mode_id(1280, 1024, 74_973)],
            name: b"SOPHIA-2".to_vec(),
        })]
    );
    assert_eq!(
        dispatch_x11_wire_request(context(2, 140), XWireRequest::RandrGetCrtcInfo { crtc: 0x1000_0002 }, &mut runtime).outputs,
        vec![XClientOutput::Reply(XClientReply::RandrGetCrtcInfo {
            sequence: 2,
            timestamp: 7,
            x: 1920,
            y: i16::MAX,
            width: 1280,
            height: 1024,
            mode: stable_randr_mode_id(1280, 1024, 74_973),
            outputs: vec![0x2000_0002],
        })]
    );
    assert_eq!(
        dispatch_x11_wire_request(context(3, 140), XWireRequest::RandrGetCrtcInfo { crtc: 0x1000_0001 }, &mut runtime).outputs,
        vec![XClientOutput::Reply(XClientReply::RandrGetCrtcInfo {
            sequence: 3,
            timestamp: 7,
            x: 0,
            y: 0,
            width: 1920,
            height: 1080,
            mode: randr_resources(&two_outputs(7)).modes[0].id,
            outputs: vec![0x2000_0001],
        })]
    );
    assert_eq!(
        dispatch_x11_wire_request(context(4, 140), XWireRequest::RandrGetOutputInfo { output: 0x2000_0003 }, &mut runtime).outputs,
        vec![error(XErrorCode::BadValue, 4, 0x2000_0003, 9, 140)]
    );
    assert_eq!(
        dispatch_x11_wire_request(context(5, 140), XWireRequest::RandrGetCrtcInfo { crtc: 0x2000_0001 }, &mut runtime).outputs,
        vec![error(XErrorCode::BadValue, 5, 0x2000_0001, 20, 140)]
    );
}

#[test]
fn freed_pixmap_is_unknown_afterwards() {
    let mut runtime = fresh_runtime();
    let root = id(0x100);
    let pixmap = id(0x40_0020);
    assert!(dispatch_x11_wire_request(
        context(1, 53),
        XWireRequest::CreatePixmap { pixmap, drawable: root, width: 3, height: 5 },
        &mut runtime
    )
    .outputs
    .is_empty());
    let mut other = context(2, 54);
    other.namespace = NamespaceId::new(4);
    assert_eq!(
        dispatch_x11_wire_request(other, XWireRequest::FreePixmap { pixmap }, &mut runtime).outputs,
        vec![error(XErrorCode::BadAccess, 2, 0x40_0020, 0, 54)]
    );
    assert!(dispatch_x11_wire_request(context(3, 54), XWireRequest::FreePixmap { pixmap }, &mut runtime)
        .outputs
        .is_empty());
    assert!(runtime.pixmap_size(NamespaceId::new(3), pixmap).is_err());
    assert_eq!(
        dispatch_x11_wire_request(context(4, 54), XWireRequest::FreePixmap { pixmap }, &mut runtime).outputs,
        vec![error(XErrorCode::BadWindow, 4, 0x40_0020, 0, 54)]
    );
}

#[test]
fn dri3_open_checks_provider_then_drawable() {
    let mut runtime = fresh_runtime();
    let root = id(0x100);
    assert_eq!(
        dispatch_x11_wire_request(context(1, 149), XWireRequest::Dri3Open { drawable: root, provider: 7 }, &mut runtime).outputs,
        vec![error(XErrorCode::BadValue, 1, 7, 1, 149)]
    );
    assert_eq!(
        dispatch_x11_wire_request(context(2, 149), XWireRequest::Dri3Open { drawable: root, provider: 0 }, &mut runtime).outputs,
        vec![XClientOutput::Reply(XClientReply::Dri3Open { sequence: 2 })]
    );
    assert_eq!(
        dispatch_x11_wire_request(context(3, 149), XWireRequest::Dri3Open { drawable: id(0x40_0030), provider: 0 }, &mut runtime).outputs,
        vec![error(XErrorCode::BadWindow, 3, 0x40_0030, 1, 149)]
    );
}

#[test]
fn dri3_fences_from_fds_get_climbing_handles() {
    let mut runtime = fresh_runtime();
    let root = id(0x100);
    let first = id(0x40_0040);
    let second = id(0x40_0041);
    assert!(dispatch_x11_wire_request(context(1, 149), XWireRequest::Dri3FenceFromFd { drawable: root, fence: first }, &mut runtime)
        .outputs
        .is_empty());
    assert!(dispatch_x11_wire_request(context(2, 149), XWireRequest::Dri3FenceFromFd { drawable: root, fence: second }, &mut runtime)
        .outputs
        .is_empty());
    assert_eq!(runtime.dri3_fence_handle(NamespaceId::new(3), first), Ok(FenceHandle::from_raw(1)));
    assert_eq!(runtime.dri3_fence_handle(NamespaceId::new(3), second), Ok(FenceHandle::from_raw(2)));
    assert_eq!(
        dispatch_x11_wire_request(
            context(3, 149),
            XWireRequest::Dri3FenceFromFd { drawable: id(0x40_0050), fence: id(0x40_0042) },
            &mut runtime
        )
        .outputs,
        vec![error(XErrorCode::BadWindow, 3, 0x40_0050, 0, 149)]
    );
    assert_eq!(
        dispatch_x11_wire_request(
            context(4, 149),
            XWireRequest::Dri3FenceFromFd { drawable: root, fence: id(0) },
            &mut runtime
        )
        .outputs,
        vec![error(XErrorCode::BadWindow, 4, 0, 0, 149)]
    );
}
