use sophia_x_authority::authority_ids::{NamespaceId, PolicyPresentationState, SurfaceId, TransactionId};
use sophia_x_authority::client_output::{XClientError, XErrorCode};
use sophia_x_authority::client_reply::{XClientOutput, XClientReply};
use sophia_x_authority::clipboard::{
    clipboard_selection_failure_notify, ClipboardSelectionFailureRequest, ClipboardSelectionHandoff,
    ClipboardSelectionNotify, ClipboardTextProperty, PortalTransferId,
};
use sophia_x_authority::dispatch::{
    copy_image_region, grab_access_error, push_decimal, randr_monitors, randr_resources,
    shm_image_source_len, stable_randr_identity, stable_randr_mode_id,
    x_client_output_from_property_read, OutputTopologyEntry, OutputTopologySnapshot,
    XDispatchContext,
};
use sophia_x_authority::geometry::Rect;
use sophia_x_authority::property::{XPropertyError, XPropertyReadReply};
use sophia_x_authority::render_picture::{
    render_apply_picture_values, render_translated_clip, XRenderPictFormatKind,
    XRenderPictureError, XRenderPictureRecord, XRenderPictureValueSet,
};
use sophia_x_authority::resource::XResourceId;
use sophia_x_authority::routing_types::{XAuthorityControlCommand, XAuthorityControlKind};
use sophia_x_authority::wire::XByteOrder;

fn context() -> XDispatchContext {
    XDispatchContext {
        byte_order: XByteOrder::LittleEndian,
        namespace: NamespaceId::new(1),
        sequence: 42,
        major_opcode: 20,
        client_id: 7,
    }
}

#[test]
fn grab_of_a_foreign_window_is_bad_access() {
    let output = grab_access_error(&context(), XResourceId::new(0x20_0001, 1));
    assert_eq!(
        output,
        XClientOutput::Error(XClientError {
            code: XErrorCode::BadAccess,
            sequence: 42,
            resource_id: 0x20_0001,
            minor_code: 0,
            major_code: 20,
        })
    );
}

#[test]
fn property_read_becomes_reply_or_error() {
    let reply = XPropertyReadReply { property_type: 31, format: 8, bytes_after: 0, item_count: 2, bytes: b"hi".to_vec() };
    assert_eq!(
        x_client_output_from_property_read(&context(), Ok(reply)),
        XClientOutput::Reply(XClientReply::GetProperty {
            sequence: 42,
            property_type: 31,
            format: 8,
            bytes_after: 0,
            item_count: 2,
            bytes: b"hi".to_vec(),
        })
    );
    assert_eq!(
        x_client_output_from_property_read(&context(), Err(XPropertyError::InvalidWindow)),
        XClientOutput::Error(XClientError {
            code: XErrorCode::BadWindow,
            sequence: 42,
            resource_id: 0,
            minor_code: 0,
            major_code: 20,
        })
    );
    assert_eq!(
        x_client_output_from_property_read(&context(), Err(XPropertyError::InvalidOffset)),
        XClientOutput::Error(XClientError {
            code: XErrorCode::BadValue,
            sequence: 42,
            resource_id: 0,
            minor_code: 0,
            major_code: 20,
        })
    );
}

#[test]
fn shm_image_length_checks_format_region_and_size() {
    assert_eq!(shm_image_source_len(4, 3, 1, 1, 2, 2, 24, 2), Some(48));
    assert_eq!(shm_image_source_len(4, 3, 1, 1, 2, 2, 16, 2), None);
    assert_eq!(shm_image_source_len(4, 3, 1, 1, 2, 2, 24, 1), None);
    assert_eq!(shm_image_source_len(4, 3, 3, 0, 2, 1, 32, 2), None);
    assert_eq!(shm_image_source_len(4096, 4097, 0, 0, 1, 1, 32, 2), None);
    assert_eq!(shm_image_source_len(4096, 4096, 0, 0, 1, 1, 32, 2), Some(64 * 1024 * 1024));
}

#[test]
fn image_region_copies_the_rows_of_the_region() {
    let source: Vec<u8> = (0..48).collect();
    let region = copy_image_region(&source, 4, 1, 1, 2, 2).unwrap();
    assert_eq!(region, vec![20, 21, 22, 23, 24, 25, 26, 27, 36, 37, 38, 39, 40, 41, 42, 43]);
    assert_eq!(copy_image_region(&source[..40], 4, 1, 1, 2, 2), None);
    assert_eq!(copy_image_region(&source, 4, 0, 0, 0, 0), Some(Vec::new()));
}

#[test]
fn decimal_digits() {
    let mut out = Vec::new();
    push_decimal(&mut out, 0);
    push_decimal(&mut out, 1920);
    push_decimal(&mut out, u64::from(u32::MAX));
    assert_eq!(out, b"019204294967295".to_vec());
}

fn topology() -> OutputTopologySnapshot {
    OutputTopologySnapshot {
        generation: 0,
        primary: 2,
        outputs: vec![
            OutputTopologyEntry {
                output: 1,
                logical: Rect { x: 0, y: 0, width: 1920, height: 1080 },
                refresh_millihz: 60_000,
            },
            OutputTopologyEntry {
                output: 2,
                logical: Rect { x: 1920, y: -40_000, width: 1280, height: 1024 },
                refresh_millihz: 74_973,
            },
        ],
    }
}

#[test]
fn randr_resources_describe_each_output() {
    let resources = randr_resources(&topology());
    assert_eq!(resources.timestamp, 1);
    assert_eq!(resources.crtcs, vec![0x1000_0001, 0x1000_0002]);
    assert_eq!(resources.outputs, vec![0x2000_0001, 0x2000_0002]);
    assert_eq!(resources.modes.len(), 2);
    assert_eq!(resources.modes[0].id, stable_randr_mode_id(1920, 1080, 60_000));
    assert_eq!(resources.modes[0].name, b"1920x1080@60".to_vec());
    assert_eq!(resources.modes[1].name, b"1280x1024@74".to_vec());
    assert_eq!((resources.modes[1].width, resources.modes[1].height), (1280, 1024));
    let mut later = topology();
    later.generation = 1 << 40;
    assert_eq!(randr_resources(&later).timestamp, u32::MAX);
}

#[test]
fn randr_monitors_mark_the_primary_and_saturate_positions() {
    let monitors = randr_monitors(&topology(), &[300, 301]);
    assert_eq!(monitors.len(), 2);
    assert_eq!(monitors[0].name, 300);
    assert!(!monitors[0].primary);
    assert!(monitors[1].primary);
    assert_eq!((monitors[1].x, monitors[1].y), (1920, i16::MAX));
    assert_eq!(monitors[0].mm_width, 508);
    assert_eq!(monitors[1].outputs, vec![0x2000_0000 | stable_randr_identity(2)]);
}

fn picture() -> XRenderPictureRecord {
    XRenderPictureRecord {
        drawable: XResourceId::new(0x20_0001, 1),
        drawable_is_window: true,
        format: XRenderPictFormatKind { format_id: 0x24, depth: 24 },
        repeat: false,
        clip_rects: vec![Rect { x: 10, y: i32::MAX - 1, width: 5, height: 5 }],
        clip_x_origin: 0,
        clip_y_origin: 0,
        component_alpha: false,
    }
}

fn values() -> XRenderPictureValueSet {
    XRenderPictureValueSet {
        invalid_mask: false,
        refused_attribute: false,
        repeat: None,
        clip_x_origin: None,
        clip_y_origin: None,
        component_alpha: None,
    }
}

#[test]
fn picture_values_apply_in_order_and_stop_at_a_bad_value() {
    let mut record = picture();
    let set = XRenderPictureValueSet { repeat: Some(1), clip_x_origin: Some(-3), component_alpha: Some(1), ..values() };
    assert_eq!(render_apply_picture_values(&mut record, &set), Ok(()));
    assert!(record.repeat && record.component_alpha);
    assert_eq!(record.clip_x_origin, -3);

    let mut record = picture();
    let set = XRenderPictureValueSet { repeat: Some(1), clip_y_origin: Some(4), component_alpha: Some(2), ..values() };
    assert_eq!(render_apply_picture_values(&mut record, &set), Err(XRenderPictureError::InvalidValue));
    assert!(record.repeat);
    assert_eq!(record.clip_y_origin, 4);
    assert!(!record.component_alpha);

    let mut record = picture();
    let set = XRenderPictureValueSet { repeat: Some(2), clip_x_origin: Some(9), ..values() };
    assert_eq!(render_apply_picture_values(&mut record, &set), Err(XRenderPictureError::InvalidValue));
    assert_eq!(record, picture());

    let mut record = picture();
    let set = XRenderPictureValueSet { refused_attribute: true, repeat: Some(1), ..values() };
    assert_eq!(render_apply_picture_values(&mut record, &set), Err(XRenderPictureError::RefusedAttribute));
    assert_eq!(record, picture());
}

#[test]
fn clip_list_is_translated_with_saturation() {
    let mut record = picture();
    record.clip_x_origin = -20;
    record.clip_y_origin = 10;
    assert_eq!(
        render_translated_clip(&record),
        vec![Rect { x: -10, y: i32::MAX, width: 5, height: 5 }]
    );
}

#[test]
fn selection_failure_stores_no_property() {
    let failure = clipboard_selection_failure_notify(ClipboardSelectionFailureRequest {
        transfer: PortalTransferId { raw: 9 },
        requestor: XResourceId::new(0x20_0001, 1),
        selection: 1,
        target: 300,
        time: 77,
    });
    assert!(failure.failed_normally());
    assert_eq!(failure.notify.property, 0);
    assert_eq!((failure.notify.time, failure.notify.selection, failure.notify.target), (77, 1, 300));
    let handoff = ClipboardSelectionHandoff {
        transfer: PortalTransferId { raw: 9 },
        property: ClipboardTextProperty { requestor: XResourceId::new(0x20_0001, 1), property: 310, target: 300, bytes: vec![] },
        notify: ClipboardSelectionNotify { time: 77, requestor: XResourceId::new(0x20_0001, 1), selection: 1, target: 300, property: 310 },
    };
    assert!(handoff.succeeded_normally());
}

#[test]
fn control_commands_expose_kind_transaction_and_surface() {
    let surface = SurfaceId { index: 3, generation: 2 };
    let command = XAuthorityControlCommand::SetPresentationState {
        transaction: TransactionId::from_raw(11),
        surface,
        state: PolicyPresentationState { raw: 1 },
    };
    assert_eq!(command.kind(), XAuthorityControlKind::SetPresentationState);
    assert_eq!(command.transaction().raw(), 11);
    assert_eq!(command.surface(), surface);
    let close = XAuthorityControlCommand::CloseSurface { transaction: TransactionId::from_raw(12), surface };
    assert_eq!(close.kind(), XAuthorityControlKind::CloseSurface);
    assert_eq!(close.surface().index(), 3);
}
