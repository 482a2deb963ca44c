use sophia_x_authority::client_output::{
    encode_font_info_reply, encode_x_client_error, x_error_from_runtime,
    x_error_from_wire_parse, XAuthorityRuntimeError, XClientError, XErrorCode, XWireParseError,
};
use sophia_x_authority::wire::{padded_len, push_i64, push_u16, push_u32, put_u64, XByteOrder};

#[test]
fn error_codes_follow_core_protocol_numbers() {
    assert_eq!(XErrorCode::BadRequest.wire_code(), 1);
    assert_eq!(XErrorCode::BadValue.wire_code(), 2);
    assert_eq!(XErrorCode::BadWindow.wire_code(), 3);
    assert_eq!(XErrorCode::BadAtom.wire_code(), 5);
    assert_eq!(XErrorCode::BadAccess.wire_code(), 10);
    assert_eq!(XErrorCode::BadIdChoice.wire_code(), 14);
    assert_eq!(XErrorCode::BadLength.wire_code(), 16);
    assert_eq!(XErrorCode::BadImplementation.wire_code(), 17);
}

#[test]
fn error_record_little_endian_layout() {
    let error = XClientError {
        code: XErrorCode::BadValue,
        sequence: 0x1234,
        resource_id: 0xAABB_CCDD,
        minor_code: 5,
        major_code: 18,
    };
    let out = encode_x_client_error(XByteOrder::LittleEndian, error);
    let mut expected = [0u8; 32];
    expected[..11].copy_from_slice(&[0, 2, 0x34, 0x12, 0xDD, 0xCC, 0xBB, 0xAA, 5, 0, 18]);
    assert_eq!(out, expected);
}

#[test]
fn error_record_big_endian_layout() {
    let error = XClientError {
        code: XErrorCode::BadWindow,
        sequence: 0x1234,
        resource_id: 0xAABB_CCDD,
        minor_code: 5,
        major_code: 18,
    };
    let out = encode_x_client_error(XByteOrder::BigEndian, error);
    let mut expected = [0u8; 32];
    expected[..11].copy_from_slice(&[0, 3, 0x12, 0x34, 0xAA, 0xBB, 0xCC, 0xDD, 0, 5, 18]);
    assert_eq!(out, expected);
}

#[test]
fn parse_errors_map_to_length_request_value_and_id_choice() {
    let cases = [
        (XWireParseError::Truncated { needed: 8, available: 4 }, XErrorCode::BadLength),
        (XWireParseError::InvalidLength { declared: 1, minimum: 2 }, XErrorCode::BadLength),
        (XWireParseError::TrailingBytes(3), XErrorCode::BadLength),
        (XWireParseError::UnknownOpcode(200), XErrorCode::BadRequest),
        (XWireParseError::InvalidPropertyMode(7), XErrorCode::BadValue),
        (XWireParseError::InvalidPropertyFormat(12), XErrorCode::BadValue),
        (XWireParseError::InvalidEventType(99), XErrorCode::BadValue),
        (XWireParseError::InvalidValue(1), XErrorCode::BadValue),
        (XWireParseError::PropertyValueTooLarge { len: 10, max: 5 }, XErrorCode::BadValue),
        (XWireParseError::ResourceIdOutsideClientRange { id: 42 }, XErrorCode::BadIdChoice),
    ];
    for (error, code) in cases {
        let client_error = x_error_from_wire_parse(&error, 9, 18, 3);
        assert_eq!(
            client_error,
            XClientError { code, sequence: 9, resource_id: 0, minor_code: 3, major_code: 18 }
        );
    }
}

#[test]
fn runtime_errors_keep_minor_code_and_resource() {
    let error = x_error_from_runtime(XAuthorityRuntimeError::CrossNamespaceDenied, 7, 140, 4, 0x200001);
    assert_eq!(
        error,
        XClientError {
            code: XErrorCode::BadAccess,
            sequence: 7,
            resource_id: 0x200001,
            minor_code: 4,
            major_code: 140,
        }
    );
    assert_eq!(
        x_error_from_runtime(XAuthorityRuntimeError::UnknownResource, 1, 2, 0, 3).code,
        XErrorCode::BadWindow
    );
    assert_eq!(
        x_error_from_runtime(XAuthorityRuntimeError::UnknownSourceOwner, 1, 2, 0, 3).code,
        XErrorCode::BadAtom
    );
    assert_eq!(
        x_error_from_runtime(XAuthorityRuntimeError::PortalRejected, 1, 2, 0, 3).code,
        XErrorCode::BadAccess
    );
}

#[test]
fn font_info_reply_pads_name_and_counts_length_units() {
    let out = encode_font_info_reply(XByteOrder::LittleEndian, 0x0102, 11, 3, Some(b"fixed"));
    assert_eq!(out.len(), 68);
    assert_eq!(out[0], 1);
    assert_eq!(out[1], 5);
    assert_eq!(&out[2..4], &[0x02, 0x01]);
    assert_eq!(&out[4..8], &[9, 0, 0, 0]);
    assert_eq!(&out[10..12], &[8, 0]);
    assert_eq!(&out[16..18], &[2, 0]);
    assert_eq!(&out[42..44], &[255, 0]);
    assert_eq!(out[51], 1);
    assert_eq!(&out[52..56], &[11, 0, 3, 0]);
    assert_eq!(&out[60..65], b"fixed");
    assert_eq!(&out[65..68], &[0, 0, 0]);
}

#[test]
fn font_info_reply_without_name_is_sixty_bytes() {
    let out = encode_font_info_reply(XByteOrder::BigEndian, 1, -1, 2, None);
    assert_eq!(out.len(), 60);
    assert_eq!(out[1], 0);
    assert_eq!(&out[4..8], &[0, 0, 0, 7]);
    assert_eq!(&out[52..56], &[0xff, 0xff, 0, 2]);
}

#[test]
fn byte_order_helpers() {
    let mut out = Vec::new();
    push_u16(XByteOrder::BigEndian, &mut out, 0x0102);
    push_u32(XByteOrder::LittleEndian, &mut out, 0x0304_0506);
    push_i64(XByteOrder::BigEndian, &mut out, -2);
    assert_eq!(out, vec![1, 2, 6, 5, 4, 3, 0xff, 0xff, 0xff, 0xff, 0xff, 0xff, 0xff, 0xfe]);
    let mut buf = vec![0u8; 10];
    put_u64(XByteOrder::LittleEndian, &mut buf, 1, 0x0102_0304_0506_0708);
    assert_eq!(buf, vec![0, 8, 7, 6, 5, 4, 3, 2, 1, 0]);
    assert_eq!(padded_len(0), 0);
    assert_eq!(padded_len(5), 8);
    assert_eq!(padded_len(8), 8);
}
