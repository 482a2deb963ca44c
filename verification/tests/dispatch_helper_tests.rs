use sophia_x_authority::client_output::XErrorCode;
use sophia_x_authority::dispatch::{
    clamp_i16, clamp_u16, logical_pixels_to_millimeters, render_minor_version_gate,
    stable_randr_identity, stable_randr_mode_id, true_color_pixel_from_rgb16,
    x_error_from_property_read,
};
use sophia_x_authority::property::XPropertyError;

#[test]
fn randr_identity_folds_and_is_never_zero() {
    assert_eq!(stable_randr_identity(0), 1);
    assert_eq!(stable_randr_identity(0x1_0000_0002), 3);
    assert_eq!(stable_randr_identity(0xffff_ffff_ffff_ffff), 1);
}

#[test]
fn randr_mode_id_is_fnv_tagged() {
    assert_eq!(stable_randr_mode_id(1920, 1080, 60000), 0x3d17_af5f);
    assert_eq!(stable_randr_mode_id(-1, 0, 0), 0x3668_54fe);
}

#[test]
fn millimeters_round_at_96_dpi_and_floor_at_one() {
    assert_eq!(logical_pixels_to_millimeters(1920), 508);
    assert_eq!(logical_pixels_to_millimeters(0), 1);
    assert_eq!(logical_pixels_to_millimeters(-1), 1);
    assert_eq!(logical_pixels_to_millimeters(-10), u32::MAX);
}

#[test]
fn clamps_hold_to_range() {
    assert_eq!(clamp_i16(40000), i16::MAX);
    assert_eq!(clamp_i16(-40000), i16::MIN);
    assert_eq!(clamp_i16(-5), -5);
    assert_eq!(clamp_u16(-1), 0);
    assert_eq!(clamp_u16(70000), u16::MAX);
    assert_eq!(clamp_u16(300), 300);
}

#[test]
fn true_color_pixel_takes_high_bytes() {
    assert_eq!(true_color_pixel_from_rgb16(0xffff, 0x8000, 0x1234), 0x00ff_8012);
    assert_eq!(true_color_pixel_from_rgb16(0, 0, 0), 0);
}

#[test]
fn render_minor_gates() {
    assert_eq!(render_minor_version_gate(16), None);
    assert_eq!(render_minor_version_gate(7), Some(7));
    assert_eq!(render_minor_version_gate(27), Some(5));
    assert_eq!(render_minor_version_gate(29), Some(6));
    assert_eq!(render_minor_version_gate(31), Some(8));
    assert_eq!(render_minor_version_gate(32), Some(9));
    assert_eq!(render_minor_version_gate(35), Some(10));
    assert_eq!(render_minor_version_gate(0), Some(0));
    assert_eq!(render_minor_version_gate(36), Some(10));
    assert_eq!(render_minor_version_gate(37), None);
}

#[test]
fn property_errors_map_to_window_or_value() {
    assert_eq!(x_error_from_property_read(XPropertyError::InvalidNamespace), XErrorCode::BadWindow);
    assert_eq!(x_error_from_property_read(XPropertyError::InvalidWindow), XErrorCode::BadWindow);
    assert_eq!(x_error_from_property_read(XPropertyError::InvalidFormat(3)), XErrorCode::BadValue);
    assert_eq!(x_error_from_property_read(XPropertyError::TypeMismatch), XErrorCode::BadValue);
    assert_eq!(x_error_from_property_read(XPropertyError::InvalidOffset), XErrorCode::BadValue);
    assert_eq!(
        x_error_from_property_read(XPropertyError::ValueTooLarge { len: 1, max: 0 }),
        XErrorCode::BadValue
    );
    assert_eq!(
        x_error_from_property_read(XPropertyError::TableTooLarge { len: 1, max: 0 }),
        XErrorCode::BadValue
    );
}
