use sophia_x_authority::keyboard::{
    core_modifier_mask_from_xkb, evdev_to_core_keycode, XCoreKeyboardMapper, XkbCompiledKey,
    XkbKeyboardError, XkbKeymapSnapshot, XkbRmlvoConfig,
};
use sophia_x_authority::pointer::{XCorePointerMapper, XScrollAxisUpdate};
use sophia_x_authority::routing_types::{XAuthorityInputDeliveryId, XPresentFeedbackPhases};

fn compiled_keys() -> Vec<XkbCompiledKey> {
    (8u32..=255)
        .map(|keycode| XkbCompiledKey {
            level0: if keycode == 38 { vec![0x61] } else if keycode == 9 { vec![] } else { vec![keycode] },
            level1: if keycode == 38 { vec![0x41] } else { vec![] },
            repeats: keycode != 50,
        })
        .collect()
}

#[test]
fn core_mapper_reports_state_before_transition() {
    let mut mapper = XCoreKeyboardMapper::new();
    assert_eq!(mapper.map_evdev_key(42, true), Some((50, 0)));
    assert_eq!(mapper.map_evdev_key(30, true), Some((38, 1)));
    assert_eq!(mapper.map_evdev_key(42, false), Some((50, 1)));
    assert_eq!(mapper.modifier_mask(), 0);
}

#[test]
fn core_mapper_modifier_bits() {
    let mut mapper = XCoreKeyboardMapper::new();
    mapper.map_evdev_key(29, true);
    mapper.map_evdev_key(100, true);
    mapper.map_evdev_key(58, true);
    assert_eq!(mapper.modifier_mask(), 2 | 4 | 8);
    mapper.map_evdev_key(58, false);
    assert_eq!(mapper.modifier_mask(), 2 | 4 | 8);
    mapper.map_evdev_key(58, true);
    assert_eq!(mapper.modifier_mask(), 4 | 8);
    assert_eq!(mapper.map_evdev_key(0, true), None);
    assert_eq!(mapper.map_evdev_key(248, true), None);
    assert_eq!(mapper.map_evdev_key(247, true), Some((255, 12)));
}

#[test]
fn both_shift_keys_hold_shift_until_both_release() {
    let mut mapper = XCoreKeyboardMapper::new();
    mapper.map_evdev_key(42, true);
    mapper.map_evdev_key(54, true);
    mapper.map_evdev_key(42, false);
    assert_eq!(mapper.modifier_mask(), 1);
    mapper.map_evdev_key(54, false);
    assert_eq!(mapper.modifier_mask(), 0);
}

#[test]
fn rmlvo_validation() {
    assert_eq!(XkbRmlvoConfig::default().validate(), Ok(()));
    let mut config = XkbRmlvoConfig::default();
    config.layout = String::new();
    assert_eq!(config.validate(), Err(XkbKeyboardError::InvalidConfiguration));
    let mut config = XkbRmlvoConfig::default();
    config.options = "x".repeat(129);
    assert_eq!(config.validate(), Err(XkbKeyboardError::InvalidConfiguration));
    let mut config = XkbRmlvoConfig::default();
    config.variant = "a\0b".to_owned();
    assert_eq!(config.validate(), Err(XkbKeyboardError::InvalidConfiguration));
    let mut config = XkbRmlvoConfig::default();
    config.options = "x".repeat(128);
    assert_eq!(config.validate(), Ok(()));
}

#[test]
fn snapshot_from_compiled_keys() {
    let snapshot = XkbKeymapSnapshot::from_compiled_keys(&XkbRmlvoConfig::default(), &compiled_keys()).unwrap();
    assert_eq!(snapshot.min_keycode(), 8);
    assert_eq!(snapshot.max_keycode(), 255);
    assert_eq!(snapshot.xkb_keysyms().len(), 248);
    assert_eq!(snapshot.core_mapping(38, 1), vec![0x61, 0x41]);
    assert_eq!(snapshot.core_mapping(9, 2), vec![0, 0, 10, 10]);
    assert_eq!(snapshot.core_mapping(255, 2), vec![255, 255, 255, 255]);
    assert_eq!(snapshot.modifier_map()[0], (50, 1));
    assert_eq!(snapshot.modifier_map().len(), 10);
    assert!(snapshot.evdev_key_repeats(30));
    assert!(!snapshot.evdev_key_repeats(42));
    assert!(!snapshot.evdev_key_repeats(248));
    assert_eq!(snapshot.config(), &XkbRmlvoConfig::default());
}

#[test]
fn snapshot_refuses_invalid_configuration() {
    let mut config = XkbRmlvoConfig::default();
    config.rules = String::new();
    assert_eq!(
        XkbKeymapSnapshot::from_compiled_keys(&config, &compiled_keys()).err(),
        Some(XkbKeyboardError::InvalidConfiguration)
    );
}

#[test]
fn xkb_keycode_and_mask_helpers() {
    assert_eq!(evdev_to_core_keycode(30), Some(38));
    assert_eq!(evdev_to_core_keycode(248), None);
    assert_eq!(core_modifier_mask_from_xkb(0x1_0105), 0x05);
}

#[test]
fn pointer_buttons_track_state() {
    let mut mapper = XCorePointerMapper::new();
    assert_eq!(mapper.map_evdev_button(272, true), Some((1, 0)));
    assert_eq!(mapper.state(), 256);
    assert_eq!(mapper.map_evdev_button(273, true), Some((3, 256)));
    assert_eq!(mapper.state(), 256 | 1024);
    assert_eq!(mapper.map_evdev_button(272, false), Some((1, 256 | 1024)));
    assert_eq!(mapper.state(), 1024);
    assert_eq!(mapper.map_evdev_button(275, true), Some((8, 1024)));
    assert_eq!(mapper.map_evdev_button(999, true), None);
    assert_eq!(mapper.state(), 1024);
    assert_eq!(mapper.axis_release_state(4), 1024 | 2048);
    assert_eq!(mapper.axis_release_state(6), 1024);
}

#[test]
fn pointer_axis_maps_to_scroll_buttons_and_accumulates() {
    assert_eq!(XCorePointerMapper::map_axis_to_button(0, -120), Some(4));
    assert_eq!(XCorePointerMapper::map_axis_to_button(-120, 120), Some(5));
    assert_eq!(XCorePointerMapper::map_axis_to_button(-120, 0), Some(6));
    assert_eq!(XCorePointerMapper::map_axis_to_button(120, 0), Some(7));
    assert_eq!(XCorePointerMapper::map_axis_to_button(0, 0), None);
    let mut mapper = XCorePointerMapper::new();
    assert_eq!(
        mapper.map_axis(0, -120),
        Some(XScrollAxisUpdate { button: 4, horizontal_position_v120: None, vertical_position_v120: Some(-120) })
    );
    assert_eq!(
        mapper.map_axis(60, -120),
        Some(XScrollAxisUpdate { button: 4, horizontal_position_v120: Some(60), vertical_position_v120: Some(-240) })
    );
    assert_eq!(mapper.map_axis(0, 0), None);
    assert_eq!(mapper.vertical_scroll_position_v120(), -240);
    assert_eq!(mapper.horizontal_scroll_position_v120(), 60);
    let mut saturated = XCorePointerMapper::new();
    saturated.map_axis(0, i32::MAX);
    saturated.map_axis(0, 1);
    assert_eq!(saturated.vertical_scroll_position_v120(), i32::MAX);
}

#[test]
fn present_phases_finish_once_both_arrive() {
    let mut phases = XPresentFeedbackPhases::default();
    assert!(phases.observe_idle());
    assert!(!phases.finished());
    assert!(!phases.observe_idle());
    assert!(phases.observe_complete());
    assert!(!phases.observe_complete());
    assert!(phases.finished());
    assert_eq!(XAuthorityInputDeliveryId::from_raw(9).raw(), 9);
}
