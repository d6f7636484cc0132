use open_steam_controller::devices::{DeviceEvent, DeviceProperties, DeviceState};
use open_steam_controller::steam_controller::{
    is_compatible_device, SteamController, BUTTON_MASK, PRODUCT_IDS, RESPONSE_BUTTON_EVENT, VENDOR_IDS,
};
use open_steam_controller::virtual_controller::ControllerInput;

fn controller() -> SteamController {
    SteamController::new_from_state(DeviceState::new(DeviceProperties::new(0, 0, None)))
}

#[test]
fn lizard_mode_packet_layout() {
    let packet = SteamController::get_disable_lizard_mode_packet();
    assert_eq!(packet.len(), 64);
    assert_eq!(&packet[..6], &[0x01, 0x87, 0x03, 0x09, 0x00, 0x00]);
    assert!(packet[6..].iter().all(|b| *b == 0));
}

#[test]
fn decorate_packet_header_payload_and_padding() {
    let packet = SteamController::decorate_packet(0x42, vec![0xaa, 0xbb]);
    assert_eq!(packet.len(), 64);
    assert_eq!(&packet[..5], &[0x01, 0x42, 0x02, 0xaa, 0xbb]);
    assert!(packet[5..].iter().all(|b| *b == 0));
}

#[test]
fn decorate_packet_empty_payload() {
    let packet = SteamController::decorate_packet(0x10, Vec::new());
    assert_eq!(packet.len(), 64);
    assert_eq!(&packet[..3], &[0x01, 0x10, 0x00]);
    assert!(packet[3..].iter().all(|b| *b == 0));
}

#[test]
fn decorate_packet_largest_payload() {
    let payload: Vec<u8> = (1..=61).collect();
    let packet = SteamController::decorate_packet(0x87, payload.clone());
    assert_eq!(packet.len(), 64);
    assert_eq!(packet[2], 61);
    assert_eq!(&packet[3..], &payload[..]);
}

#[test]
fn new_from_state_writes_lizard_packet() {
    let mut state = DeviceState::new(DeviceProperties::new(7, 1, Some(true)));
    state.write_hid_report(&[0xde, 0xad]);
    let mut controller = SteamController::new_from_state(state);
    let written = controller.get_device_state_mut().take_pending_reports();
    assert_eq!(written.len(), 2);
    assert_eq!(written[0], vec![0xde, 0xad]);
    assert_eq!(written[1], SteamController::get_disable_lizard_mode_packet());
    assert!(controller.get_device_state_mut().take_pending_reports().is_empty());
    assert_eq!(
        controller.get_device_state().properties(),
        DeviceProperties::new(7, 1, Some(true))
    );
}

#[test]
fn no_buttons_no_inputs() {
    assert!(SteamController::get_buttons(0).is_empty());
}

#[test]
fn single_buttons() {
    assert_eq!(SteamController::get_buttons(1 << 0), vec![ControllerInput::A]);
    assert_eq!(SteamController::get_buttons(1 << 4), vec![ControllerInput::Menu]);
    assert_eq!(SteamController::get_buttons(1 << 16), vec![ControllerInput::Home]);
    assert_eq!(SteamController::get_buttons(1 << 13), vec![ControllerInput::Up]);
    assert_eq!(SteamController::get_buttons(1 << 27), vec![ControllerInput::LeftTrigger]);
    assert_eq!(SteamController::get_buttons(1 << 29), vec![ControllerInput::LeftThumb]);
}

#[test]
fn shoulder_buttons_are_bumpers() {
    assert_eq!(SteamController::get_buttons(1 << 9), vec![ControllerInput::RightBumper]);
    assert_eq!(SteamController::get_buttons(1 << 19), vec![ControllerInput::LeftBumper]);
}

#[test]
fn capacitive_touches_give_no_input() {
    let touches = (1 << 20) | (1 << 21) | (1 << 24) | (1 << 25);
    assert!(SteamController::get_buttons(touches).is_empty());
    assert_eq!(
        SteamController::get_buttons(touches | (1 << 22)),
        vec![ControllerInput::RightThumb]
    );
    let c = controller();
    // bits 20 and 21 (right touches) in byte 4
    assert_eq!(
        c.get_event_from_device_response(&[RESPONSE_BUTTON_EVENT, 0, 0, 0, 0x30, 0]),
        None
    );
}

#[test]
fn compatible_devices() {
    assert!(is_compatible_device(0x28de, 0x1302));
    assert!(is_compatible_device(0x28de, 0x1304));
    assert!(!is_compatible_device(0x28de, 0x1303));
    assert!(!is_compatible_device(0x045e, 0x1302));
}

#[test]
fn buttons_in_bit_order() {
    let bits = (1 << 14) | (1 << 1) | (1 << 10);
    assert_eq!(
        SteamController::get_buttons(bits),
        vec![ControllerInput::B, ControllerInput::Down, ControllerInput::Start]
    );
}

#[test]
fn all_buttons_map_in_order() {
    type C = ControllerInput;
    let expected = vec![
        C::A, C::B, C::X, C::Y, C::Menu, C::RightThumb, C::Select, C::RightBumper,
        C::RightTrigger, C::RightBumper, C::Down, C::Right, C::Left, C::Up, C::Start,
        C::LeftThumb, C::Home, C::LeftBumper, C::LeftTrigger, C::LeftBumper,
        C::RightThumb, C::RightTrigger, C::LeftThumb, C::LeftTrigger, C::RightThumb,
        C::LeftThumb,
    ];
    assert_eq!(SteamController::get_buttons(BUTTON_MASK), expected);
}

#[test]
fn undefined_bits_ignored() {
    assert!(SteamController::get_buttons(0xc000_0000).is_empty());
    assert_eq!(
        SteamController::get_buttons(0xc000_0004),
        SteamController::get_buttons(0x0000_0004)
    );
    assert_eq!(
        SteamController::get_buttons(u32::MAX),
        SteamController::get_buttons(BUTTON_MASK)
    );
}

#[test]
fn button_event_yields_presses() {
    let c = controller();
    // bits 0 (A) and 9 (R1): little endian bytes 2..6
    let response = [RESPONSE_BUTTON_EVENT, 0x99, 0x01, 0x02, 0x00, 0x00, 0xff, 0xff];
    let events = c.get_event_from_device_response(&response);
    assert_eq!(
        events,
        Some(vec![
            DeviceEvent::ButtonPressed(ControllerInput::A),
            DeviceEvent::ButtonPressed(ControllerInput::RightBumper),
        ])
    );
}

#[test]
fn button_event_high_byte() {
    let c = controller();
    // bit 29 (GripLeft) lives in byte 5
    let response = [RESPONSE_BUTTON_EVENT, 0x00, 0x00, 0x00, 0x00, 0x20];
    assert_eq!(
        c.get_event_from_device_response(&response),
        Some(vec![DeviceEvent::ButtonPressed(ControllerInput::LeftThumb)])
    );
}

#[test]
fn button_event_without_buttons_is_none() {
    let c = controller();
    assert_eq!(c.get_event_from_device_response(&[RESPONSE_BUTTON_EVENT, 0, 0, 0, 0, 0]), None);
    assert_eq!(
        c.get_event_from_device_response(&[RESPONSE_BUTTON_EVENT, 0, 0, 0, 0, 0xc0]),
        None
    );
}

#[test]
fn other_responses_are_none() {
    let c = controller();
    assert_eq!(c.get_event_from_device_response(&[0x01]), None);
    assert_eq!(c.get_event_from_device_response(&[0x46, 0, 0xff, 0xff, 0xff, 0xff]), None);
}

#[test]
fn passive_refresh_is_allowed() {
    let mut c = controller();
    assert!(c.allow_passive_refresh());
}

#[test]
fn device_ids() {
    assert_eq!(VENDOR_IDS, [0x28de]);
    assert_eq!(PRODUCT_IDS, [0x1302, 0x1304]);
}

#[test]
fn decoding_concatenates_over_split_bits() {
    let low = (1 << 0) | (1 << 9) | (1 << 13);
    let high = (1 << 16) | (1 << 22) | (1 << 27);
    let mut expected = SteamController::get_buttons(low);
    expected.extend(SteamController::get_buttons(high));
    assert_eq!(SteamController::get_buttons(low | high), expected);
    assert_eq!(
        SteamController::get_buttons(low | high),
        vec![
            ControllerInput::A,
            ControllerInput::RightBumper,
            ControllerInput::Up,
            ControllerInput::Home,
            ControllerInput::RightThumb,
            ControllerInput::LeftTrigger,
        ]
    );
}
