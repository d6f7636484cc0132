use open_steam_controller::devices::{DeviceEvent, DeviceProperties, DeviceState};
use open_steam_controller::multi_threading::create_controller_channel;
use open_steam_controller::supervision::{
    end_of_cycle, refresh_failed, refresh_kind, select_visible_states, should_restart, virtual_controller_action, RefreshKind,
    VirtualControllerAction, CycleEnd,
};
use open_steam_controller::virtual_controller::{
    is_digital_input, map_digital_controller_input, ControllerInput, DPadKey, GamePadKey,
    VirtualKey,
};

fn props(battery: u8, connected: Option<bool>) -> DeviceProperties {
    DeviceProperties::new(battery, 0, connected)
}

#[test]
fn single_device_always_shown() {
    let states = vec![props(1, None)];
    assert_eq!(select_visible_states(&states), states);
    let states = vec![props(1, Some(false))];
    assert_eq!(select_visible_states(&states), states);
}

#[test]
fn disconnected_device_zero_dropped_when_others_connected() {
    let states = vec![props(1, Some(false)), props(2, Some(true)), props(3, Some(true))];
    assert_eq!(select_visible_states(&states), vec![props(2, Some(true)), props(3, Some(true))]);
}

#[test]
fn lone_disconnected_device_zero_kept() {
    let states = vec![props(1, Some(false)), props(2, Some(false)), props(3, None)];
    assert_eq!(select_visible_states(&states), vec![props(1, Some(false))]);
}

#[test]
fn single_connected_other_device_shown_alone() {
    let states = vec![props(1, Some(false)), props(2, Some(true))];
    assert_eq!(select_visible_states(&states), vec![props(2, Some(true))]);
}

#[test]
fn no_devices_no_states() {
    assert!(select_visible_states(&Vec::new()).is_empty());
}

#[test]
fn refresh_actively_every_interval_when_connected() {
    let connected = props(0, Some(true));
    assert_eq!(refresh_kind(0, &connected), RefreshKind::Active);
    assert_eq!(refresh_kind(1, &connected), RefreshKind::Passive);
    assert_eq!(refresh_kind(299, &connected), RefreshKind::Passive);
    assert_eq!(refresh_kind(300, &connected), RefreshKind::Active);
    assert_eq!(refresh_kind(600, &connected), RefreshKind::Active);
    assert_eq!(refresh_kind(0, &props(0, Some(false))), RefreshKind::Passive);
    assert_eq!(refresh_kind(300, &props(0, None)), RefreshKind::Passive);
}

#[test]
fn virtual_controller_mirrors_connection() {
    assert_eq!(virtual_controller_action(Some(true), false), VirtualControllerAction::Create);
    assert_eq!(virtual_controller_action(Some(true), true), VirtualControllerAction::Keep);
    assert_eq!(virtual_controller_action(Some(false), true), VirtualControllerAction::Remove);
    assert_eq!(virtual_controller_action(Some(false), false), VirtualControllerAction::Keep);
    assert_eq!(virtual_controller_action(None, true), VirtualControllerAction::Keep);
    assert_eq!(virtual_controller_action(None, false), VirtualControllerAction::Keep);
}

#[test]
fn refresh_failure_marks_connection_unknown() {
    let mut state = DeviceState::new(props(55, Some(true)));
    state.write_hid_report(&[1, 2]);
    let published = refresh_failed(&mut state);
    assert_eq!(published, props(55, None));
    assert_eq!(state.properties(), props(55, None));
    assert_eq!(state.take_pending_reports(), vec![vec![1, 2]]);
}

#[test]
fn restart_decisions() {
    assert!(!should_restart(Some(3), 3, false));
    assert!(should_restart(Some(4), 3, false));
    assert!(should_restart(Some(3), 3, true));
    assert!(should_restart(None, 3, false));
    assert!(!should_restart(None, u32::MAX, false));
}

#[test]
fn digital_mapping() {
    assert_eq!(map_digital_controller_input(ControllerInput::A), VirtualKey::GamePad(GamePadKey::A));
    assert_eq!(
        map_digital_controller_input(ControllerInput::LeftBumper),
        VirtualKey::GamePad(GamePadKey::TL)
    );
    assert_eq!(
        map_digital_controller_input(ControllerInput::RightBumper),
        VirtualKey::GamePad(GamePadKey::TR)
    );
    assert_eq!(
        map_digital_controller_input(ControllerInput::RightThumb),
        VirtualKey::GamePad(GamePadKey::ThumbR)
    );
    assert_eq!(map_digital_controller_input(ControllerInput::Up), VirtualKey::DPad(DPadKey::Up));
    assert_eq!(
        map_digital_controller_input(ControllerInput::Right),
        VirtualKey::DPad(DPadKey::Right)
    );
}

#[test]
fn non_digital_inputs() {
    for input in [
        ControllerInput::Home,
        ControllerInput::Menu,
        ControllerInput::LeftTrigger,
        ControllerInput::RightTrigger,
        ControllerInput::TL,
        ControllerInput::ThumbR,
    ] {
        assert!(!is_digital_input(input));
    }
    assert!(is_digital_input(ControllerInput::Start));
    assert!(is_digital_input(ControllerInput::Down));
}

#[test]
fn channel_round_trip() {
    let (mut sender, mut receiver) = create_controller_channel();
    assert_eq!(sender.get_latest_properties(), Some(DeviceProperties::new(0, 0, None)));
    assert!(sender.send_command(DeviceEvent::ButtonPressed(ControllerInput::A)).is_ok());
    assert!(sender.send_command(DeviceEvent::ButtonPressed(ControllerInput::B)).is_ok());
    assert_eq!(
        receiver.receive_commands(),
        vec![
            DeviceEvent::ButtonPressed(ControllerInput::A),
            DeviceEvent::ButtonPressed(ControllerInput::B)
        ]
    );
    assert!(receiver.receive_commands().is_empty());
    assert!(receiver.try_update_state(&props(80, Some(true))));
    assert_eq!(sender.get_latest_properties(), Some(props(80, Some(true))));
}

#[test]
fn send_after_receiver_dropped_returns_command() {
    let (mut sender, receiver) = create_controller_channel();
    drop(receiver);
    let command = DeviceEvent::ButtonPressed(ControllerInput::X);
    assert_eq!(sender.send_command(command), Err(command));
}

#[test]
fn digital_keys_distinct() {
    let all = [
        ControllerInput::South, ControllerInput::A, ControllerInput::East, ControllerInput::B,
        ControllerInput::C, ControllerInput::North, ControllerInput::X, ControllerInput::West,
        ControllerInput::Y, ControllerInput::Z, ControllerInput::TL, ControllerInput::TR,
        ControllerInput::TL2, ControllerInput::TR2, ControllerInput::Select,
        ControllerInput::Start, ControllerInput::Mode, ControllerInput::ThumbL,
        ControllerInput::ThumbR, ControllerInput::Up, ControllerInput::Down,
        ControllerInput::Left, ControllerInput::Right, ControllerInput::Menu,
        ControllerInput::Home, ControllerInput::LeftThumb, ControllerInput::RightThumb,
        ControllerInput::LeftBumper, ControllerInput::RightBumper, ControllerInput::LeftTrigger,
        ControllerInput::RightTrigger,
    ];
    let keys: Vec<VirtualKey> = all
        .iter()
        .filter(|i| is_digital_input(**i))
        .map(|i| map_digital_controller_input(*i))
        .collect();
    assert_eq!(keys.len(), 21);
    for (a, ka) in keys.iter().enumerate() {
        for (b, kb) in keys.iter().enumerate() {
            if a != b {
                assert_ne!(ka, kb);
            }
        }
    }
}

#[test]
fn cycle_end_decisions() {
    assert_eq!(end_of_cycle(0, false), CycleEnd::Continue(1));
    assert_eq!(end_of_cycle(299, false), CycleEnd::Continue(300));
    assert_eq!(end_of_cycle(u64::MAX, false), CycleEnd::Continue(0));
    assert_eq!(end_of_cycle(5, true), CycleEnd::Stop);
}

#[test]
fn publishing_then_reading_the_channel_state() {
    let (sender, mut receiver) = create_controller_channel();
    assert_eq!(sender.get_latest_properties(), Some(DeviceProperties::new(0, 0, None)));
    assert!(receiver.try_update_state(&props(12, Some(false))));
    assert!(receiver.try_update_state(&props(13, Some(true))));
    assert_eq!(sender.get_latest_properties(), Some(props(13, Some(true))));
}
