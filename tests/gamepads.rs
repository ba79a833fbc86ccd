use lyrebird_renderer::input::{Axis, Button, GamepadEvent, GamepadEventKind, GamepadInfo, InputManager};

fn info(name: &str, connected: bool) -> GamepadInfo {
    GamepadInfo { name: name.to_string(), is_connected: connected }
}

fn ev(id: usize, kind: GamepadEventKind) -> GamepadEvent {
    GamepadEvent { id, kind, info: info("pad", true) }
}

fn manager() -> InputManager<()> {
    InputManager::new(Vec::new())
}

#[test]
fn press_is_just_pressed_for_one_update() {
    let mut m = manager();
    m.update_gamepads(vec![ev(1, GamepadEventKind::ButtonPressed(Button::South))]);
    assert!(m.was_button_just_pressed(1, Button::South));
    assert!(m.is_button_pressed(1, Button::South));
    m.update_gamepads(Vec::new());
    assert!(!m.was_button_just_pressed(1, Button::South));
    assert!(m.is_button_pressed(1, Button::South));
}

#[test]
fn release_is_just_released_for_one_update() {
    let mut m = manager();
    m.update_gamepads(vec![ev(1, GamepadEventKind::ButtonPressed(Button::East))]);
    m.update_gamepads(vec![ev(1, GamepadEventKind::ButtonReleased(Button::East))]);
    assert!(m.was_button_just_released(1, Button::East));
    assert!(!m.was_button_just_pressed(1, Button::East));
    assert!(!m.is_button_pressed(1, Button::East));
    m.update_gamepads(Vec::new());
    assert!(!m.was_button_just_released(1, Button::East));
}

#[test]
fn held_follows_last_transition() {
    let mut m = manager();
    m.update_gamepads(vec![
        ev(3, GamepadEventKind::ButtonPressed(Button::North)),
        ev(3, GamepadEventKind::ButtonReleased(Button::North)),
        ev(3, GamepadEventKind::ButtonPressed(Button::North)),
    ]);
    assert!(m.is_button_pressed(3, Button::North));
    m.update_gamepads(vec![
        ev(3, GamepadEventKind::ButtonReleased(Button::North)),
        ev(4, GamepadEventKind::ButtonPressed(Button::North)),
    ]);
    assert!(!m.is_button_pressed(3, Button::North));
    assert!(m.is_button_pressed(4, Button::North));
}

#[test]
fn disconnect_keeps_readings() {
    let mut m = manager();
    m.update_gamepads(vec![
        ev(2, GamepadEventKind::AxisChanged(Axis::LeftStickX, 0.5f32.to_bits())),
        ev(2, GamepadEventKind::ButtonChanged(Button::RightTrigger2, 0.75f32.to_bits())),
        ev(2, GamepadEventKind::ButtonPressed(Button::West)),
    ]);
    m.update_gamepads(vec![GamepadEvent { id: 2, kind: GamepadEventKind::Disconnected, info: info("pad", false) }]);
    let snap = m.gamepads_snapshot();
    let state = snap.gamepads.get(&2).unwrap();
    assert!(!state.info.is_connected);
    assert_eq!(f32::from_bits(m.axis_value(2, Axis::LeftStickX)), 0.5);
    assert_eq!(f32::from_bits(m.button_value(2, Button::RightTrigger2)), 0.75);
    assert!(m.is_button_pressed(2, Button::West));
    m.update_gamepads(vec![
        ev(2, GamepadEventKind::Connected),
        ev(2, GamepadEventKind::AxisChanged(Axis::LeftStickX, (-0.25f32).to_bits())),
    ]);
    assert_eq!(f32::from_bits(m.axis_value(2, Axis::LeftStickX)), -0.25);
    assert!(m.gamepads_snapshot().gamepads.get(&2).unwrap().info.is_connected);
}

#[test]
fn readings_are_normalized_on_arrival() {
    let mut m = manager();
    m.update_gamepads(vec![
        ev(1, GamepadEventKind::AxisChanged(Axis::RightStickY, f32::NAN.to_bits())),
        ev(1, GamepadEventKind::AxisChanged(Axis::LeftStickY, (-2.0f32).to_bits())),
        ev(1, GamepadEventKind::ButtonChanged(Button::LeftTrigger2, 1.5f32.to_bits())),
    ]);
    assert_eq!(f32::from_bits(m.axis_value(1, Axis::RightStickY)), 0.0);
    assert_eq!(f32::from_bits(m.axis_value(1, Axis::LeftStickY)), -1.0);
    assert_eq!(f32::from_bits(m.button_value(1, Button::LeftTrigger2)), 1.0);
}

#[test]
fn unknown_devices_read_as_defaults() {
    let m = manager();
    assert!(!m.is_button_pressed(9, Button::Start));
    assert_eq!(m.button_value(9, Button::Start), 0);
    assert_eq!(m.axis_value(9, Axis::DPadX), 0);
    assert!(!m.was_button_just_pressed(9, Button::Start));
    assert!(!m.was_button_just_released(9, Button::Start));
    assert!(m.gamepads_snapshot().gamepads.keys().is_empty());
}

#[test]
fn other_events_are_ignored() {
    let mut m = manager();
    m.update_gamepads(vec![ev(5, GamepadEventKind::Other)]);
    assert!(m.gamepads_snapshot().gamepads.keys().is_empty());
}

#[test]
fn snapshot_is_a_value() {
    let mut m = manager();
    m.update_gamepads(vec![ev(1, GamepadEventKind::AxisChanged(Axis::LeftZ, 0.5f32.to_bits()))]);
    let snap = m.gamepads_snapshot();
    m.update_gamepads(vec![
        ev(1, GamepadEventKind::AxisChanged(Axis::LeftZ, 0.125f32.to_bits())),
        ev(1, GamepadEventKind::ButtonPressed(Button::Mode)),
        ev(7, GamepadEventKind::Connected),
    ]);
    let state = snap.gamepads.get(&1).unwrap();
    assert_eq!(f32::from_bits(*state.axes.get(&Axis::LeftZ).unwrap()), 0.5);
    assert!(!state.buttons_down.contains(&Button::Mode));
    assert!(!snap.gamepads.contains_key(&7));
    assert_eq!(f32::from_bits(m.axis_value(1, Axis::LeftZ)), 0.125);
}

#[test]
fn seeded_devices_are_known() {
    let m: InputManager<()> = InputManager::new(vec![(0, info("first", true)), (4, info("second", true))]);
    let snap = m.gamepads_snapshot();
    let mut keys = snap.gamepads.keys();
    keys.sort();
    assert_eq!(keys, vec![0, 4]);
    assert_eq!(snap.gamepads.get(&4).unwrap().info.name, "second");
    assert!(snap.gamepads.get(&0).unwrap().buttons_down.to_vec().is_empty());
}

#[test]
fn gamepad_info_default_is_empty() {
    let i = GamepadInfo::default();
    assert_eq!(i.name, "");
    assert!(!i.is_connected);
}
