use lyrebird_renderer::input::{ElementState, InputManager, MouseButton, ScrollDelta, WindowEvent};

fn key(code: u32, state: ElementState) -> WindowEvent {
    WindowEvent::KeyboardInput { key: Some(code), state }
}

#[test]
fn keys_are_held_until_released() {
    let mut m: InputManager<u32> = InputManager::new(Vec::new());
    m.poll(key(30, ElementState::Pressed), 1);
    m.poll(key(31, ElementState::Pressed), 2);
    assert!(m.is_key_down(30));
    assert!(m.is_key_down(31));
    m.poll(key(30, ElementState::Released), 3);
    assert!(!m.is_key_down(30));
    assert!(m.is_key_down(31));
    assert_eq!(m.last_key(), Some((30, ElementState::Released)));
}

#[test]
fn unidentified_key_changes_nothing_but_latest_event() {
    let mut m: InputManager<u32> = InputManager::new(Vec::new());
    m.poll(WindowEvent::KeyboardInput { key: None, state: ElementState::Pressed }, 7);
    assert_eq!(m.last_key(), None);
    assert_eq!(m.take_latest_event(), Some(7));
    assert_eq!(m.take_latest_event(), None);
}

#[test]
fn mouse_buttons_and_cursor() {
    let mut m: InputManager<()> = InputManager::new(Vec::new());
    assert_eq!(m.cursor_position(), None);
    m.poll(WindowEvent::CursorMoved { x: 10.5f64.to_bits(), y: 20.0f64.to_bits() }, ());
    assert_eq!(m.cursor_position(), Some((10.5f64.to_bits(), 20.0f64.to_bits())));
    m.poll(WindowEvent::MouseInput { button: MouseButton::Left, state: ElementState::Pressed }, ());
    m.poll(WindowEvent::MouseInput { button: MouseButton::Other(8), state: ElementState::Pressed }, ());
    assert!(m.is_mouse_down(MouseButton::Left));
    assert!(m.is_mouse_down(MouseButton::Other(8)));
    assert!(!m.is_mouse_down(MouseButton::Other(9)));
    m.poll(WindowEvent::MouseInput { button: MouseButton::Left, state: ElementState::Released }, ());
    assert!(!m.is_mouse_down(MouseButton::Left));
    assert_eq!(m.last_mouse_button(), Some((MouseButton::Left, ElementState::Released)));
}

#[test]
fn scroll_accumulates_in_order() {
    let mut m: InputManager<()> = InputManager::new(Vec::new());
    m.poll(WindowEvent::MouseWheel { delta: ScrollDelta::Line(1.0f32.to_bits(), 0.0f32.to_bits()) }, ());
    m.poll(WindowEvent::MouseWheel { delta: ScrollDelta::Pixel(3.0f64.to_bits(), (-2.0f64).to_bits()) }, ());
    assert_eq!(
        m.scroll_delta(),
        vec![
            ScrollDelta::Line(1.0f32.to_bits(), 0.0f32.to_bits()),
            ScrollDelta::Pixel(3.0f64.to_bits(), (-2.0f64).to_bits()),
        ]
    );
}

#[test]
fn reset_clears_frame_values_only() {
    let mut m: InputManager<()> = InputManager::new(Vec::new());
    m.poll(key(5, ElementState::Pressed), ());
    m.poll(WindowEvent::MouseInput { button: MouseButton::Right, state: ElementState::Pressed }, ());
    m.poll(WindowEvent::MouseWheel { delta: ScrollDelta::Line(0.5f32.to_bits(), 1.5f32.to_bits()) }, ());
    m.reset_frame_deltas();
    assert!(m.scroll_delta().is_empty());
    assert_eq!(m.last_key(), None);
    assert_eq!(m.last_mouse_button(), None);
    assert!(m.is_key_down(5));
    assert!(m.is_mouse_down(MouseButton::Right));
}

#[test]
fn input_event_predicate() {
    assert!(InputManager::<()>::is_input_event(&key(1, ElementState::Pressed)));
    assert!(InputManager::<()>::is_input_event(&WindowEvent::ModifiersChanged { modifiers: 4 }));
    assert!(InputManager::<()>::is_input_event(&WindowEvent::CursorMoved { x: 0, y: 0 }));
    assert!(!InputManager::<()>::is_input_event(&WindowEvent::RedrawRequested));
    assert!(!InputManager::<()>::is_input_event(&WindowEvent::Resized { width: 1, height: 1 }));
    assert!(!InputManager::<()>::is_input_event(&WindowEvent::CloseRequested));
}
