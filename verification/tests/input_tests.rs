use metatopia_engine::input::{
    ButtonEvent, GamepadAxis, GamepadButton, InputAction, InputManager, KeyCode, MouseButton,
};

#[test]
fn keys_are_held_between_press_and_release() {
    let mut input = InputManager::new();
    assert!(!input.is_key_pressed(KeyCode::W));
    input.process_event(ButtonEvent::KeyPressed(KeyCode::W));
    input.process_event(ButtonEvent::KeyPressed(KeyCode::Space));
    assert!(input.is_key_pressed(KeyCode::W));
    assert!(input.is_key_pressed(KeyCode::Space));
    assert!(!input.is_key_pressed(KeyCode::S));
    input.process_event(ButtonEvent::KeyPressed(KeyCode::W));
    input.process_event(ButtonEvent::KeyReleased(KeyCode::W));
    assert!(!input.is_key_pressed(KeyCode::W));
    assert!(input.is_key_pressed(KeyCode::Space));
    input.process_event(ButtonEvent::KeyReleased(KeyCode::Q));
    assert!(input.is_key_pressed(KeyCode::Space));
}

#[test]
fn buttons_of_mouse_and_gamepad_are_kept_apart() {
    let mut input = InputManager::new();
    input.process_event(ButtonEvent::MouseButtonPressed(MouseButton::Left));
    input.process_event(ButtonEvent::GamepadButtonPressed(GamepadButton::A));
    assert!(input.is_mouse_button_pressed(MouseButton::Left));
    assert!(!input.is_mouse_button_pressed(MouseButton::Right));
    assert!(input.is_gamepad_button_pressed(GamepadButton::A));
    assert!(!input.is_gamepad_button_pressed(GamepadButton::B));
    assert!(!input.is_key_pressed(KeyCode::A));
    input.process_event(ButtonEvent::MouseButtonReleased(MouseButton::Left));
    assert!(!input.is_mouse_button_pressed(MouseButton::Left));
    assert!(input.is_gamepad_button_pressed(GamepadButton::A));
    input.process_event(ButtonEvent::GamepadButtonReleased(GamepadButton::A));
    assert!(!input.is_gamepad_button_pressed(GamepadButton::A));
}

#[test]
fn clear_releases_everything() {
    let mut input = InputManager::new();
    input.process_event(ButtonEvent::KeyPressed(KeyCode::Unknown));
    input.process_event(ButtonEvent::MouseButtonPressed(MouseButton::Extra2));
    input.process_event(ButtonEvent::GamepadButtonPressed(GamepadButton::DpadRight));
    assert!(input.is_key_pressed(KeyCode::Unknown));
    assert!(input.is_mouse_button_pressed(MouseButton::Extra2));
    assert!(input.is_gamepad_button_pressed(GamepadButton::DpadRight));
    input.clear();
    assert!(!input.is_key_pressed(KeyCode::Unknown));
    assert!(!input.is_mouse_button_pressed(MouseButton::Extra2));
    assert!(!input.is_gamepad_button_pressed(GamepadButton::DpadRight));
}

#[test]
fn key_positions_are_all_different() {
    let keys = [
        KeyCode::A, KeyCode::B, KeyCode::C, KeyCode::D, KeyCode::E, KeyCode::F, KeyCode::G,
        KeyCode::H, KeyCode::I, KeyCode::J, KeyCode::K, KeyCode::L, KeyCode::M, KeyCode::N,
        KeyCode::O, KeyCode::P, KeyCode::Q, KeyCode::R, KeyCode::S, KeyCode::T, KeyCode::U,
        KeyCode::V, KeyCode::W, KeyCode::X, KeyCode::Y, KeyCode::Z, KeyCode::Num0, KeyCode::Num1,
        KeyCode::Num2, KeyCode::Num3, KeyCode::Num4, KeyCode::Num5, KeyCode::Num6, KeyCode::Num7,
        KeyCode::Num8, KeyCode::Num9, KeyCode::F1, KeyCode::F2, KeyCode::F3, KeyCode::F4,
        KeyCode::F5, KeyCode::F6, KeyCode::F7, KeyCode::F8, KeyCode::F9, KeyCode::F10,
        KeyCode::F11, KeyCode::F12, KeyCode::Space, KeyCode::Enter, KeyCode::Escape, KeyCode::Tab,
        KeyCode::Backspace, KeyCode::Delete, KeyCode::Up, KeyCode::Down, KeyCode::Left,
        KeyCode::Right, KeyCode::LeftShift, KeyCode::RightShift, KeyCode::LeftCtrl,
        KeyCode::RightCtrl, KeyCode::LeftAlt, KeyCode::RightAlt, KeyCode::Unknown,
    ];
    assert_eq!(keys.len(), 65);
    for (position, key) in keys.iter().enumerate() {
        assert_eq!(key.index() as usize, position);
    }
    let mut input = InputManager::new();
    for (position, key) in keys.iter().enumerate() {
        input.process_event(ButtonEvent::KeyPressed(*key));
        for (other, candidate) in keys.iter().enumerate() {
            assert_eq!(input.is_key_pressed(*candidate), other <= position);
        }
    }
    assert_eq!(MouseButton::Left.index(), 0);
    assert_eq!(MouseButton::Extra2.index(), 4);
    assert_eq!(GamepadButton::A.index(), 0);
    assert_eq!(GamepadButton::DpadRight.index(), 15);
    assert_ne!(GamepadAxis::LeftStickX, GamepadAxis::RightTrigger);
}

#[test]
fn action_collects_its_bindings() {
    let action = InputAction::new("jump")
        .with_key(KeyCode::Space)
        .with_key(KeyCode::Up)
        .with_mouse_button(MouseButton::Middle)
        .with_gamepad_button(GamepadButton::A);
    assert_eq!(action.name, "jump");
    assert_eq!(action.keys, vec![KeyCode::Space, KeyCode::Up]);
    assert_eq!(action.mouse_buttons, vec![MouseButton::Middle]);
    assert_eq!(action.gamepad_buttons, vec![GamepadButton::A]);
    let bare = InputAction::new("idle");
    assert!(bare.keys.is_empty());
    assert!(bare.mouse_buttons.is_empty());
    assert!(bare.gamepad_buttons.is_empty());
}

#[test]
fn action_is_pressed_when_any_binding_is_held() {
    let action = InputAction::new("fire")
        .with_key(KeyCode::F)
        .with_mouse_button(MouseButton::Left)
        .with_gamepad_button(GamepadButton::RightTrigger);
    let mut input = InputManager::new();
    assert!(!action.is_pressed(&input));
    input.process_event(ButtonEvent::KeyPressed(KeyCode::G));
    input.process_event(ButtonEvent::MouseButtonPressed(MouseButton::Right));
    assert!(!action.is_pressed(&input));
    input.process_event(ButtonEvent::GamepadButtonPressed(GamepadButton::RightTrigger));
    assert!(action.is_pressed(&input));
    input.process_event(ButtonEvent::GamepadButtonReleased(GamepadButton::RightTrigger));
    assert!(!action.is_pressed(&input));
    input.process_event(ButtonEvent::MouseButtonPressed(MouseButton::Left));
    assert!(action.is_pressed(&input));
    input.clear();
    input.process_event(ButtonEvent::KeyPressed(KeyCode::F));
    assert!(action.is_pressed(&input));
    assert!(!InputAction::new("nothing").is_pressed(&input));
}
