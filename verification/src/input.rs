//! Input state: which keys and buttons are held, and actions bound to them.

use std::collections::HashSet;
use vstd::prelude::*;

verus! {

broadcast use vstd::std_specs::hash::group_hash_axioms;

/// Keys of the keyboard.
#[derive(Debug, Clone, Copy, PartialEq, Eq, Hash, Structural)]
pub enum KeyCode {
    A,
    B,
    C,
    D,
    E,
    F,
    G,
    H,
    I,
    J,
    K,
    L,
    M,
    N,
    O,
    P,
    Q,
    R,
    S,
    T,
    U,
    V,
    W,
    X,
    Y,
    Z,
    Num0,
    Num1,
    Num2,
    Num3,
    Num4,
    Num5,
    Num6,
    Num7,
    Num8,
    Num9,
    F1,
    F2,
    F3,
    F4,
    F5,
    F6,
    F7,
    F8,
    F9,
    F10,
    F11,
    F12,
    Space,
    Enter,
    Escape,
    Tab,
    Backspace,
    Delete,
    Up,
    Down,
    Left,
    Right,
    LeftShift,
    RightShift,
    LeftCtrl,
    RightCtrl,
    LeftAlt,
    RightAlt,
    Unknown,
}

/// Buttons of the mouse.
#[derive(Debug, Clone, Copy, PartialEq, Eq, Hash, Structural)]
pub enum MouseButton {
    Left,
    Right,
    Middle,
    Extra1,
    Extra2,
}

/// Buttons of a gamepad.
#[derive(Debug, Clone, Copy, PartialEq, Eq, Hash, Structural)]
pub enum GamepadButton {
    A,
    B,
    X,
    Y,
    LeftBumper,
    RightBumper,
    LeftTrigger,
    RightTrigger,
    Select,
    Start,
    LeftStick,
    RightStick,
    DpadUp,
    DpadDown,
    DpadLeft,
    DpadRight,
}

/// Axes of a gamepad.
#[derive(Debug, Clone, Copy, PartialEq, Eq, Hash, Structural)]
pub enum GamepadAxis {
    LeftStickX,
    LeftStickY,
    RightStickX,
    RightStickY,
    LeftTrigger,
    RightTrigger,
}

impl KeyCode {
    /// Position of the key in the list of all of them: the number under
    /// which the input manager remembers it.
    pub open spec fn index_of(self) -> u8 {
        match self {
            KeyCode::A => 0,
            KeyCode::B => 1,
            KeyCode::C => 2,
            KeyCode::D => 3,
            KeyCode::E => 4,
            KeyCode::F => 5,
            KeyCode::G => 6,
            KeyCode::H => 7,
            KeyCode::I => 8,
            KeyCode::J => 9,
            KeyCode::K => 10,
            KeyCode::L => 11,
            KeyCode::M => 12,
            KeyCode::N => 13,
            KeyCode::O => 14,
            KeyCode::P => 15,
            KeyCode::Q => 16,
            KeyCode::R => 17,
            KeyCode::S => 18,
            KeyCode::T => 19,
            KeyCode::U => 20,
            KeyCode::V => 21,
            KeyCode::W => 22,
            KeyCode::X => 23,
            KeyCode::Y => 24,
            KeyCode::Z => 25,
            KeyCode::Num0 => 26,
            KeyCode::Num1 => 27,
            KeyCode::Num2 => 28,
            KeyCode::Num3 => 29,
            KeyCode::Num4 => 30,
            KeyCode::Num5 => 31,
            KeyCode::Num6 => 32,
            KeyCode::Num7 => 33,
            KeyCode::Num8 => 34,
            KeyCode::Num9 => 35,
            KeyCode::F1 => 36,
            KeyCode::F2 => 37,
            KeyCode::F3 => 38,
            KeyCode::F4 => 39,
            KeyCode::F5 => 40,
            KeyCode::F6 => 41,
            KeyCode::F7 => 42,
            KeyCode::F8 => 43,
            KeyCode::F9 => 44,
            KeyCode::F10 => 45,
            KeyCode::F11 => 46,
            KeyCode::F12 => 47,
            KeyCode::Space => 48,
            KeyCode::Enter => 49,
            KeyCode::Escape => 50,
            KeyCode::Tab => 51,
            KeyCode::Backspace => 52,
            KeyCode::Delete => 53,
            KeyCode::Up => 54,
            KeyCode::Down => 55,
            KeyCode::Left => 56,
            KeyCode::Right => 57,
            KeyCode::LeftShift => 58,
            KeyCode::RightShift => 59,
            KeyCode::LeftCtrl => 60,
            KeyCode::RightCtrl => 61,
            KeyCode::LeftAlt => 62,
            KeyCode::RightAlt => 63,
            KeyCode::Unknown => 64,
        }
    }

    /// Computes the position of the key in the list of all of them.
    pub fn index(self) -> (index: u8)
        ensures
            index == self.index_of(),
            index < 65,
    {
        match self {
            KeyCode::A => 0,
            KeyCode::B => 1,
            KeyCode::C => 2,
            KeyCode::D => 3,
            KeyCode::E => 4,
            KeyCode::F => 5,
            KeyCode::G => 6,
            KeyCode::H => 7,
            KeyCode::I => 8,
            KeyCode::J => 9,
            KeyCode::K => 10,
            KeyCode::L => 11,
            KeyCode::M => 12,
            KeyCode::N => 13,
            KeyCode::O => 14,
            KeyCode::P => 15,
            KeyCode::Q => 16,
            KeyCode::R => 17,
            KeyCode::S => 18,
            KeyCode::T => 19,
            KeyCode::U => 20,
            KeyCode::V => 21,
            KeyCode::W => 22,
            KeyCode::X => 23,
            KeyCode::Y => 24,
            KeyCode::Z => 25,
            KeyCode::Num0 => 26,
            KeyCode::Num1 => 27,
            KeyCode::Num2 => 28,
            KeyCode::Num3 => 29,
            KeyCode::Num4 => 30,
            KeyCode::Num5 => 31,
            KeyCode::Num6 => 32,
            KeyCode::Num7 => 33,
            KeyCode::Num8 => 34,
            KeyCode::Num9 => 35,
            KeyCode::F1 => 36,
            KeyCode::F2 => 37,
            KeyCode::F3 => 38,
            KeyCode::F4 => 39,
            KeyCode::F5 => 40,
            KeyCode::F6 => 41,
            KeyCode::F7 => 42,
            KeyCode::F8 => 43,
            KeyCode::F9 => 44,
            KeyCode::F10 => 45,
            KeyCode::F11 => 46,
            KeyCode::F12 => 47,
            KeyCode::Space => 48,
            KeyCode::Enter => 49,
            KeyCode::Escape => 50,
            KeyCode::Tab => 51,
            KeyCode::Backspace => 52,
            KeyCode::Delete => 53,
            KeyCode::Up => 54,
            KeyCode::Down => 55,
            KeyCode::Left => 56,
            KeyCode::Right => 57,
            KeyCode::LeftShift => 58,
            KeyCode::RightShift => 59,
            KeyCode::LeftCtrl => 60,
            KeyCode::RightCtrl => 61,
            KeyCode::LeftAlt => 62,
            KeyCode::RightAlt => 63,
            KeyCode::Unknown => 64,
        }
    }

    /// No two of them share a position.
    pub proof fn lemma_index_injective(a: KeyCode, b: KeyCode)
        requires
            a.index_of() == b.index_of(),
        ensures
            a == b,
    {
    }
}

impl MouseButton {
    /// Position of the button in the list of all of them: the number under
    /// which the input manager remembers it.
    pub open spec fn index_of(self) -> u8 {
        match self {
            MouseButton::Left => 0,
            MouseButton::Right => 1,
            MouseButton::Middle => 2,
            MouseButton::Extra1 => 3,
            MouseButton::Extra2 => 4,
        }
    }

    /// Computes the position of the button in the list of all of them.
    pub fn index(self) -> (index: u8)
        ensures
            index == self.index_of(),
            index < 5,
    {
        match self {
            MouseButton::Left => 0,
            MouseButton::Right => 1,
            MouseButton::Middle => 2,
            MouseButton::Extra1 => 3,
            MouseButton::Extra2 => 4,
        }
    }

    /// No two of them share a position.
    pub proof fn lemma_index_injective(a: MouseButton, b: MouseButton)
        requires
            a.index_of() == b.index_of(),
        ensures
            a == b,
    {
    }
}

impl GamepadButton {
    /// Position of the button in the list of all of them: the number under
    /// which the input manager remembers it.
    pub open spec fn index_of(self) -> u8 {
        match self {
            GamepadButton::A => 0,
            GamepadButton::B => 1,
            GamepadButton::X => 2,
            GamepadButton::Y => 3,
            GamepadButton::LeftBumper => 4,
            GamepadButton::RightBumper => 5,
            GamepadButton::LeftTrigger => 6,
            GamepadButton::RightTrigger => 7,
            GamepadButton::Select => 8,
            GamepadButton::Start => 9,
            GamepadButton::LeftStick => 10,
            GamepadButton::RightStick => 11,
            GamepadButton::DpadUp => 12,
            GamepadButton::DpadDown => 13,
            GamepadButton::DpadLeft => 14,
            GamepadButton::DpadRight => 15,
        }
    }

    /// Computes the position of the button in the list of all of them.
    pub fn index(self) -> (index: u8)
        ensures
            index == self.index_of(),
            index < 16,
    {
        match self {
            GamepadButton::A => 0,
            GamepadButton::B => 1,
            GamepadButton::X => 2,
            GamepadButton::Y => 3,
            GamepadButton::LeftBumper => 4,
            GamepadButton::RightBumper => 5,
            GamepadButton::LeftTrigger => 6,
            GamepadButton::RightTrigger => 7,
            GamepadButton::Select => 8,
            GamepadButton::Start => 9,
            GamepadButton::LeftStick => 10,
            GamepadButton::RightStick => 11,
            GamepadButton::DpadUp => 12,
            GamepadButton::DpadDown => 13,
            GamepadButton::DpadLeft => 14,
            GamepadButton::DpadRight => 15,
        }
    }

    /// No two of them share a position.
    pub proof fn lemma_index_injective(a: GamepadButton, b: GamepadButton)
        requires
            a.index_of() == b.index_of(),
        ensures
            a == b,
    {
    }
}

/// A key or button going down or up.
#[derive(Debug, Clone, Copy, PartialEq, Eq, Structural)]
pub enum ButtonEvent {
    KeyPressed(KeyCode),
    KeyReleased(KeyCode),
    MouseButtonPressed(MouseButton),
    MouseButtonReleased(MouseButton),
    GamepadButtonPressed(GamepadButton),
    GamepadButtonReleased(GamepadButton),
}

/// What is held down at one moment.
pub struct InputState {
    pub keys: Set<KeyCode>,
    pub mouse_buttons: Set<MouseButton>,
    pub gamepad_buttons: Set<GamepadButton>,
}

impl InputState {
    /// Nothing is held.
    pub open spec fn released() -> InputState {
        InputState { keys: Set::empty(), mouse_buttons: Set::empty(), gamepad_buttons: Set::empty() }
    }

    /// The state after an event: a press adds the key or button to those
    /// held, a release takes it away, and the rest stays.
    pub open spec fn after(self, event: ButtonEvent) -> InputState {
        match event {
            ButtonEvent::KeyPressed(key) => InputState { keys: self.keys.insert(key), ..self },
            ButtonEvent::KeyReleased(key) => InputState { keys: self.keys.remove(key), ..self },
            ButtonEvent::MouseButtonPressed(button) => InputState {
                mouse_buttons: self.mouse_buttons.insert(button),
                ..self
            },
            ButtonEvent::MouseButtonReleased(button) => InputState {
                mouse_buttons: self.mouse_buttons.remove(button),
                ..self
            },
            ButtonEvent::GamepadButtonPressed(button) => InputState {
                gamepad_buttons: self.gamepad_buttons.insert(button),
                ..self
            },
            ButtonEvent::GamepadButtonReleased(button) => InputState {
                gamepad_buttons: self.gamepad_buttons.remove(button),
                ..self
            },
        }
    }
}

/// Keeps track of the keys and buttons that are held down.
pub struct InputManager {
    pressed_keys: HashSet<u8>,
    pressed_mouse_buttons: HashSet<u8>,
    gamepad_buttons: HashSet<u8>,
}

impl View for InputManager {
    type V = InputState;

    closed spec fn view(&self) -> InputState {
        InputState {
            keys: Set::new(|key: KeyCode| self.pressed_keys@.contains(key.index_of())),
            mouse_buttons: Set::new(
                |button: MouseButton| self.pressed_mouse_buttons@.contains(button.index_of()),
            ),
            gamepad_buttons: Set::new(
                |button: GamepadButton| self.gamepad_buttons@.contains(button.index_of()),
            ),
        }
    }
}

impl InputManager {
    /// Creates an input manager with nothing held.
    pub fn new() -> (manager: InputManager)
        ensures
            manager@ == InputState::released(),
    {
        let manager = InputManager {
            pressed_keys: HashSet::new(),
            pressed_mouse_buttons: HashSet::new(),
            gamepad_buttons: HashSet::new(),
        };
        proof {
            assert(manager@.keys =~= Set::empty());
            assert(manager@.mouse_buttons =~= Set::empty());
            assert(manager@.gamepad_buttons =~= Set::empty());
        }
        manager
    }

    /// Takes note of a key or button going down or up.
    pub fn process_event(&mut self, event: ButtonEvent)
        ensures
            final(self)@ == old(self)@.after(event),
    {
        match event {
            ButtonEvent::KeyPressed(key) => {
                self.pressed_keys.insert(key.index());
                proof {
                    assert forall|k: KeyCode| #[trigger]
                        self@.keys.contains(k) == old(self)@.keys.insert(key).contains(k) by {
                        if k.index_of() == key.index_of() {
                            KeyCode::lemma_index_injective(k, key);
                        }
                    }
                    assert(self@.keys =~= old(self)@.keys.insert(key));
                }
            },
            ButtonEvent::KeyReleased(key) => {
                let index = key.index();
                self.pressed_keys.remove(&index);
                proof {
                    assert forall|k: KeyCode| #[trigger]
                        self@.keys.contains(k) == old(self)@.keys.remove(key).contains(k) by {
                        if k.index_of() == key.index_of() {
                            KeyCode::lemma_index_injective(k, key);
                        }
                    }
                    assert(self@.keys =~= old(self)@.keys.remove(key));
                }
            },
            ButtonEvent::MouseButtonPressed(button) => {
                self.pressed_mouse_buttons.insert(button.index());
                proof {
                    assert forall|b: MouseButton| #[trigger]
                        self@.mouse_buttons.contains(b) == old(self)@.mouse_buttons.insert(
                            button,
                        ).contains(b) by {
                        if b.index_of() == button.index_of() {
                            MouseButton::lemma_index_injective(b, button);
                        }
                    }
                    assert(self@.mouse_buttons =~= old(self)@.mouse_buttons.insert(button));
                }
            },
            ButtonEvent::MouseButtonReleased(button) => {
                let index = button.index();
                self.pressed_mouse_buttons.remove(&index);
                proof {
                    assert forall|b: MouseButton| #[trigger]
                        self@.mouse_buttons.contains(b) == old(self)@.mouse_buttons.remove(
                            button,
                        ).contains(b) by {
                        if b.index_of() == button.index_of() {
                            MouseButton::lemma_index_injective(b, button);
                        }
                    }
                    assert(self@.mouse_buttons =~= old(self)@.mouse_buttons.remove(button));
                }
            },
            ButtonEvent::GamepadButtonPressed(button) => {
                self.gamepad_buttons.insert(button.index());
                proof {
                    assert forall|b: GamepadButton| #[trigger]
                        self@.gamepad_buttons.contains(b) == old(self)@.gamepad_buttons.insert(
                            button,
                        ).contains(b) by {
                        if b.index_of() == button.index_of() {
                            GamepadButton::lemma_index_injective(b, button);
                        }
                    }
                    assert(self@.gamepad_buttons =~= old(self)@.gamepad_buttons.insert(button));
                }
            },
            ButtonEvent::GamepadButtonReleased(button) => {
                let index = button.index();
                self.gamepad_buttons.remove(&index);
                proof {
                    assert forall|b: GamepadButton| #[trigger]
                        self@.gamepad_buttons.contains(b) == old(self)@.gamepad_buttons.remove(
                            button,
                        ).contains(b) by {
                        if b.index_of() == button.index_of() {
                            GamepadButton::lemma_index_injective(b, button);
                        }
                    }
                    assert(self@.gamepad_buttons =~= old(self)@.gamepad_buttons.remove(button));
                }
            },
        }
    }

    /// Whether a key is held at the moment.
    pub fn is_key_pressed(&self, key: KeyCode) -> (pressed: bool)
        ensures
            pressed == self@.keys.contains(key),
    {
        let index = key.index();
        self.pressed_keys.contains(&index)
    }

    /// Whether a mouse button is held at the moment.
    pub fn is_mouse_button_pressed(&self, button: MouseButton) -> (pressed: bool)
        ensures
            pressed == self@.mouse_buttons.contains(button),
    {
        let index = button.index();
        self.pressed_mouse_buttons.contains(&index)
    }

    /// Whether a gamepad button is held at the moment.
    pub fn is_gamepad_button_pressed(&self, button: GamepadButton) -> (pressed: bool)
        ensures
            pressed == self@.gamepad_buttons.contains(button),
    {
        let index = button.index();
        self.gamepad_buttons.contains(&index)
    }

    /// Forgets everything that was held.
    pub fn clear(&mut self)
        ensures
            final(self)@ == InputState::released(),
    {
        self.pressed_keys.clear();
        self.pressed_mouse_buttons.clear();
        self.gamepad_buttons.clear();
        proof {
            assert(self@.keys =~= Set::empty());
            assert(self@.mouse_buttons =~= Set::empty());
            assert(self@.gamepad_buttons =~= Set::empty());
        }
    }
}

/// A named action of the game and the keys and buttons that trigger it.
pub struct InputAction {
    pub name: String,
    pub keys: Vec<KeyCode>,
    pub mouse_buttons: Vec<MouseButton>,
    pub gamepad_buttons: Vec<GamepadButton>,
}

impl InputAction {
    /// Whether one of the action's keys or buttons is held in `state`.
    pub open spec fn triggered_in(&self, state: InputState) -> bool {
        ||| exists|i: int| 0 <= i < self.keys@.len() && state.keys.contains(#[trigger] self.keys@[i])
        ||| exists|i: int|
            0 <= i < self.mouse_buttons@.len() && state.mouse_buttons.contains(
                #[trigger] self.mouse_buttons@[i],
            )
        ||| exists|i: int|
            0 <= i < self.gamepad_buttons@.len() && state.gamepad_buttons.contains(
                #[trigger] self.gamepad_buttons@[i],
            )
    }

    /// Creates an action with this name and nothing bound to it.
    pub fn new(name: &str) -> (action: InputAction)
        ensures
            action.name@ == name@,
            action.keys@ == Seq::<KeyCode>::empty(),
            action.mouse_buttons@ == Seq::<MouseButton>::empty(),
            action.gamepad_buttons@ == Seq::<GamepadButton>::empty(),
    {
        InputAction {
            name: name.to_owned(),
            keys: Vec::new(),
            mouse_buttons: Vec::new(),
            gamepad_buttons: Vec::new(),
        }
    }

    /// Binds one more key to the action.
    pub fn with_key(self, key: KeyCode) -> (action: InputAction)
        ensures
            action.keys@ == self.keys@.push(key),
            action.name == self.name,
            action.mouse_buttons == self.mouse_buttons,
            action.gamepad_buttons == self.gamepad_buttons,
    {
        let mut action = self;
        action.keys.push(key);
        action
    }

    /// Binds one more mouse button to the action.
    pub fn with_mouse_button(self, button: MouseButton) -> (action: InputAction)
        ensures
            action.mouse_buttons@ == self.mouse_buttons@.push(button),
            action.name == self.name,
            action.keys == self.keys,
            action.gamepad_buttons == self.gamepad_buttons,
    {
        let mut action = self;
        action.mouse_buttons.push(button);
        action
    }

    /// Binds one more gamepad button to the action.
    pub fn with_gamepad_button(self, button: GamepadButton) -> (action: InputAction)
        ensures
            action.gamepad_buttons@ == self.gamepad_buttons@.push(button),
            action.name == self.name,
            action.keys == self.keys,
            action.mouse_buttons == self.mouse_buttons,
    {
        let mut action = self;
        action.gamepad_buttons.push(button);
        action
    }

    /// Whether the action is triggered: one of its keys or buttons is held.
    pub fn is_pressed(&self, input: &InputManager) -> (pressed: bool)
        ensures
            pressed == self.triggered_in(input@),
    {
        let mut i: usize = 0;
        while i < self.keys.len()
            invariant
                i <= self.keys@.len(),
                forall|j: int| 0 <= j < i ==> !input@.keys.contains(#[trigger] self.keys@[j]),
            decreases self.keys.len() - i,
        {
            if input.is_key_pressed(self.keys[i]) {
                return true;
            }
            i += 1;
        }
        let mut i: usize = 0;
        while i < self.mouse_buttons.len()
            invariant
                i <= self.mouse_buttons@.len(),
                forall|j: int| 0 <= j < self.keys@.len() ==> !input@.keys.contains(#[trigger] self.keys@[j]),
                forall|j: int|
                    0 <= j < i ==> !input@.mouse_buttons.contains(#[trigger] self.mouse_buttons@[j]),
            decreases self.mouse_buttons.len() - i,
        {
            if input.is_mouse_button_pressed(self.mouse_buttons[i]) {
                return true;
            }
            i += 1;
        }
        let mut i: usize = 0;
        while i < self.gamepad_buttons.len()
            invariant
                i <= self.gamepad_buttons@.len(),
                forall|j: int| 0 <= j < self.keys@.len() ==> !input@.keys.contains(#[trigger] self.keys@[j]),
                forall|j: int|
                    0 <= j < self.mouse_buttons@.len() ==> !input@.mouse_buttons.contains(
                        #[trigger] self.mouse_buttons@[j],
                    ),
                forall|j: int|
                    0 <= j < i ==> !input@.gamepad_buttons.contains(
                        #[trigger] self.gamepad_buttons@[j],
                    ),
            decreases self.gamepad_buttons.len() - i,
        {
            if input.is_gamepad_button_pressed(self.gamepad_buttons[i]) {
                return true;
            }
            i += 1;
        }
        false
    }
}

} // verus!
