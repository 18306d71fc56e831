use vstd::prelude::*;

verus! {

/// The buttons of the console that are held down.
pub struct GBInputState {
    pub up: bool,
    pub right: bool,
    pub left: bool,
    pub down: bool,
    pub a: bool,
    pub b: bool,
    pub start: bool,
    pub select: bool,
}

impl Default for GBInputState {
    fn default() -> (s: Self)
        ensures
            !s.up && !s.right && !s.left && !s.down && !s.a && !s.b && !s.start && !s.select,
    {
        GBInputState {
            up: false,
            right: false,
            left: false,
            down: false,
            a: false,
            b: false,
            start: false,
            select: false,
        }
    }
}

} // verus!

verus! {

/// A key of the keyboard, as far as the emulator tells keys apart.
#[derive(Debug, Clone, Copy, PartialEq, Eq, Structural)]
pub enum Key {
    Escape,
    P,
    Up,
    Right,
    Left,
    Down,
    Z,
    X,
    Other,
}

/// What happened to a key.
#[derive(Debug, Clone, Copy, PartialEq, Eq, Structural)]
pub enum KeyAction {
    Press,
    Release,
    Repeat,
}

/// What the window must do after a key event.
#[derive(Debug, Clone, Copy, PartialEq, Eq, Structural)]
pub enum KeyResponse {
    /// Nothing.
    Nothing,
    /// Close the window (escape pressed).
    Close,
    /// Pause the debugger (P pressed).
    Pause,
}

/// The buttons held after a key event: the arrows are the direction pad, Z is
/// the B button and X the A button; a key pressed holds its button down and
/// a key released lets it go.
pub open spec fn input_after(s: GBInputState, key: Key, action: KeyAction) -> GBInputState {
    let held = action == KeyAction::Press;
    if action == KeyAction::Repeat {
        s
    } else {
        match key {
            Key::Up => GBInputState { up: held, ..s },
            Key::Right => GBInputState { right: held, ..s },
            Key::Left => GBInputState { left: held, ..s },
            Key::Down => GBInputState { down: held, ..s },
            Key::Z => GBInputState { b: held, ..s },
            Key::X => GBInputState { a: held, ..s },
            _ => s,
        }
    }
}

/// The window's response to a key event.
pub open spec fn key_response(key: Key, action: KeyAction) -> KeyResponse {
    if action == KeyAction::Press && key == Key::Escape {
        KeyResponse::Close
    } else if action == KeyAction::Press && key == Key::P {
        KeyResponse::Pause
    } else {
        KeyResponse::Nothing
    }
}

/// Applies a key event to the buttons held, and tells the window what to do.
pub fn handle_key(input_state: &mut GBInputState, key: Key, action: KeyAction) -> (r: KeyResponse)
    ensures
        *final(input_state) == input_after(*old(input_state), key, action),
        r == key_response(key, action),
{
    match (key, action) {
        (Key::Escape, KeyAction::Press) => KeyResponse::Close,
        (Key::P, KeyAction::Press) => KeyResponse::Pause,
        (Key::Up, KeyAction::Press) => {
            input_state.up = true;
            KeyResponse::Nothing
        },
        (Key::Up, KeyAction::Release) => {
            input_state.up = false;
            KeyResponse::Nothing
        },
        (Key::Right, KeyAction::Press) => {
            input_state.right = true;
            KeyResponse::Nothing
        },
        (Key::Right, KeyAction::Release) => {
            input_state.right = false;
            KeyResponse::Nothing
        },
        (Key::Left, KeyAction::Press) => {
            input_state.left = true;
            KeyResponse::Nothing
        },
        (Key::Left, KeyAction::Release) => {
            input_state.left = false;
            KeyResponse::Nothing
        },
        (Key::Down, KeyAction::Press) => {
            input_state.down = true;
            KeyResponse::Nothing
        },
        (Key::Down, KeyAction::Release) => {
            input_state.down = false;
            KeyResponse::Nothing
        },
        (Key::Z, KeyAction::Press) => {
            input_state.b = true;
            KeyResponse::Nothing
        },
        (Key::Z, KeyAction::Release) => {
            input_state.b = false;
            KeyResponse::Nothing
        },
        (Key::X, KeyAction::Press) => {
            input_state.a = true;
            KeyResponse::Nothing
        },
        (Key::X, KeyAction::Release) => {
            input_state.a = false;
            KeyResponse::Nothing
        },
        _ => KeyResponse::Nothing,
    }
}

/// Pressing a key and then releasing it leaves the buttons as releasing it
/// alone does: the key's button is let go and the others are untouched.
pub proof fn lemma_press_then_release(s: GBInputState, key: Key)
    ensures
        input_after(input_after(s, key, KeyAction::Press), key, KeyAction::Release) == input_after(
            s,
            key,
            KeyAction::Release,
        ),
{
}

} // verus!
