//! The canonical, platform-independent event model.

use vstd::prelude::*;

verus! {

/// A key of the keyboard.
#[derive(Clone, Copy, Debug, PartialEq, Eq, Hash, Structural)]
pub enum Key {
    // Typing
    A,
    B,
    C,
    D,
    E,
    F,
    G,
    H,
    I,
    J,
    K,
    L,
    M,
    N,
    O,
    P,
    Q,
    R,
    S,
    T,
    U,
    V,
    W,
    X,
    Y,
    Z,
    Digit0,
    Digit1,
    Digit2,
    Digit3,
    Digit4,
    Digit5,
    Digit6,
    Digit7,
    Digit8,
    Digit9,
    Backquote,
    Minus,
    Equal,
    LeftBracket,
    RightBracket,
    Backslash,
    Semicolon,
    Quote,
    Comma,
    Period,
    Slash,
    Tab,
    CapsLock,
    LeftShift,
    Backspace,
    Enter,
    RightShift,
    Space,
    // Control
    Escape,
    PrintScreen,
    ScrollLock,
    Pause,
    LeftControl,
    LeftSuper,
    LeftAlt,
    RightAlt,
    RightSuper,
    Menu,
    RightControl,
    // Function
    F1,
    F2,
    F3,
    F4,
    F5,
    F6,
    F7,
    F8,
    F9,
    F10,
    F11,
    F12,
    // Navigation
    Insert,
    Delete,
    Home,
    End,
    PageUp,
    PageDown,
    UpArrow,
    DownArrow,
    LeftArrow,
    RightArrow,
    // Numeric keypad
    NumLock,
    Numpad0,
    Numpad1,
    Numpad2,
    Numpad3,
    Numpad4,
    Numpad5,
    Numpad6,
    Numpad7,
    Numpad8,
    Numpad9,
    NumpadEnter,
    NumpadDivide,
    NumpadMultiply,
    NumpadSubtract,
    NumpadAdd,
    NumpadDecimal,
}

/// A button of the mouse.
#[derive(Clone, Copy, Debug, PartialEq, Eq, Hash, Structural)]
pub enum Button {
    Left,
    Middle,
    Right,
    Back,
    Forward,
}

/// Something that happened to a window, whatever the platform it lives on.
#[derive(Clone, Copy, Debug, PartialEq, Eq, Hash, Structural)]
pub enum Event {
    /// The user asked for the window to be closed.
    Close,
    /// The window gained the input focus.
    GainFocus,
    /// The window lost the input focus.
    LoseFocus,
    /// The drawable area changed to `width` by `height`.
    Resize { width: u32, height: u32 },
    /// A key went down.
    KeyPress { key: Key },
    /// A key went up.
    KeyRelease { key: Key },
    /// The pointer moved to (`x`, `y`).
    MouseMove { x: i32, y: i32 },
    /// A mouse button went down at (`x`, `y`).
    MouseButtonPress { button: Button, x: i32, y: i32 },
    /// A mouse button went up at (`x`, `y`).
    MouseButtonRelease { button: Button, x: i32, y: i32 },
    /// The wheel turned away from the user.
    MouseScrollUp,
    /// The wheel turned towards the user.
    MouseScrollDown,
}

} // verus!
