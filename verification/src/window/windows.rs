//! The message-queue backend: a window's cached size and event queue, and
//! the translation of the queue's messages into canonical events.

use vstd::prelude::*;
use std::collections::VecDeque;
use crate::event::Button;
use crate::event::Event;
use crate::event::Key;
use crate::win32;
use crate::win32::high_word;
use crate::win32::low_word;
use crate::win32::signed_word;
use crate::win32::DWORD;
use crate::win32::LPARAM;
use crate::win32::HINSTANCE;
use crate::win32::MSG;
use crate::win32::RECT;
use crate::win32::UINT;
use crate::win32::WCHAR;
use crate::win32::WNDCLASSW;
use crate::win32::WORD;
use crate::win32::WPARAM;
use crate::window::Drained;

verus! {

/// The virtual-key code that a key message carries for `key`. The two
/// shifts, the two controls, the two alts and the two enters share one code
/// each: the message's flags tell them apart.
pub open spec fn virtual_key(key: Key) -> i32 {
    match key {
        Key::A => 0x41,
        Key::B => 0x42,
        Key::C => 0x43,
        Key::D => 0x44,
        Key::E => 0x45,
        Key::F => 0x46,
        Key::G => 0x47,
        Key::H => 0x48,
        Key::I => 0x49,
        Key::J => 0x4A,
        Key::K => 0x4B,
        Key::L => 0x4C,
        Key::M => 0x4D,
        Key::N => 0x4E,
        Key::O => 0x4F,
        Key::P => 0x50,
        Key::Q => 0x51,
        Key::R => 0x52,
        Key::S => 0x53,
        Key::T => 0x54,
        Key::U => 0x55,
        Key::V => 0x56,
        Key::W => 0x57,
        Key::X => 0x58,
        Key::Y => 0x59,
        Key::Z => 0x5A,
        Key::Digit0 => 0x30,
        Key::Digit1 => 0x31,
        Key::Digit2 => 0x32,
        Key::Digit3 => 0x33,
        Key::Digit4 => 0x34,
        Key::Digit5 => 0x35,
        Key::Digit6 => 0x36,
        Key::Digit7 => 0x37,
        Key::Digit8 => 0x38,
        Key::Digit9 => 0x39,
        Key::Backquote => win32::VK_OEM_3,
        Key::Minus => win32::VK_OEM_MINUS,
        Key::Equal => win32::VK_OEM_PLUS,
        Key::LeftBracket => win32::VK_OEM_4,
        Key::RightBracket => win32::VK_OEM_6,
        Key::Backslash => win32::VK_OEM_5,
        Key::Semicolon => win32::VK_OEM_1,
        Key::Quote => win32::VK_OEM_7,
        Key::Comma => win32::VK_OEM_COMMA,
        Key::Period => win32::VK_OEM_PERIOD,
        Key::Slash => win32::VK_OEM_2,
        Key::Tab => win32::VK_TAB,
        Key::CapsLock => win32::VK_CAPITAL,
        Key::LeftShift => win32::VK_SHIFT,
        Key::Backspace => win32::VK_BACK,
        Key::Enter => win32::VK_RETURN,
        Key::RightShift => win32::VK_SHIFT,
        Key::Space => win32::VK_SPACE,
        Key::Escape => win32::VK_ESCAPE,
        Key::PrintScreen => win32::VK_PRINT,
        Key::ScrollLock => win32::VK_SCROLL,
        Key::Pause => win32::VK_PAUSE,
        Key::LeftControl => win32::VK_CONTROL,
        Key::LeftSuper => win32::VK_LWIN,
        Key::LeftAlt => win32::VK_MENU,
        Key::RightAlt => win32::VK_MENU,
        Key::RightSuper => win32::VK_RWIN,
        Key::Menu => win32::VK_APPS,
        Key::RightControl => win32::VK_CONTROL,
        Key::F1 => win32::VK_F1,
        Key::F2 => win32::VK_F2,
        Key::F3 => win32::VK_F3,
        Key::F4 => win32::VK_F4,
        Key::F5 => win32::VK_F5,
        Key::F6 => win32::VK_F6,
        Key::F7 => win32::VK_F7,
        Key::F8 => win32::VK_F8,
        Key::F9 => win32::VK_F9,
        Key::F10 => win32::VK_F10,
        Key::F11 => win32::VK_F11,
        Key::F12 => win32::VK_F12,
        Key::Insert => win32::VK_INSERT,
        Key::Delete => win32::VK_DELETE,
        Key::Home => win32::VK_HOME,
        Key::End => win32::VK_END,
        Key::PageUp => win32::VK_PRIOR,
        Key::PageDown => win32::VK_NEXT,
        Key::UpArrow => win32::VK_UP,
        Key::DownArrow => win32::VK_DOWN,
        Key::LeftArrow => win32::VK_LEFT,
        Key::RightArrow => win32::VK_RIGHT,
        Key::NumLock => win32::VK_NUMLOCK,
        Key::Numpad0 => win32::VK_NUMPAD0,
        Key::Numpad1 => win32::VK_NUMPAD1,
        Key::Numpad2 => win32::VK_NUMPAD2,
        Key::Numpad3 => win32::VK_NUMPAD3,
        Key::Numpad4 => win32::VK_NUMPAD4,
        Key::Numpad5 => win32::VK_NUMPAD5,
        Key::Numpad6 => win32::VK_NUMPAD6,
        Key::Numpad7 => win32::VK_NUMPAD7,
        Key::Numpad8 => win32::VK_NUMPAD8,
        Key::Numpad9 => win32::VK_NUMPAD9,
        Key::NumpadEnter => win32::VK_RETURN,
        Key::NumpadDivide => win32::VK_DIVIDE,
        Key::NumpadMultiply => win32::VK_MULTIPLY,
        Key::NumpadSubtract => win32::VK_SUBTRACT,
        Key::NumpadAdd => win32::VK_ADD,
        Key::NumpadDecimal => win32::VK_DECIMAL,
    }
}

/// The hardware scan code in a key message's flags: bits 16 to 23.
pub open spec fn scan_code(flags: LPARAM) -> int {
    (flags as int / 0x1_0000) % 0x100
}

/// Whether a key message's flags carry the extended-key flag: bit 24.
pub open spec fn is_extended(flags: LPARAM) -> bool {
    (flags as int / 0x100_0000) % 2 == 1
}

/// Whether a key message's flags say that the key was down already, so that
/// the message repeats an earlier one: bit 30.
pub open spec fn is_repeat(flags: LPARAM) -> bool {
    (flags as int / 0x4000_0000) % 2 == 1
}

/// Whether a key message with these flags can be about `key`, as far as the
/// side of the keyboard goes. A shift is the left one exactly when the scan
/// code is `left_shift`, the scan code of the left shift key; the extended-key
/// flag does not tell the shifts apart. A control or an alt is the right one,
/// and an enter that of the keypad, exactly when the flag is set. Any other
/// key goes with any flags.
pub open spec fn side_agrees(key: Key, flags: LPARAM, left_shift: UINT) -> bool {
    match key {
        Key::LeftShift => scan_code(flags) == left_shift,
        Key::RightShift => scan_code(flags) != left_shift,
        Key::Enter | Key::LeftControl | Key::LeftAlt => !is_extended(flags),
        Key::NumpadEnter | Key::RightControl | Key::RightAlt => is_extended(flags),
        _ => true,
    }
}

/// The key that a key message with virtual-key code `code` and these flags
/// is about, if it is about any.
pub open spec fn message_key(code: i32, flags: LPARAM, left_shift: UINT) -> Option<Key> {
    if exists|k: Key| virtual_key(k) == code && side_agrees(k, flags, left_shift) {
        Some(choose|k: Key| virtual_key(k) == code && side_agrees(k, flags, left_shift))
    } else {
        None
    }
}

/// The pointer position in a mouse message's second parameter: the
/// horizontal coordinate in its low word, the vertical one in its high word.
pub open spec fn pointer(l_param: LPARAM) -> (i32, i32) {
    (low_word(l_param as int) as i32, high_word(l_param as int) as i32)
}

/// The button of an extra-button message: the first extra button goes back,
/// any other forward.
pub open spec fn extra_button(w_param: WPARAM) -> Button {
    if high_word(w_param as int) == win32::XBUTTON1 {
        Button::Back
    } else {
        Button::Forward
    }
}

/// The canonical event that a message stands for, if it stands for any.
/// `left_shift` is the scan code of the left shift key on the keyboard in use.
pub open spec fn translation(
    message: UINT,
    w_param: WPARAM,
    l_param: LPARAM,
    left_shift: UINT,
) -> Option<Event> {
    let (x, y) = pointer(l_param);
    if message == win32::WM_CLOSE {
        Some(Event::Close)
    } else if message == win32::WM_SETFOCUS {
        Some(Event::GainFocus)
    } else if message == win32::WM_KILLFOCUS {
        Some(Event::LoseFocus)
    } else if message == win32::WM_SIZE {
        Some(
            Event::Resize {
                width: low_word(l_param as int) as u32,
                height: high_word(l_param as int) as u32,
            },
        )
    } else if message == win32::WM_KEYDOWN || message == win32::WM_SYSKEYDOWN {
        if is_repeat(l_param) {
            None
        } else {
            match message_key(w_param as i32, l_param, left_shift) {
                Some(key) => Some(Event::KeyPress { key }),
                None => None,
            }
        }
    } else if message == win32::WM_KEYUP || message == win32::WM_SYSKEYUP {
        match message_key(w_param as i32, l_param, left_shift) {
            Some(key) => Some(Event::KeyRelease { key }),
            None => None,
        }
    } else if message == win32::WM_MOUSEWHEEL {
        if signed_word(high_word(w_param as int) as WORD) > 0 {
            Some(Event::MouseScrollUp)
        } else {
            Some(Event::MouseScrollDown)
        }
    } else if message == win32::WM_MOUSEMOVE {
        Some(Event::MouseMove { x, y })
    } else if message == win32::WM_LBUTTONDOWN {
        Some(Event::MouseButtonPress { button: Button::Left, x, y })
    } else if message == win32::WM_LBUTTONUP {
        Some(Event::MouseButtonRelease { button: Button::Left, x, y })
    } else if message == win32::WM_MBUTTONDOWN {
        Some(Event::MouseButtonPress { button: Button::Middle, x, y })
    } else if message == win32::WM_MBUTTONUP {
        Some(Event::MouseButtonRelease { button: Button::Middle, x, y })
    } else if message == win32::WM_RBUTTONDOWN {
        Some(Event::MouseButtonPress { button: Button::Right, x, y })
    } else if message == win32::WM_RBUTTONUP {
        Some(Event::MouseButtonRelease { button: Button::Right, x, y })
    } else if message == win32::WM_XBUTTONDOWN {
        Some(Event::MouseButtonPress { button: extra_button(w_param), x, y })
    } else if message == win32::WM_XBUTTONUP {
        Some(Event::MouseButtonRelease { button: extra_button(w_param), x, y })
    } else {
        None
    }
}

/// A key message is about one key at most.
pub proof fn lemma_message_key_unique(a: Key, b: Key, flags: LPARAM, left_shift: UINT)
    requires
        virtual_key(a) == virtual_key(b),
        side_agrees(a, flags, left_shift),
        side_agrees(b, flags, left_shift),
    ensures
        a == b,
{
}

/// A key message that can be about `key` is about `key`.
pub proof fn lemma_message_key_is(key: Key, flags: LPARAM, left_shift: UINT)
    requires
        side_agrees(key, flags, left_shift),
    ensures
        message_key(virtual_key(key), flags, left_shift) == Some(key),
{
    let k = choose|k: Key| virtual_key(k) == virtual_key(key) && side_agrees(k, flags, left_shift);
    lemma_message_key_unique(k, key, flags, left_shift);
}

/// The low word of a message's second parameter.
fn low_param(l_param: LPARAM) -> (word: WORD)
    ensures
        word == low_word(l_param as int),
{
    let low: DWORD = #[verifier::truncate] (l_param as DWORD);
    assert((low as i64) % 0x1_0000 == (l_param as i64) % 0x1_0000) by (bit_vector)
        requires
            low == #[verifier::truncate] (l_param as u32),
    ;
    win32::LOWORD(low)
}

/// The high word of a message's second parameter.
fn high_param(l_param: LPARAM) -> (word: WORD)
    ensures
        word == high_word(l_param as int),
{
    let low: DWORD = #[verifier::truncate] (l_param as DWORD);
    assert((low as i64) / 0x1_0000 == ((l_param as i64) / 0x1_0000) % 0x1_0000) by (bit_vector)
        requires
            low == #[verifier::truncate] (l_param as u32),
    ;
    win32::HIWORD(low)
}

/// Translates a message into the canonical event it stands for, if any.
/// `left_shift` is the scan code of the left shift key on the keyboard in use.
pub fn translate_event(message: UINT, w_param: WPARAM, l_param: LPARAM, left_shift: UINT) -> (event:
    Option<Event>)
    ensures
        event == translation(message, w_param, l_param, left_shift),
{
    let x: i32 = low_param(l_param) as i32;
    let y: i32 = high_param(l_param) as i32;
    match message {
        // Window
        win32::WM_CLOSE => Some(Event::Close),
        win32::WM_SETFOCUS => Some(Event::GainFocus),
        win32::WM_KILLFOCUS => Some(Event::LoseFocus),
        win32::WM_SIZE => Some(
            Event::Resize { width: low_param(l_param) as u32, height: high_param(l_param) as u32 },
        ),
        // Keyboard
        win32::WM_KEYDOWN | win32::WM_SYSKEYDOWN => {
            if is_repeat_key_flag(l_param) {
                None
            } else {
                match translate_key(w_param, l_param, left_shift) {
                    Some(key) => Some(Event::KeyPress { key }),
                    None => None,
                }
            }
        },
        win32::WM_KEYUP | win32::WM_SYSKEYUP => {
            match translate_key(w_param, l_param, left_shift) {
                Some(key) => Some(Event::KeyRelease { key }),
                None => None,
            }
        },
        // Mouse
        win32::WM_MOUSEWHEEL => Some(
            if win32::GET_WHEEL_DELTA_WPARAM(w_param) > 0 {
                Event::MouseScrollUp
            } else {
                Event::MouseScrollDown
            },
        ),
        win32::WM_MOUSEMOVE => Some(Event::MouseMove { x, y }),
        win32::WM_LBUTTONDOWN => Some(Event::MouseButtonPress { button: Button::Left, x, y }),
        win32::WM_LBUTTONUP => Some(Event::MouseButtonRelease { button: Button::Left, x, y }),
        win32::WM_MBUTTONDOWN => Some(Event::MouseButtonPress { button: Button::Middle, x, y }),
        win32::WM_MBUTTONUP => Some(Event::MouseButtonRelease { button: Button::Middle, x, y }),
        win32::WM_RBUTTONDOWN => Some(Event::MouseButtonPress { button: Button::Right, x, y }),
        win32::WM_RBUTTONUP => Some(Event::MouseButtonRelease { button: Button::Right, x, y }),
        win32::WM_XBUTTONDOWN => Some(
            Event::MouseButtonPress { button: translate_extra_button(w_param), x, y },
        ),
        win32::WM_XBUTTONUP => Some(
            Event::MouseButtonRelease { button: translate_extra_button(w_param), x, y },
        ),
        // Unknown
        _ => None,
    }
}

/// The button of an extra-button message.
fn translate_extra_button(w_param: WPARAM) -> (button: Button)
    ensures
        button == extra_button(w_param),
{
    if win32::GET_XBUTTON_WPARAM(w_param) == win32::XBUTTON1 {
        Button::Back
    } else {
        Button::Forward
    }
}

/// Translates the virtual-key code and the flags of a key message into the
/// key that the message is about, if it is about any. `left_shift` is the
/// scan code of the left shift key on the keyboard in use.
pub fn translate_key(key: WPARAM, flags: LPARAM, left_shift: UINT) -> (translated: Option<Key>)
    ensures
        translated == message_key(key as i32, flags, left_shift),
        translated matches Some(k) ==> virtual_key(k) == key as i32 && side_agrees(
            k,
            flags,
            left_shift,
        ),
        translated is None ==> forall|k: Key| virtual_key(k) != key as i32,
{
    let code: i32 = #[verifier::truncate] (key as i32);
    let translated = if code == win32::VK_SHIFT {
        let masked: isize = (flags & 0xff_0000) >> 16;
        assert(0 <= masked < 0x100 && masked == (flags / 0x1_0000) % 0x100) by (bit_vector)
            requires
                masked == (flags & 0xff_0000) >> 16,
        ;
        if masked as UINT == left_shift {
            Some(Key::LeftShift)
        } else {
            Some(Key::RightShift)
        }
    } else if code == win32::VK_RETURN {
        if is_extended_key_flag(flags) {
            Some(Key::NumpadEnter)
        } else {
            Some(Key::Enter)
        }
    } else if code == win32::VK_CONTROL {
        if is_extended_key_flag(flags) {
            Some(Key::RightControl)
        } else {
            Some(Key::LeftControl)
        }
    } else if code == win32::VK_MENU {
        if is_extended_key_flag(flags) {
            Some(Key::RightAlt)
        } else {
            Some(Key::LeftAlt)
        }
    } else {
        translate_plain_key(code)
    };
    proof {
        if let Some(k) = translated {
            lemma_message_key_is(k, flags, left_shift);
        }
    }
    translated
}

/// The keys whose virtual-key code names them whatever the flags say.
fn translate_plain_key(code: i32) -> (translated: Option<Key>)
    requires
        code != win32::VK_SHIFT,
        code != win32::VK_RETURN,
        code != win32::VK_CONTROL,
        code != win32::VK_MENU,
    ensures
        translated matches Some(k) ==> virtual_key(k) == code && forall|
            flags: LPARAM,
            left_shift: UINT,
        | side_agrees(k, flags, left_shift),
        translated is None ==> forall|k: Key| virtual_key(k) != code,
{
    match code {
        0x41 => Some(Key::A),
        0x42 => Some(Key::B),
        0x43 => Some(Key::C),
        0x44 => Some(Key::D),
        0x45 => Some(Key::E),
        0x46 => Some(Key::F),
        0x47 => Some(Key::G),
        0x48 => Some(Key::H),
        0x49 => Some(Key::I),
        0x4A => Some(Key::J),
        0x4B => Some(Key::K),
        0x4C => Some(Key::L),
        0x4D => Some(Key::M),
        0x4E => Some(Key::N),
        0x4F => Some(Key::O),
        0x50 => Some(Key::P),
        0x51 => Some(Key::Q),
        0x52 => Some(Key::R),
        0x53 => Some(Key::S),
        0x54 => Some(Key::T),
        0x55 => Some(Key::U),
        0x56 => Some(Key::V),
        0x57 => Some(Key::W),
        0x58 => Some(Key::X),
        0x59 => Some(Key::Y),
        0x5A => Some(Key::Z),
        0x30 => Some(Key::Digit0),
        0x31 => Some(Key::Digit1),
        0x32 => Some(Key::Digit2),
        0x33 => Some(Key::Digit3),
        0x34 => Some(Key::Digit4),
        0x35 => Some(Key::Digit5),
        0x36 => Some(Key::Digit6),
        0x37 => Some(Key::Digit7),
        0x38 => Some(Key::Digit8),
        0x39 => Some(Key::Digit9),
        win32::VK_OEM_3 => Some(Key::Backquote),
        win32::VK_OEM_MINUS => Some(Key::Minus),
        win32::VK_OEM_PLUS => Some(Key::Equal),
        win32::VK_OEM_4 => Some(Key::LeftBracket),
        win32::VK_OEM_6 => Some(Key::RightBracket),
        win32::VK_OEM_5 => Some(Key::Backslash),
        win32::VK_OEM_1 => Some(Key::Semicolon),
        win32::VK_OEM_7 => Some(Key::Quote),
        win32::VK_OEM_COMMA => Some(Key::Comma),
        win32::VK_OEM_PERIOD => Some(Key::Period),
        win32::VK_OEM_2 => Some(Key::Slash),
        win32::VK_TAB => Some(Key::Tab),
        win32::VK_CAPITAL => Some(Key::CapsLock),
        win32::VK_BACK => Some(Key::Backspace),
        win32::VK_SPACE => Some(Key::Space),
        win32::VK_ESCAPE => Some(Key::Escape),
        win32::VK_PRINT => Some(Key::PrintScreen),
        win32::VK_SCROLL => Some(Key::ScrollLock),
        win32::VK_PAUSE => Some(Key::Pause),
        win32::VK_LWIN => Some(Key::LeftSuper),
        win32::VK_RWIN => Some(Key::RightSuper),
        win32::VK_APPS => Some(Key::Menu),
        win32::VK_F1 => Some(Key::F1),
        win32::VK_F2 => Some(Key::F2),
        win32::VK_F3 => Some(Key::F3),
        win32::VK_F4 => Some(Key::F4),
        win32::VK_F5 => Some(Key::F5),
        win32::VK_F6 => Some(Key::F6),
        win32::VK_F7 => Some(Key::F7),
        win32::VK_F8 => Some(Key::F8),
        win32::VK_F9 => Some(Key::F9),
        win32::VK_F10 => Some(Key::F10),
        win32::VK_F11 => Some(Key::F11),
        win32::VK_F12 => Some(Key::F12),
        win32::VK_INSERT => Some(Key::Insert),
        win32::VK_DELETE => Some(Key::Delete),
        win32::VK_HOME => Some(Key::Home),
        win32::VK_END => Some(Key::End),
        win32::VK_PRIOR => Some(Key::PageUp),
        win32::VK_NEXT => Some(Key::PageDown),
        win32::VK_UP => Some(Key::UpArrow),
        win32::VK_DOWN => Some(Key::DownArrow),
        win32::VK_LEFT => Some(Key::LeftArrow),
        win32::VK_RIGHT => Some(Key::RightArrow),
        win32::VK_NUMLOCK => Some(Key::NumLock),
        win32::VK_NUMPAD0 => Some(Key::Numpad0),
        win32::VK_NUMPAD1 => Some(Key::Numpad1),
        win32::VK_NUMPAD2 => Some(Key::Numpad2),
        win32::VK_NUMPAD3 => Some(Key::Numpad3),
        win32::VK_NUMPAD4 => Some(Key::Numpad4),
        win32::VK_NUMPAD5 => Some(Key::Numpad5),
        win32::VK_NUMPAD6 => Some(Key::Numpad6),
        win32::VK_NUMPAD7 => Some(Key::Numpad7),
        win32::VK_NUMPAD8 => Some(Key::Numpad8),
        win32::VK_NUMPAD9 => Some(Key::Numpad9),
        win32::VK_DIVIDE => Some(Key::NumpadDivide),
        win32::VK_MULTIPLY => Some(Key::NumpadMultiply),
        win32::VK_SUBTRACT => Some(Key::NumpadSubtract),
        win32::VK_ADD => Some(Key::NumpadAdd),
        win32::VK_DECIMAL => Some(Key::NumpadDecimal),
        _ => None,
    }
}

/// Indicates if the extended-key flag is included in the specified flags.
pub fn is_extended_key_flag(flags: LPARAM) -> (extended: bool)
    ensures
        extended == is_extended(flags),
{
    let word: WORD = high_param(flags);
    proof {
        lemma_flags_in_high_word(word, flags as i64);
    }
    word & win32::KF_EXTENDED != 0
}

/// Indicates if the flags say that the message repeats an earlier one.
fn is_repeat_key_flag(flags: LPARAM) -> (repeat: bool)
    ensures
        repeat == is_repeat(flags),
{
    let word: WORD = high_param(flags);
    proof {
        lemma_flags_in_high_word(word, flags as i64);
    }
    word & win32::KF_REPEAT != 0
}

/// Where the two flags that the translation reads lie in the high word of a
/// key message's flags.
proof fn lemma_flags_in_high_word(word: WORD, flags: i64)
    by (bit_vector)
    requires
        word as i64 == (flags / 0x1_0000) % 0x1_0000,
    ensures
        (word & 0x0100 != 0) == ((flags / 0x100_0000) % 2 == 1),
        (word & 0x4000 != 0) == ((flags / 0x4000_0000) % 2 == 1),
{
}

/// The UTF-16 code units of one character: itself where it fits one unit,
/// else the high and the low surrogate of its pair.
pub open spec fn utf16_units(c: char) -> Seq<WCHAR> {
    let code = c as u32;
    if code < 0x1_0000 {
        seq![code as WCHAR]
    } else {
        seq![
            (0xD800 + (code - 0x1_0000) / 0x400) as WCHAR,
            (0xDC00 + (code - 0x1_0000) % 0x400) as WCHAR,
        ]
    }
}

/// The UTF-16 code units of a run of characters.
pub open spec fn utf16(chars: Seq<char>) -> Seq<WCHAR>
    decreases chars.len(),
{
    if chars.len() == 0 {
        Seq::empty()
    } else {
        utf16(chars.drop_last()) + utf16_units(chars.last())
    }
}

/// Converts an `&str` into wide characters: its UTF-16 code units, and a
/// zero that ends them.
pub fn wide_string(string: &str) -> (wide: Vec<WCHAR>)
    ensures
        wide@ == utf16(string@).push(0),
{
    let mut wide: Vec<WCHAR> = Vec::new();
    for c in iter: string.chars()
        invariant
            iter.seq() == string@,
            wide@ == utf16(string@.take(iter.index() as int)),
    {
        let ghost before = string@.take(iter.index() as int);
        let ghost after = string@.take(iter.index() + 1);
        assert(after.drop_last() == before);
        assert(after.last() == c);
        let code: u32 = c as u32;
        if code < 0x1_0000 {
            wide.push(code as WCHAR);
        } else {
            let offset: u32 = code - 0x1_0000;
            wide.push((0xD800 + offset / 0x400) as WCHAR);
            wide.push((0xDC00 + offset % 0x400) as WCHAR);
        }
        assert(wide@ == utf16(before) + utf16_units(c));
    }
    assert(string@.take(string@.len() as int) == string@);
    wide.push(0);
    wide
}

/// The style of the windows this backend creates: an overlapped window with
/// a title bar, a system menu, a sizing border and both boxes, visible from
/// the start.
pub const WINDOW_STYLE: DWORD = 0x10cf_0000;

/// The style of the class this backend registers: redraw on a change of
/// width or of height.
pub const CLASS_STYLE: UINT = 0x0003;

/// The class that a context registers for its window: nothing set but the
/// style, the owning module and the name.
pub fn window_class(instance: HINSTANCE, name: &str) -> (class: WNDCLASSW)
    ensures
        class.style == CLASS_STYLE,
        class.cbClsExtra == 0,
        class.cbWndExtra == 0,
        class.hInstance == instance,
        class.hIcon == 0,
        class.hCursor == 0,
        class.hbrBackground == 0,
        class.lpszMenuName@ == Seq::<WCHAR>::empty(),
        class.lpszClassName@ == utf16(name@).push(0),
{
    WNDCLASSW {
        style: CLASS_STYLE,
        cbClsExtra: 0,
        cbWndExtra: 0,
        hInstance: instance,
        hIcon: 0,
        hCursor: 0,
        hbrBackground: 0,
        lpszMenuName: Vec::new(),
        lpszClassName: wide_string(name),
    }
}

/// The size that a window of cached size `width` by `height` has after
/// `message`: the size in a size message's second parameter, else the cached
/// one.
pub open spec fn resized(width: u32, height: u32, message: MSG) -> (u32, u32) {
    if message.message == win32::WM_SIZE {
        (low_word(message.lParam as int) as u32, high_word(message.lParam as int) as u32)
    } else {
        (width, height)
    }
}

/// The canonical event that a window of cached size `width` by `height`
/// queues for `message`, if any: the message's translation, but for a size
/// message that brings the cached size again, which queues nothing.
pub open spec fn report(width: u32, height: u32, message: MSG, left_shift: UINT) -> Option<Event> {
    if message.message == win32::WM_SIZE && resized(width, height, message) == (width, height) {
        None
    } else {
        translation(message.message, message.wParam, message.lParam, left_shift)
    }
}

/// Drains `pending`, oldest first, through a window whose cached size is
/// `width` by `height`: every message updates the cached size and
/// contributes the event it queues, if any.
pub open spec fn drain(width: u32, height: u32, pending: Seq<MSG>, left_shift: UINT) -> Drained
    decreases pending.len(),
{
    if pending.len() == 0 {
        Drained { events: Seq::empty(), width, height }
    } else {
        let size = resized(width, height, pending[0]);
        let rest = drain(size.0, size.1, pending.skip(1), left_shift);
        match report(width, height, pending[0], left_shift) {
            Some(event) => Drained { events: seq![event] + rest.events, ..rest },
            None => rest,
        }
    }
}

/// A window of the message-queue backend: the size it was last seen to have
/// and the canonical events that were translated and not yet handed out.
pub struct Window {
    width: u32,
    height: u32,
    events: VecDeque<Event>,
}

impl Window {
    /// The cached width: that of the last size message, or the one the
    /// window was created with.
    pub closed spec fn spec_width(&self) -> u32 {
        self.width
    }

    /// The cached height.
    pub closed spec fn spec_height(&self) -> u32 {
        self.height
    }

    /// The queued events, oldest first.
    pub closed spec fn queue(&self) -> Seq<Event> {
        self.events@
    }

    /// The state of a window that was just created with the given size of
    /// its drawable area: nothing is queued yet.
    pub fn create(width: u32, height: u32) -> (window: Window)
        ensures
            window.spec_width() == width,
            window.spec_height() == height,
            window.queue() == Seq::<Event>::empty(),
    {
        Window { width, height, events: VecDeque::new() }
    }

    /// The rectangle of the drawable area that a window is asked for, before
    /// it is grown by the window's decorations: `width` by `height` at the
    /// origin. `None` where a side does not fit the rectangle's coordinates.
    pub fn client_rectangle(width: u32, height: u32) -> (rectangle: Option<RECT>)
        ensures
            width <= i32::MAX && height <= i32::MAX ==> rectangle == Some(
                RECT { left: 0, top: 0, right: width as i32, bottom: height as i32 },
            ),
            width > i32::MAX || height > i32::MAX ==> rectangle is None,
    {
        if width > 0x7fff_ffff || height > 0x7fff_ffff {
            None
        } else {
            Some(RECT { left: 0, top: 0, right: width as i32, bottom: height as i32 })
        }
    }

    /// The width and the height of `rectangle`, the frame that the drawable
    /// area was grown to: what the window is created with. `None` where the
    /// rectangle's right or bottom lies before its left or top, or where a
    /// side is too long to be a coordinate.
    pub fn frame_size(rectangle: &RECT) -> (size: Option<(i32, i32)>)
        ensures
            ({
                let width = rectangle.right - rectangle.left;
                let height = rectangle.bottom - rectangle.top;
                if 0 <= width <= i32::MAX && 0 <= height <= i32::MAX {
                    size == Some((width as i32, height as i32))
                } else {
                    size is None
                }
            }),
    {
        if rectangle.right < rectangle.left || rectangle.bottom < rectangle.top {
            return None;
        }
        let width: i64 = rectangle.right as i64 - rectangle.left as i64;
        let height: i64 = rectangle.bottom as i64 - rectangle.top as i64;
        if width > 0x7fff_ffff || height > 0x7fff_ffff {
            None
        } else {
            Some((width as i32, height as i32))
        }
    }

    /// The cached width.
    #[verifier::when_used_as_spec(spec_width)]
    pub fn width(&self) -> (width: u32)
        ensures
            width == self.spec_width(),
    {
        self.width
    }

    /// The cached height.
    #[verifier::when_used_as_spec(spec_height)]
    pub fn height(&self) -> (height: u32)
        ensures
            height == self.spec_height(),
    {
        self.height
    }

    /// Drains `pending`, the messages that the queue delivered to the
    /// window, oldest first, into the event queue, then takes the oldest
    /// queued event, if any.
    pub fn poll_event(&mut self, pending: &Vec<MSG>, left_shift: UINT) -> (event: Option<Event>)
        ensures
            final(self).spec_width() == drain(
                old(self).spec_width(),
                old(self).spec_height(),
                pending@,
                left_shift,
            ).width,
            final(self).spec_height() == drain(
                old(self).spec_width(),
                old(self).spec_height(),
                pending@,
                left_shift,
            ).height,
            ({
                let all = old(self).queue() + drain(
                    old(self).spec_width(),
                    old(self).spec_height(),
                    pending@,
                    left_shift,
                ).events;
                if all.len() == 0 {
                    event is None && final(self).queue() == all
                } else {
                    event == Some(all[0]) && final(self).queue() == all.skip(1)
                }
            }),
    {
        self.update_event_queue(pending, left_shift);
        self.events.pop_front()
    }

    /// Drains `pending`, the messages that the queue delivered to the
    /// window, oldest first: each is handled in turn.
    pub fn update_event_queue(&mut self, pending: &Vec<MSG>, left_shift: UINT)
        ensures
            final(self).spec_width() == drain(
                old(self).spec_width(),
                old(self).spec_height(),
                pending@,
                left_shift,
            ).width,
            final(self).spec_height() == drain(
                old(self).spec_width(),
                old(self).spec_height(),
                pending@,
                left_shift,
            ).height,
            final(self).queue() == old(self).queue() + drain(
                old(self).spec_width(),
                old(self).spec_height(),
                pending@,
                left_shift,
            ).events,
    {
        let ghost goal = drain(self.width, self.height, pending@, left_shift);
        let ghost queued = self.events@;
        let mut index: usize = 0;
        assert(pending@.skip(0) == pending@);
        while index < pending.len()
            invariant
                index <= pending.len(),
                ({
                    let rest = drain(self.width, self.height, pending@.skip(index as int), left_shift);
                    &&& rest.width == goal.width
                    &&& rest.height == goal.height
                    &&& self.events@ + rest.events == queued + goal.events
                }),
            decreases pending.len() - index,
        {
            let ghost tail = pending@.skip(index as int);
            let ghost before = drain(self.width, self.height, tail, left_shift);
            let ghost held = self.events@;
            let ghost width = self.width;
            let ghost height = self.height;
            self.handle_message(&pending[index], left_shift);
            proof {
                assert(tail[0] == pending@[index as int]);
                assert(tail.skip(1) == pending@.skip(index + 1));
                let after = drain(self.width, self.height, pending@.skip(index + 1), left_shift);
                match report(width, height, tail[0], left_shift) {
                    Some(event) => {
                        assert(before.events == seq![event] + after.events);
                        assert(held.push(event) + after.events == held + before.events);
                    },
                    None => {},
                }
            }
            index += 1;
        }
        assert(pending@.skip(index as int).len() == 0);
    }

    /// Handles one message that the queue delivered to the window: brings
    /// the cached size up to date and queues the event that the message
    /// stands for, but no resize to the size that was cached already. Says
    /// whether the message stands for an event at all; one that does not is
    /// left to the platform's default handling.
    pub fn handle_message(&mut self, message: &MSG, left_shift: UINT) -> (handled: bool)
        ensures
            handled == translation(message.message, message.wParam, message.lParam, left_shift)
                is Some,
            (final(self).spec_width(), final(self).spec_height()) == resized(
                old(self).spec_width(),
                old(self).spec_height(),
                *message,
            ),
            final(self).queue() == match report(
                old(self).spec_width(),
                old(self).spec_height(),
                *message,
                left_shift,
            ) {
                Some(event) => old(self).queue().push(event),
                None => old(self).queue(),
            },
    {
        match translate_event(message.message, message.wParam, message.lParam, left_shift) {
            Some(Event::Resize { width, height }) => {
                if width != self.width || height != self.height {
                    self.width = width;
                    self.height = height;
                    self.events.push_back(Event::Resize { width, height });
                }
                true
            },
            Some(event) => {
                self.events.push_back(event);
                true
            },
            None => false,
        }
    }
}

/// With nothing pending, draining gives no event and keeps the cached size,
/// so a window polled right after its creation hands out nothing and still
/// has the size it was created with.
pub proof fn lemma_nothing_pending(width: u32, height: u32, left_shift: UINT)
    ensures
        drain(width, height, Seq::empty(), left_shift) == (Drained {
            events: Seq::empty(),
            width,
            height,
        }),
{
}

/// What draining gives: what the first pending message queues, if anything,
/// in front of what the rest gives in a window of the size that it leaves.
pub proof fn lemma_drain_step(
    width: u32,
    height: u32,
    first: MSG,
    rest: Seq<MSG>,
    left_shift: UINT,
)
    ensures
        ({
            let size = resized(width, height, first);
            let tail = drain(size.0, size.1, rest, left_shift);
            let whole = drain(width, height, seq![first] + rest, left_shift);
            &&& whole.width == tail.width
            &&& whole.height == tail.height
            &&& whole.events == match report(width, height, first, left_shift) {
                Some(e) => seq![e] + tail.events,
                None => tail.events,
            }
        }),
{
    let pending = seq![first] + rest;
    assert(pending.skip(1) == rest);
    assert(pending[0] == first);
}

/// A size message whose size differs from the cached one is reported as
/// exactly one resize to the new size. Two size messages of one size in a
/// row are reported at most once between them: once if the size is new to
/// the window, and not at all if it is the cached one.
pub proof fn lemma_resize_is_reported_on_change_only(
    width: u32,
    height: u32,
    first: MSG,
    second: MSG,
    left_shift: UINT,
)
    requires
        first.message == win32::WM_SIZE,
        second.message == win32::WM_SIZE,
        low_word(first.lParam as int) == low_word(second.lParam as int),
        high_word(first.lParam as int) == high_word(second.lParam as int),
    ensures
        ({
            let size = resized(width, height, first);
            let resize = Event::Resize { width: size.0, height: size.1 };
            let once = drain(width, height, seq![first], left_shift);
            let twice = drain(width, height, seq![first, second], left_shift);
            &&& (once.width, once.height) == size
            &&& (twice.width, twice.height) == size
            &&& size != (width, height) ==> once.events == seq![resize] && twice.events == seq![
                resize,
            ]
            &&& size == (width, height) ==> once.events.len() == 0 && twice.events.len() == 0
        }),
{
    let size = resized(width, height, first);
    lemma_nothing_pending(size.0, size.1, left_shift);
    lemma_drain_step(width, height, first, Seq::empty(), left_shift);
    assert(seq![first] + Seq::<MSG>::empty() == seq![first]);
    lemma_drain_step(size.0, size.1, second, Seq::empty(), left_shift);
    assert(seq![second] + Seq::<MSG>::empty() == seq![second]);
    lemma_drain_step(width, height, first, seq![second], left_shift);
    assert(seq![first] + seq![second] == seq![first, second]);
    if size != (width, height) {
        let resize = Event::Resize { width: size.0, height: size.1 };
        assert(seq![resize] + Seq::<Event>::empty() == seq![resize]);
    }
}

/// A wheel message is reported by the sign of its turn alone: scrolling up
/// for a positive turn, down for any other, whatever the size of the turn.
pub proof fn lemma_wheel_reports_direction_only(
    w_param: WPARAM,
    l_param: LPARAM,
    left_shift: UINT,
)
    ensures
        ({
            let turn = signed_word(high_word(w_param as int) as WORD);
            let event = translation(win32::WM_MOUSEWHEEL, w_param, l_param, left_shift);
            &&& turn > 0 ==> event == Some(Event::MouseScrollUp)
            &&& turn <= 0 ==> event == Some(Event::MouseScrollDown)
        }),
{
}

/// Draining a run of messages in two polls gives what draining it in one
/// gives, in the same order: what is queued does not depend on how the
/// messages fall into polls.
pub proof fn lemma_drain_in_two_polls(
    width: u32,
    height: u32,
    first: Seq<MSG>,
    second: Seq<MSG>,
    left_shift: UINT,
)
    ensures
        ({
            let head = drain(width, height, first, left_shift);
            let tail = drain(head.width, head.height, second, left_shift);
            let whole = drain(width, height, first + second, left_shift);
            &&& whole.events == head.events + tail.events
            &&& whole.width == tail.width
            &&& whole.height == tail.height
        }),
    decreases first.len(),
{
    let all = first + second;
    if first.len() == 0 {
        assert(all == second);
        let tail = drain(width, height, second, left_shift);
        assert(Seq::<Event>::empty() + tail.events == tail.events);
    } else {
        let rest = first.skip(1);
        let size = resized(width, height, first[0]);
        assert(all.skip(1) == rest + second);
        assert(all[0] == first[0]);
        lemma_drain_in_two_polls(size.0, size.1, rest, second, left_shift);
        let head = drain(size.0, size.1, rest, left_shift);
        let tail = drain(head.width, head.height, second, left_shift);
        match report(width, height, first[0], left_shift) {
            Some(event) => {
                assert(seq![event] + (head.events + tail.events) == (seq![event] + head.events)
                    + tail.events);
            },
            None => {},
        }
    }
}

} // verus!
