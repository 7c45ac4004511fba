//! The display-server backend: a window's cached size and event queue, and
//! the translation of the server's events into canonical ones.

use vstd::prelude::*;
use std::collections::VecDeque;
use crate::event::Button;
use crate::event::Event;
use crate::event::Key;
use crate::window::Drained;
use crate::xlib;
use crate::xlib::Atom;
use crate::xlib::KeySym;
use crate::xlib::XClientMessageEvent;
use crate::xlib::XEvent;
use crate::xlib::XKeyEvent;

verus! {

/// The symbol that the display server's keyboard mapping engraves on `key`.
pub open spec fn key_symbol(key: Key) -> KeySym {
    match key {
        Key::A => xlib::XK_A,
        Key::B => xlib::XK_B,
        Key::C => xlib::XK_C,
        Key::D => xlib::XK_D,
        Key::E => xlib::XK_E,
        Key::F => xlib::XK_F,
        Key::G => xlib::XK_G,
        Key::H => xlib::XK_H,
        Key::I => xlib::XK_I,
        Key::J => xlib::XK_J,
        Key::K => xlib::XK_K,
        Key::L => xlib::XK_L,
        Key::M => xlib::XK_M,
        Key::N => xlib::XK_N,
        Key::O => xlib::XK_O,
        Key::P => xlib::XK_P,
        Key::Q => xlib::XK_Q,
        Key::R => xlib::XK_R,
        Key::S => xlib::XK_S,
        Key::T => xlib::XK_T,
        Key::U => xlib::XK_U,
        Key::V => xlib::XK_V,
        Key::W => xlib::XK_W,
        Key::X => xlib::XK_X,
        Key::Y => xlib::XK_Y,
        Key::Z => xlib::XK_Z,
        Key::Digit0 => xlib::XK_0,
        Key::Digit1 => xlib::XK_1,
        Key::Digit2 => xlib::XK_2,
        Key::Digit3 => xlib::XK_3,
        Key::Digit4 => xlib::XK_4,
        Key::Digit5 => xlib::XK_5,
        Key::Digit6 => xlib::XK_6,
        Key::Digit7 => xlib::XK_7,
        Key::Digit8 => xlib::XK_8,
        Key::Digit9 => xlib::XK_9,
        Key::Backquote => xlib::XK_grave,
        Key::Minus => xlib::XK_minus,
        Key::Equal => xlib::XK_equal,
        Key::LeftBracket => xlib::XK_bracketleft,
        Key::RightBracket => xlib::XK_bracketright,
        Key::Backslash => xlib::XK_backslash,
        Key::Semicolon => xlib::XK_semicolon,
        Key::Quote => xlib::XK_apostrophe,
        Key::Comma => xlib::XK_comma,
        Key::Period => xlib::XK_period,
        Key::Slash => xlib::XK_slash,
        Key::Tab => xlib::XK_Tab,
        Key::CapsLock => xlib::XK_Caps_Lock,
        Key::LeftShift => xlib::XK_Shift_L,
        Key::Backspace => xlib::XK_BackSpace,
        Key::Enter => xlib::XK_Return,
        Key::RightShift => xlib::XK_Shift_R,
        Key::Space => xlib::XK_space,
        Key::Escape => xlib::XK_Escape,
        Key::PrintScreen => xlib::XK_Print,
        Key::ScrollLock => xlib::XK_Scroll_Lock,
        Key::Pause => xlib::XK_Break,
        Key::LeftControl => xlib::XK_Control_L,
        Key::LeftSuper => xlib::XK_Super_L,
        Key::LeftAlt => xlib::XK_Alt_L,
        Key::RightAlt => xlib::XK_Alt_R,
        Key::RightSuper => xlib::XK_Super_R,
        Key::Menu => xlib::XK_Menu,
        Key::RightControl => xlib::XK_Control_R,
        Key::F1 => xlib::XK_F1,
        Key::F2 => xlib::XK_F2,
        Key::F3 => xlib::XK_F3,
        Key::F4 => xlib::XK_F4,
        Key::F5 => xlib::XK_F5,
        Key::F6 => xlib::XK_F6,
        Key::F7 => xlib::XK_F7,
        Key::F8 => xlib::XK_F8,
        Key::F9 => xlib::XK_F9,
        Key::F10 => xlib::XK_F10,
        Key::F11 => xlib::XK_F11,
        Key::F12 => xlib::XK_F12,
        Key::Insert => xlib::XK_Insert,
        Key::Delete => xlib::XK_Delete,
        Key::Home => xlib::XK_Home,
        Key::End => xlib::XK_End,
        Key::PageUp => xlib::XK_Prior,
        Key::PageDown => xlib::XK_Next,
        Key::UpArrow => xlib::XK_Up,
        Key::DownArrow => xlib::XK_Down,
        Key::LeftArrow => xlib::XK_Left,
        Key::RightArrow => xlib::XK_Right,
        Key::NumLock => xlib::XK_Num_Lock,
        Key::Numpad0 => xlib::XK_KP_0,
        Key::Numpad1 => xlib::XK_KP_1,
        Key::Numpad2 => xlib::XK_KP_2,
        Key::Numpad3 => xlib::XK_KP_3,
        Key::Numpad4 => xlib::XK_KP_4,
        Key::Numpad5 => xlib::XK_KP_5,
        Key::Numpad6 => xlib::XK_KP_6,
        Key::Numpad7 => xlib::XK_KP_7,
        Key::Numpad8 => xlib::XK_KP_8,
        Key::Numpad9 => xlib::XK_KP_9,
        Key::NumpadEnter => xlib::XK_KP_Enter,
        Key::NumpadDivide => xlib::XK_KP_Divide,
        Key::NumpadMultiply => xlib::XK_KP_Multiply,
        Key::NumpadSubtract => xlib::XK_KP_Subtract,
        Key::NumpadAdd => xlib::XK_KP_Add,
        Key::NumpadDecimal => xlib::XK_KP_Decimal,
    }
}

/// The atoms that a window's display connection interned when it was opened.
#[derive(Clone, Copy, Debug, PartialEq, Eq)]
pub struct Context {
    pub wm_protocols: Atom,
    pub wm_delete_window: Atom,
    pub utf8_string: Atom,
    pub net_wm_name: Atom,
    pub net_wm_icon_name: Atom,
}

/// The number of atoms that a context holds.
pub const ATOMS: usize = 5;

/// The names of the atoms that a context holds, in the order in which
/// `Context::create` takes the atoms.
pub open spec fn atom_names() -> Seq<Seq<char>> {
    seq![
        "WM_PROTOCOLS"@,
        "WM_DELETE_WINDOW"@,
        "UTF8_STRING"@,
        "_NET_WM_NAME"@,
        "_NET_WM_ICON_NAME"@,
    ]
}

impl Context {
    /// The name of the atom that `Context::create` takes at `index`, if it
    /// takes one there.
    pub fn atom_name(index: usize) -> (name: Option<&'static str>)
        ensures
            index < ATOMS ==> (name matches Some(n) && n@ == atom_names()[index as int]),
            index >= ATOMS ==> name is None,
    {
        match index {
            0 => Some("WM_PROTOCOLS"),
            1 => Some("WM_DELETE_WINDOW"),
            2 => Some("UTF8_STRING"),
            3 => Some("_NET_WM_NAME"),
            4 => Some("_NET_WM_ICON_NAME"),
            _ => None,
        }
    }

    /// The context of a connection that interned `atoms` for the names that
    /// `atom_name` gives, each at the index of its name.
    pub fn create(atoms: &[Atom; 5]) -> (context: Context)
        ensures
            context == (Context {
                wm_protocols: atoms[0],
                wm_delete_window: atoms[1],
                utf8_string: atoms[2],
                net_wm_name: atoms[3],
                net_wm_icon_name: atoms[4],
            }),
    {
        Context {
            wm_protocols: atoms[0],
            wm_delete_window: atoms[1],
            utf8_string: atoms[2],
            net_wm_name: atoms[3],
            net_wm_icon_name: atoms[4],
        }
    }

    /// The protocols that a window of this context takes part in: the one
    /// by which it is asked to close.
    pub fn protocols(&self) -> (atoms: [Atom; 1])
        ensures
            atoms[0] == self.wm_delete_window,
    {
        [self.wm_delete_window]
    }
}

/// The number by which the display server knows `button`.
pub open spec fn button_number(button: Button) -> u32 {
    match button {
        Button::Left => 1,
        Button::Middle => 2,
        Button::Right => 3,
        Button::Back => 8,
        Button::Forward => 9,
    }
}

/// The key that carries `symbol`, if any key does.
pub open spec fn symbol_key(symbol: KeySym) -> Option<Key> {
    if exists|k: Key| key_symbol(k) == symbol {
        Some(choose|k: Key| key_symbol(k) == symbol)
    } else {
        None
    }
}

/// The button that the display server knows by `number`, if it is one of
/// the five that are reported as buttons.
pub open spec fn number_button(number: u32) -> Option<Button> {
    if exists|b: Button| button_number(b) == number {
        Some(choose|b: Button| button_number(b) == number)
    } else {
        None
    }
}

/// The key of the first interpretation level, from `level` on, whose symbol
/// a key carries.
pub open spec fn first_key(symbols: Seq<KeySym>, level: int) -> Option<Key>
    decreases symbols.len() - level,
{
    if level < 0 || level >= symbols.len() {
        None
    } else if symbol_key(symbols[level]) is Some {
        symbol_key(symbols[level])
    } else {
        first_key(symbols, level + 1)
    }
}

/// The longest gap, in server clock units, between a release and the press
/// that follows it for the pair to count as one auto-repeat; the gap of a
/// repeat is strictly under this.
pub const REPEAT_THRESHOLD: u64 = 20;

/// Whether `next`, the event pending behind `event`, shows `event` to be the
/// release half of an auto-repeat: a press of the same key code that comes
/// under `REPEAT_THRESHOLD` clock units after the release.
pub open spec fn is_auto_repeat(event: XEvent, next: XEvent) -> bool {
    &&& event.kind == xlib::KeyRelease
    &&& next.kind == xlib::KeyPress
    &&& next.key.keycode == event.key.keycode
    &&& event.key.time <= next.key.time
    &&& next.key.time - event.key.time < REPEAT_THRESHOLD
}

/// Whether `message` asks for the window to be closed: it is of the
/// protocols type and its first word names the delete-window protocol.
pub open spec fn is_close_request(context: Context, message: XClientMessageEvent) -> bool {
    &&& message.message_type == context.wm_protocols
    &&& message.data.longs[0] as Atom == context.wm_delete_window
}

/// The size that a window of cached size `width` by `height` has after
/// `event`: the notified size for a geometry notification, else the cached one.
pub open spec fn resized(width: u32, height: u32, event: XEvent) -> (u32, u32) {
    if event.kind == xlib::ConfigureNotify {
        (event.configure.width as u32, event.configure.height as u32)
    } else {
        (width, height)
    }
}

/// The canonical event that `event` stands for in a window whose cached size
/// is `width` by `height`, if it stands for any. Auto-repeat is not looked at
/// here: that takes the event pending behind this one.
pub open spec fn translation(context: Context, width: u32, height: u32, event: XEvent) -> Option<
    Event,
> {
    if event.kind == xlib::ClientMessage {
        if is_close_request(context, event.client_message) {
            Some(Event::Close)
        } else {
            None
        }
    } else if event.kind == xlib::FocusIn {
        Some(Event::GainFocus)
    } else if event.kind == xlib::FocusOut {
        Some(Event::LoseFocus)
    } else if event.kind == xlib::ConfigureNotify {
        if resized(width, height, event) != (width, height) {
            Some(
                Event::Resize {
                    width: resized(width, height, event).0,
                    height: resized(width, height, event).1,
                },
            )
        } else {
            None
        }
    } else if event.kind == xlib::KeyPress {
        match first_key(event.key.keysyms@, 0) {
            Some(key) => Some(Event::KeyPress { key }),
            None => None,
        }
    } else if event.kind == xlib::KeyRelease {
        match first_key(event.key.keysyms@, 0) {
            Some(key) => Some(Event::KeyRelease { key }),
            None => None,
        }
    } else if event.kind == xlib::ButtonPress {
        if event.button.button == xlib::Button4 {
            Some(Event::MouseScrollUp)
        } else if event.button.button == xlib::Button5 {
            Some(Event::MouseScrollDown)
        } else {
            match number_button(event.button.button) {
                Some(button) => Some(
                    Event::MouseButtonPress { button, x: event.button.x, y: event.button.y },
                ),
                None => None,
            }
        }
    } else if event.kind == xlib::ButtonRelease {
        match number_button(event.button.button) {
            Some(button) => Some(
                Event::MouseButtonRelease { button, x: event.button.x, y: event.button.y },
            ),
            None => None,
        }
    } else if event.kind == xlib::MotionNotify {
        Some(Event::MouseMove { x: event.button.x, y: event.button.y })
    } else {
        None
    }
}

/// Drains `pending`, oldest first, through a window whose cached size is
/// `width` by `height`. A release that the event behind it shows to be an
/// auto-repeat is dropped together with that event; every other event
/// updates the cached size and contributes its translation, if it has one.
pub open spec fn drain(context: Context, width: u32, height: u32, pending: Seq<XEvent>) -> Drained
    decreases pending.len(),
{
    if pending.len() == 0 {
        Drained { events: Seq::empty(), width, height }
    } else if pending.len() >= 2 && is_auto_repeat(pending[0], pending[1]) {
        drain(context, width, height, pending.skip(2))
    } else {
        let size = resized(width, height, pending[0]);
        let rest = drain(context, size.0, size.1, pending.skip(1));
        match translation(context, width, height, pending[0]) {
            Some(event) => Drained { events: seq![event] + rest.events, ..rest },
            None => rest,
        }
    }
}

/// No two keys carry the same symbol.
pub proof fn lemma_key_symbol_injective(a: Key, b: Key)
    requires
        key_symbol(a) == key_symbol(b),
    ensures
        a == b,
{
}

/// No two buttons are known by the same number.
pub proof fn lemma_button_number_injective(a: Button, b: Button)
    requires
        button_number(a) == button_number(b),
    ensures
        a == b,
{
}

/// The key that carries the symbol of `key` is `key`.
pub proof fn lemma_symbol_key_inverts(key: Key)
    ensures
        symbol_key(key_symbol(key)) == Some(key),
{
    let k = choose|k: Key| key_symbol(k) == key_symbol(key);
    lemma_key_symbol_injective(k, key);
}

/// The button known by the number of `button` is `button`.
pub proof fn lemma_number_button_inverts(button: Button)
    ensures
        number_button(button_number(button)) == Some(button),
{
    let b = choose|b: Button| button_number(b) == button_number(button);
    lemma_button_number_injective(b, button);
}

/// Translates a key symbol into the key that carries it, if there is one.
pub fn translate_key(symbol: KeySym) -> (key: Option<Key>)
    ensures
        key == symbol_key(symbol),
        key matches Some(k) ==> key_symbol(k) == symbol,
        key is None ==> forall|k: Key| key_symbol(k) != symbol,
{
    let key = match symbol {
        xlib::XK_A => Some(Key::A),
        xlib::XK_B => Some(Key::B),
        xlib::XK_C => Some(Key::C),
        xlib::XK_D => Some(Key::D),
        xlib::XK_E => Some(Key::E),
        xlib::XK_F => Some(Key::F),
        xlib::XK_G => Some(Key::G),
        xlib::XK_H => Some(Key::H),
        xlib::XK_I => Some(Key::I),
        xlib::XK_J => Some(Key::J),
        xlib::XK_K => Some(Key::K),
        xlib::XK_L => Some(Key::L),
        xlib::XK_M => Some(Key::M),
        xlib::XK_N => Some(Key::N),
        xlib::XK_O => Some(Key::O),
        xlib::XK_P => Some(Key::P),
        xlib::XK_Q => Some(Key::Q),
        xlib::XK_R => Some(Key::R),
        xlib::XK_S => Some(Key::S),
        xlib::XK_T => Some(Key::T),
        xlib::XK_U => Some(Key::U),
        xlib::XK_V => Some(Key::V),
        xlib::XK_W => Some(Key::W),
        xlib::XK_X => Some(Key::X),
        xlib::XK_Y => Some(Key::Y),
        xlib::XK_Z => Some(Key::Z),
        xlib::XK_0 => Some(Key::Digit0),
        xlib::XK_1 => Some(Key::Digit1),
        xlib::XK_2 => Some(Key::Digit2),
        xlib::XK_3 => Some(Key::Digit3),
        xlib::XK_4 => Some(Key::Digit4),
        xlib::XK_5 => Some(Key::Digit5),
        xlib::XK_6 => Some(Key::Digit6),
        xlib::XK_7 => Some(Key::Digit7),
        xlib::XK_8 => Some(Key::Digit8),
        xlib::XK_9 => Some(Key::Digit9),
        xlib::XK_grave => Some(Key::Backquote),
        xlib::XK_minus => Some(Key::Minus),
        xlib::XK_equal => Some(Key::Equal),
        xlib::XK_bracketleft => Some(Key::LeftBracket),
        xlib::XK_bracketright => Some(Key::RightBracket),
        xlib::XK_backslash => Some(Key::Backslash),
        xlib::XK_semicolon => Some(Key::Semicolon),
        xlib::XK_apostrophe => Some(Key::Quote),
        xlib::XK_comma => Some(Key::Comma),
        xlib::XK_period => Some(Key::Period),
        xlib::XK_slash => Some(Key::Slash),
        xlib::XK_Tab => Some(Key::Tab),
        xlib::XK_Caps_Lock => Some(Key::CapsLock),
        xlib::XK_Shift_L => Some(Key::LeftShift),
        xlib::XK_BackSpace => Some(Key::Backspace),
        xlib::XK_Return => Some(Key::Enter),
        xlib::XK_Shift_R => Some(Key::RightShift),
        xlib::XK_space => Some(Key::Space),
        xlib::XK_Escape => Some(Key::Escape),
        xlib::XK_Print => Some(Key::PrintScreen),
        xlib::XK_Scroll_Lock => Some(Key::ScrollLock),
        xlib::XK_Break => Some(Key::Pause),
        xlib::XK_Control_L => Some(Key::LeftControl),
        xlib::XK_Super_L => Some(Key::LeftSuper),
        xlib::XK_Alt_L => Some(Key::LeftAlt),
        xlib::XK_Alt_R => Some(Key::RightAlt),
        xlib::XK_Super_R => Some(Key::RightSuper),
        xlib::XK_Menu => Some(Key::Menu),
        xlib::XK_Control_R => Some(Key::RightControl),
        xlib::XK_F1 => Some(Key::F1),
        xlib::XK_F2 => Some(Key::F2),
        xlib::XK_F3 => Some(Key::F3),
        xlib::XK_F4 => Some(Key::F4),
        xlib::XK_F5 => Some(Key::F5),
        xlib::XK_F6 => Some(Key::F6),
        xlib::XK_F7 => Some(Key::F7),
        xlib::XK_F8 => Some(Key::F8),
        xlib::XK_F9 => Some(Key::F9),
        xlib::XK_F10 => Some(Key::F10),
        xlib::XK_F11 => Some(Key::F11),
        xlib::XK_F12 => Some(Key::F12),
        xlib::XK_Insert => Some(Key::Insert),
        xlib::XK_Delete => Some(Key::Delete),
        xlib::XK_Home => Some(Key::Home),
        xlib::XK_End => Some(Key::End),
        xlib::XK_Prior => Some(Key::PageUp),
        xlib::XK_Next => Some(Key::PageDown),
        xlib::XK_Up => Some(Key::UpArrow),
        xlib::XK_Down => Some(Key::DownArrow),
        xlib::XK_Left => Some(Key::LeftArrow),
        xlib::XK_Right => Some(Key::RightArrow),
        xlib::XK_Num_Lock => Some(Key::NumLock),
        xlib::XK_KP_0 => Some(Key::Numpad0),
        xlib::XK_KP_1 => Some(Key::Numpad1),
        xlib::XK_KP_2 => Some(Key::Numpad2),
        xlib::XK_KP_3 => Some(Key::Numpad3),
        xlib::XK_KP_4 => Some(Key::Numpad4),
        xlib::XK_KP_5 => Some(Key::Numpad5),
        xlib::XK_KP_6 => Some(Key::Numpad6),
        xlib::XK_KP_7 => Some(Key::Numpad7),
        xlib::XK_KP_8 => Some(Key::Numpad8),
        xlib::XK_KP_9 => Some(Key::Numpad9),
        xlib::XK_KP_Enter => Some(Key::NumpadEnter),
        xlib::XK_KP_Divide => Some(Key::NumpadDivide),
        xlib::XK_KP_Multiply => Some(Key::NumpadMultiply),
        xlib::XK_KP_Subtract => Some(Key::NumpadSubtract),
        xlib::XK_KP_Add => Some(Key::NumpadAdd),
        xlib::XK_KP_Decimal => Some(Key::NumpadDecimal),
        _ => None,
    };
    proof {
        if let Some(k) = key {
            lemma_symbol_key_inverts(k);
        }
    }
    key
}

/// Translates a pointer button number into the button it stands for, if any.
/// The two scroll buttons and unknown numbers stand for none.
pub fn translate_button(button: u32) -> (translated: Option<Button>)
    ensures
        translated == number_button(button),
        translated matches Some(b) ==> button_number(b) == button,
        translated is None ==> forall|b: Button| button_number(b) != button,
{
    proof {
        lemma_number_button_inverts(Button::Left);
        lemma_number_button_inverts(Button::Middle);
        lemma_number_button_inverts(Button::Right);
        lemma_number_button_inverts(Button::Back);
        lemma_number_button_inverts(Button::Forward);
    }
    match button {
        xlib::Button1 => Some(Button::Left),
        xlib::Button2 => Some(Button::Middle),
        xlib::Button3 => Some(Button::Right),
        8 => Some(Button::Back),
        9 => Some(Button::Forward),
        _ => None,
    }
}

/// The events that a window subscribes to when it is created: buttons going
/// down and up, the pointer moving, exposure, changes of focus, keys going
/// down and up, and changes of the window's structure, among them its size.
pub fn event_mask() -> (mask: i64)
    ensures
        mask == xlib::ButtonPressMask + xlib::ButtonReleaseMask + xlib::ExposureMask
            + xlib::FocusChangeMask + xlib::PointerMotionMask + xlib::KeyPressMask
            + xlib::KeyReleaseMask + xlib::StructureNotifyMask,
{
    let mask: i64 = xlib::ButtonPressMask | xlib::ButtonReleaseMask | xlib::ExposureMask
        | xlib::FocusChangeMask | xlib::PointerMotionMask | xlib::KeyPressMask
        | xlib::KeyReleaseMask | xlib::StructureNotifyMask;
    assert(0x4i64 | 0x8i64 | 0x8000i64 | 0x20_0000i64 | 0x40i64 | 0x1i64 | 0x2i64 | 0x2_0000i64
        == 0x22_804fi64) by (bit_vector);
    mask
}

/// A window of the display-server backend: the size it was last seen to
/// have and the canonical events that were translated and not yet handed out.
pub struct Window {
    context: Context,
    width: u32,
    height: u32,
    events: VecDeque<Event>,
}

impl Window {
    /// The atoms of the window's display connection.
    pub closed spec fn context(&self) -> Context {
        self.context
    }

    /// The cached width: that of the last geometry notification, or the one
    /// the window was created with.
    pub closed spec fn spec_width(&self) -> u32 {
        self.width
    }

    /// The cached height.
    pub closed spec fn spec_height(&self) -> u32 {
        self.height
    }

    /// The queued events, oldest first.
    pub closed spec fn queue(&self) -> Seq<Event> {
        self.events@
    }

    /// The state of a window that was just created with the given size on a
    /// connection with the given atoms: nothing is queued yet.
    pub fn create(context: Context, width: u32, height: u32) -> (window: Window)
        ensures
            window.context() == context,
            window.spec_width() == width,
            window.spec_height() == height,
            window.queue() == Seq::<Event>::empty(),
    {
        Window { context, width, height, events: VecDeque::new() }
    }

    /// The cached width.
    #[verifier::when_used_as_spec(spec_width)]
    pub fn width(&self) -> (width: u32)
        ensures
            width == self.spec_width(),
    {
        self.width
    }

    /// The cached height.
    #[verifier::when_used_as_spec(spec_height)]
    pub fn height(&self) -> (height: u32)
        ensures
            height == self.spec_height(),
    {
        self.height
    }

    /// Drains `pending`, the events that the display connection holds, oldest
    /// first, into the queue, then takes the oldest queued event, if any.
    pub fn poll_event(&mut self, pending: &Vec<XEvent>) -> (event: Option<Event>)
        ensures
            final(self).context() == old(self).context(),
            final(self).spec_width() == drain(
                old(self).context(),
                old(self).spec_width(),
                old(self).spec_height(),
                pending@,
            ).width,
            final(self).spec_height() == drain(
                old(self).context(),
                old(self).spec_width(),
                old(self).spec_height(),
                pending@,
            ).height,
            ({
                let all = old(self).queue() + drain(
                    old(self).context(),
                    old(self).spec_width(),
                    old(self).spec_height(),
                    pending@,
                ).events;
                if all.len() == 0 {
                    event is None && final(self).queue() == all
                } else {
                    event == Some(all[0]) && final(self).queue() == all.skip(1)
                }
            }),
    {
        self.update_event_queue(pending);
        self.events.pop_front()
    }

    /// Drains `pending`, the events that the display connection holds, oldest
    /// first: each is translated, and those that stand for a canonical event
    /// are appended to the queue in arrival order.
    pub fn update_event_queue(&mut self, pending: &Vec<XEvent>)
        ensures
            final(self).context() == old(self).context(),
            final(self).spec_width() == drain(
                old(self).context(),
                old(self).spec_width(),
                old(self).spec_height(),
                pending@,
            ).width,
            final(self).spec_height() == drain(
                old(self).context(),
                old(self).spec_width(),
                old(self).spec_height(),
                pending@,
            ).height,
            final(self).queue() == old(self).queue() + drain(
                old(self).context(),
                old(self).spec_width(),
                old(self).spec_height(),
                pending@,
            ).events,
    {
        let ghost context = self.context;
        let ghost goal = drain(context, self.width, self.height, pending@);
        let ghost queued = self.events@;
        let mut index: usize = 0;
        assert(pending@.skip(0) == pending@);
        while index < pending.len()
            invariant
                index <= pending.len(),
                self.context == context,
                ({
                    let rest = drain(context, self.width, self.height, pending@.skip(index as int));
                    &&& rest.width == goal.width
                    &&& rest.height == goal.height
                    &&& self.events@ + rest.events == queued + goal.events
                }),
            decreases pending.len() - index,
        {
            let ghost tail = pending@.skip(index as int);
            let ghost before = drain(context, self.width, self.height, tail);
            let ghost held = self.events@;
            let next = if index + 1 < pending.len() {
                Some(&pending[index + 1])
            } else {
                None
            };
            let (event, consumed) = self.translate_event(&pending[index], next);
            proof {
                assert(tail[0] == pending@[index as int]);
                assert(tail.len() >= 2 ==> tail[1] == pending@[index + 1]);
                if consumed {
                    assert(tail.skip(2) == pending@.skip(index + 2));
                } else {
                    assert(tail.skip(1) == pending@.skip(index + 1));
                }
            }
            if let Some(event) = event {
                self.events.push_back(event);
                proof {
                    let after = drain(context, self.width, self.height, pending@.skip(index + 1));
                    assert(before.events == seq![event] + after.events);
                    assert(held.push(event) + after.events == held + before.events);
                }
            }
            index = if consumed {
                index + 2
            } else {
                index + 1
            };
        }
        assert(pending@.skip(index as int).len() == 0);
    }

    /// Translates `event`, which was just taken from the display connection,
    /// and says whether `next`, the event pending behind it, was consumed
    /// with it. A release that `next` shows to be an auto-repeat consumes
    /// `next` and gives no event. Every other event leaves `next` alone,
    /// brings the cached size up to date and gives its translation.
    pub fn translate_event(&mut self, event: &XEvent, next: Option<&XEvent>) -> (translated: (
        Option<Event>,
        bool,
    ))
        ensures
            final(self).context() == old(self).context(),
            final(self).queue() == old(self).queue(),
            translated.1 <==> (next matches Some(n) && is_auto_repeat(*event, *n)),
            translated.1 ==> translated.0 is None && final(self).spec_width() == old(
                self,
            ).spec_width() && final(self).spec_height() == old(self).spec_height(),
            !translated.1 ==> translated.0 == translation(
                old(self).context(),
                old(self).spec_width(),
                old(self).spec_height(),
                *event,
            ) && (final(self).spec_width(), final(self).spec_height()) == resized(
                old(self).spec_width(),
                old(self).spec_height(),
                *event,
            ),
    {
        let kind = event.kind;
        if kind == xlib::ClientMessage {
            let payload: Atom = #[verifier::truncate] (event.client_message.data.longs[0] as Atom);
            if event.client_message.message_type == self.context.wm_protocols && payload
                == self.context.wm_delete_window {
                (Some(Event::Close), false)
            } else {
                (None, false)
            }
        } else if kind == xlib::FocusIn {
            (Some(Event::GainFocus), false)
        } else if kind == xlib::FocusOut {
            (Some(Event::LoseFocus), false)
        } else if kind == xlib::ConfigureNotify {
            let width: u32 = #[verifier::truncate] (event.configure.width as u32);
            let height: u32 = #[verifier::truncate] (event.configure.height as u32);
            if width != self.width || height != self.height {
                self.width = width;
                self.height = height;
                (Some(Event::Resize { width, height }), false)
            } else {
                (None, false)
            }
        } else if kind == xlib::KeyPress {
            match self.translate_key_event(&event.key) {
                Some(key) => (Some(Event::KeyPress { key }), false),
                None => (None, false),
            }
        } else if kind == xlib::KeyRelease {
            if let Some(next) = next {
                if next.kind == xlib::KeyPress && next.key.keycode == event.key.keycode
                    && event.key.time <= next.key.time && next.key.time - event.key.time
                    < REPEAT_THRESHOLD {
                    return (None, true);
                }
            }
            match self.translate_key_event(&event.key) {
                Some(key) => (Some(Event::KeyRelease { key }), false),
                None => (None, false),
            }
        } else if kind == xlib::ButtonPress {
            let number = event.button.button;
            if number == xlib::Button4 {
                (Some(Event::MouseScrollUp), false)
            } else if number == xlib::Button5 {
                (Some(Event::MouseScrollDown), false)
            } else {
                match translate_button(number) {
                    Some(button) => (
                        Some(Event::MouseButtonPress { button, x: event.button.x, y: event.button.y }),
                        false,
                    ),
                    None => (None, false),
                }
            }
        } else if kind == xlib::ButtonRelease {
            match translate_button(event.button.button) {
                Some(button) => (
                    Some(Event::MouseButtonRelease { button, x: event.button.x, y: event.button.y }),
                    false,
                ),
                None => (None, false),
            }
        } else if kind == xlib::MotionNotify {
            (Some(Event::MouseMove { x: event.button.x, y: event.button.y }), false)
        } else {
            (None, false)
        }
    }

    /// The key of a key event: that of the first of its interpretation
    /// levels whose symbol a key carries, if there is such a level.
    pub fn translate_key_event(&self, event: &XKeyEvent) -> (key: Option<Key>)
        ensures
            key == first_key(event.keysyms@, 0),
    {
        let mut level: usize = 0;
        while level < xlib::KEYSYM_LEVELS
            invariant
                level <= xlib::KEYSYM_LEVELS,
                event.keysyms@.len() == xlib::KEYSYM_LEVELS,
                first_key(event.keysyms@, 0) == first_key(event.keysyms@, level as int),
            decreases xlib::KEYSYM_LEVELS - level,
        {
            if let Some(key) = translate_key(event.keysyms[level]) {
                return Some(key);
            }
            level += 1;
        }
        None
    }
}

/// With nothing pending, draining gives no event and keeps the cached size,
/// so a window polled right after its creation hands out nothing and still
/// has the size it was created with.
pub proof fn lemma_nothing_pending(context: Context, width: u32, height: u32)
    ensures
        drain(context, width, height, Seq::empty()) == (Drained {
            events: Seq::empty(),
            width,
            height,
        }),
{
}

/// What draining a single event gives: its translation, and the size it
/// leaves.
pub proof fn lemma_drain_one(context: Context, width: u32, height: u32, event: XEvent)
    ensures
        drain(context, width, height, seq![event]).events == match translation(
            context,
            width,
            height,
            event,
        ) {
            Some(e) => seq![e],
            None => Seq::empty(),
        },
        drain(context, width, height, seq![event]).width == resized(width, height, event).0,
        drain(context, width, height, seq![event]).height == resized(width, height, event).1,
{
    let pending = seq![event];
    assert(pending.skip(1) == Seq::<XEvent>::empty());
    let size = resized(width, height, event);
    lemma_nothing_pending(context, size.0, size.1);
    reveal_with_fuel(drain, 2);
    assert(seq![event].skip(1) == Seq::<XEvent>::empty());
    match translation(context, width, height, event) {
        Some(e) => {
            assert(seq![e] + Seq::<Event>::empty() == seq![e]);
        },
        None => {},
    }
}

/// What draining gives when the first pending event is not the release half
/// of an auto-repeat: its translation, if any, in front of what the rest
/// gives in a window of the size it leaves.
pub proof fn lemma_drain_step(
    context: Context,
    width: u32,
    height: u32,
    first: XEvent,
    rest: Seq<XEvent>,
)
    requires
        rest.len() > 0 ==> !is_auto_repeat(first, rest[0]),
    ensures
        ({
            let size = resized(width, height, first);
            let tail = drain(context, size.0, size.1, rest);
            let whole = drain(context, width, height, seq![first] + rest);
            &&& whole.width == tail.width
            &&& whole.height == tail.height
            &&& whole.events == match translation(context, width, height, first) {
                Some(e) => seq![e] + tail.events,
                None => tail.events,
            }
        }),
{
    let pending = seq![first] + rest;
    assert(pending.skip(1) == rest);
    assert(pending[0] == first);
    if rest.len() > 0 {
        assert(pending[1] == rest[0]);
    }
}

/// What draining gives when the first pending event is the release half of
/// an auto-repeat: what the events behind the pair give. Neither the release
/// nor the press that repeats it is reported, and the size is untouched.
pub proof fn lemma_drain_repeat(
    context: Context,
    width: u32,
    height: u32,
    release: XEvent,
    press: XEvent,
    rest: Seq<XEvent>,
)
    requires
        is_auto_repeat(release, press),
    ensures
        drain(context, width, height, seq![release, press] + rest) == drain(
            context,
            width,
            height,
            rest,
        ),
{
    let pending = seq![release, press] + rest;
    assert(pending.skip(2) == rest);
    assert(pending[0] == release);
    assert(pending[1] == press);
}

/// A geometry notification whose size differs from the cached one is
/// reported as exactly one resize to the new size. Two notifications of one
/// size in a row are reported at most once between them: once if the size is
/// new to the window, and not at all if it is the cached one.
pub proof fn lemma_resize_is_reported_on_change_only(
    context: Context,
    width: u32,
    height: u32,
    first: XEvent,
    second: XEvent,
)
    requires
        first.kind == xlib::ConfigureNotify,
        second.kind == xlib::ConfigureNotify,
        first.configure.width == second.configure.width,
        first.configure.height == second.configure.height,
    ensures
        ({
            let size = resized(width, height, first);
            let resize = Event::Resize { width: size.0, height: size.1 };
            let once = drain(context, width, height, seq![first]);
            let twice = drain(context, width, height, seq![first, second]);
            &&& (once.width, once.height) == size
            &&& (twice.width, twice.height) == size
            &&& size != (width, height) ==> once.events == seq![resize] && twice.events == seq![
                resize,
            ]
            &&& size == (width, height) ==> once.events.len() == 0 && twice.events.len() == 0
        }),
{
    let size = resized(width, height, first);
    lemma_drain_one(context, width, height, first);
    lemma_drain_one(context, size.0, size.1, second);
    lemma_drain_step(context, width, height, first, seq![second]);
    assert(seq![first] + seq![second] == seq![first, second]);
    if size != (width, height) {
        let resize = Event::Resize { width: size.0, height: size.1 };
        assert(seq![resize] + Seq::<Event>::empty() == seq![resize]);
    }
}

/// A client message of the protocols type is reported as exactly one close
/// request when its first word names the delete-window protocol, and not at
/// all when it names anything else.
pub proof fn lemma_close_takes_the_delete_payload(
    context: Context,
    width: u32,
    height: u32,
    message: XEvent,
)
    requires
        message.kind == xlib::ClientMessage,
        message.client_message.message_type == context.wm_protocols,
    ensures
        message.client_message.data.longs[0] as Atom == context.wm_delete_window ==> drain(
            context,
            width,
            height,
            seq![message],
        ).events == seq![Event::Close],
        message.client_message.data.longs[0] as Atom != context.wm_delete_window ==> drain(
            context,
            width,
            height,
            seq![message],
        ).events.len() == 0,
{
    lemma_drain_one(context, width, height, message);
}

/// A key that is pressed, held long enough for the server to repeat it once,
/// and let go is reported as one press and one release: the release and the
/// press of the repeat come under `REPEAT_THRESHOLD` clock units apart and
/// are dropped, and the last release, with nothing pending behind it, is
/// reported. A key code that no key stands for is reported not at all.
pub proof fn lemma_one_repeat_is_suppressed(
    context: Context,
    width: u32,
    height: u32,
    press: XEvent,
    repeat_release: XEvent,
    repeat_press: XEvent,
    release: XEvent,
)
    requires
        press.kind == xlib::KeyPress,
        repeat_release.kind == xlib::KeyRelease,
        repeat_press.kind == xlib::KeyPress,
        release.kind == xlib::KeyRelease,
        repeat_release.key.keycode == repeat_press.key.keycode,
        repeat_release.key.time <= repeat_press.key.time,
        repeat_press.key.time - repeat_release.key.time < REPEAT_THRESHOLD,
    ensures
        ({
            let drained = drain(
                context,
                width,
                height,
                seq![press, repeat_release, repeat_press, release],
            );
            let pressed: Seq<Event> = match first_key(press.key.keysyms@, 0) {
                Some(key) => seq![Event::KeyPress { key }],
                None => Seq::empty(),
            };
            let released: Seq<Event> = match first_key(release.key.keysyms@, 0) {
                Some(key) => seq![Event::KeyRelease { key }],
                None => Seq::empty(),
            };
            &&& drained.events == pressed + released
            &&& drained.width == width
            &&& drained.height == height
        }),
{
    let behind = seq![repeat_release, repeat_press, release];
    assert(seq![press] + behind == seq![press, repeat_release, repeat_press, release]);
    lemma_drain_step(context, width, height, press, behind);
    assert(seq![repeat_release, repeat_press] + seq![release] == behind);
    lemma_drain_repeat(context, width, height, repeat_release, repeat_press, seq![release]);
    lemma_drain_one(context, width, height, release);
    let released: Seq<Event> = match first_key(release.key.keysyms@, 0) {
        Some(key) => seq![Event::KeyRelease { key }],
        None => Seq::empty(),
    };
    assert(Seq::<Event>::empty() + released == released);
}

/// Draining a run of events in two polls gives what draining it in one
/// gives, in the same order, unless the cut parts a release from the press
/// that repeats it: what is queued does not depend on how the events fall
/// into polls.
pub proof fn lemma_drain_in_two_polls(
    context: Context,
    width: u32,
    height: u32,
    first: Seq<XEvent>,
    second: Seq<XEvent>,
)
    requires
        first.len() > 0 && second.len() > 0 ==> !is_auto_repeat(first.last(), second[0]),
    ensures
        ({
            let head = drain(context, width, height, first);
            let tail = drain(context, head.width, head.height, second);
            let whole = drain(context, width, height, first + second);
            &&& whole.events == head.events + tail.events
            &&& whole.width == tail.width
            &&& whole.height == tail.height
        }),
    decreases first.len(),
{
    let all = first + second;
    if first.len() == 0 {
        assert(all == second);
        let tail = drain(context, width, height, second);
        assert(Seq::<Event>::empty() + tail.events == tail.events);
    } else if first.len() >= 2 && is_auto_repeat(first[0], first[1]) {
        let rest = first.skip(2);
        assert(all.skip(2) == rest + second);
        assert(all[0] == first[0] && all[1] == first[1]);
        if rest.len() > 0 {
            assert(rest.last() == first.last());
        }
        lemma_drain_in_two_polls(context, width, height, rest, second);
    } else {
        let rest = first.skip(1);
        let size = resized(width, height, first[0]);
        assert(all.skip(1) == rest + second);
        assert(all[0] == first[0]);
        if all.len() >= 2 {
            if first.len() >= 2 {
                assert(all[1] == first[1]);
            } else {
                assert(all[1] == second[0]);
                assert(first.last() == first[0]);
            }
        }
        if rest.len() > 0 {
            assert(rest.last() == first.last());
        }
        lemma_drain_in_two_polls(context, size.0, size.1, rest, second);
        let head = drain(context, size.0, size.1, rest);
        let tail = drain(context, head.width, head.height, second);
        match translation(context, width, height, first[0]) {
            Some(event) => {
                assert(seq![event] + (head.events + tail.events) == (seq![event] + head.events)
                    + tail.events);
            },
            None => {},
        }
    }
}

} // verus!
