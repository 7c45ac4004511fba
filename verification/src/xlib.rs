//! Plain-value model of the display-server client interface: the numbers of
//! its protocol and the parts of its events that the window backend reads.

use vstd::prelude::*;

verus! {

/// An identifier that the display server hands out.
pub type XID = u64;

/// An identifier for an interned protocol string.
pub type Atom = XID;

/// A symbol engraved on a key.
pub type KeySym = XID;

/// A server timestamp, in the server's clock units.
pub type Time = u64;

// Pointer buttons
#[allow(non_upper_case_globals)]
pub const Button1: u32 = 1;
#[allow(non_upper_case_globals)]
pub const Button2: u32 = 2;
#[allow(non_upper_case_globals)]
pub const Button3: u32 = 3;
#[allow(non_upper_case_globals)]
pub const Button4: u32 = 4;
#[allow(non_upper_case_globals)]
pub const Button5: u32 = 5;

// Event masks
#[allow(non_upper_case_globals)]
pub const KeyPressMask: i64 = 0x0000_0001;
#[allow(non_upper_case_globals)]
pub const KeyReleaseMask: i64 = 0x0000_0002;
#[allow(non_upper_case_globals)]
pub const ButtonPressMask: i64 = 0x0000_0004;
#[allow(non_upper_case_globals)]
pub const ButtonReleaseMask: i64 = 0x0000_0008;
#[allow(non_upper_case_globals)]
pub const PointerMotionMask: i64 = 0x0000_0040;
#[allow(non_upper_case_globals)]
pub const ExposureMask: i64 = 0x0000_8000;
#[allow(non_upper_case_globals)]
pub const StructureNotifyMask: i64 = 0x0002_0000;
#[allow(non_upper_case_globals)]
pub const FocusChangeMask: i64 = 0x0020_0000;

// Event types
#[allow(non_upper_case_globals)]
pub const KeyPress: i32 = 2;
#[allow(non_upper_case_globals)]
pub const KeyRelease: i32 = 3;
#[allow(non_upper_case_globals)]
pub const ButtonPress: i32 = 4;
#[allow(non_upper_case_globals)]
pub const ButtonRelease: i32 = 5;
#[allow(non_upper_case_globals)]
pub const MotionNotify: i32 = 6;
#[allow(non_upper_case_globals)]
pub const FocusIn: i32 = 9;
#[allow(non_upper_case_globals)]
pub const FocusOut: i32 = 10;
#[allow(non_upper_case_globals)]
pub const ConfigureNotify: i32 = 22;
#[allow(non_upper_case_globals)]
pub const ClientMessage: i32 = 33;

// Miscellaneous
pub const FALSE: i32 = 0;
#[allow(non_upper_case_globals)]
pub const PropModeReplace: i32 = 0;

// Key symbols
#[allow(non_upper_case_globals)]
pub const XK_space: KeySym = 0x020;
#[allow(non_upper_case_globals)]
pub const XK_apostrophe: KeySym = 0x027;
#[allow(non_upper_case_globals)]
pub const XK_comma: KeySym = 0x02c;
#[allow(non_upper_case_globals)]
pub const XK_minus: KeySym = 0x02d;
#[allow(non_upper_case_globals)]
pub const XK_period: KeySym = 0x02e;
#[allow(non_upper_case_globals)]
pub const XK_slash: KeySym = 0x02f;
pub const XK_0: KeySym = 0x030;
pub const XK_1: KeySym = 0x031;
pub const XK_2: KeySym = 0x032;
pub const XK_3: KeySym = 0x033;
pub const XK_4: KeySym = 0x034;
pub const XK_5: KeySym = 0x035;
pub const XK_6: KeySym = 0x036;
pub const XK_7: KeySym = 0x037;
pub const XK_8: KeySym = 0x038;
pub const XK_9: KeySym = 0x039;
#[allow(non_upper_case_globals)]
pub const XK_semicolon: KeySym = 0x03b;
#[allow(non_upper_case_globals)]
pub const XK_equal: KeySym = 0x03d;
#[allow(non_upper_case_globals)]
pub const XK_bracketleft: KeySym = 0x05b;
#[allow(non_upper_case_globals)]
pub const XK_backslash: KeySym = 0x05c;
#[allow(non_upper_case_globals)]
pub const XK_bracketright: KeySym = 0x05d;
#[allow(non_upper_case_globals)]
pub const XK_grave: KeySym = 0x060;
pub const XK_A: KeySym = 0x061;
pub const XK_B: KeySym = 0x062;
pub const XK_C: KeySym = 0x063;
pub const XK_D: KeySym = 0x064;
pub const XK_E: KeySym = 0x065;
pub const XK_F: KeySym = 0x066;
pub const XK_G: KeySym = 0x067;
pub const XK_H: KeySym = 0x068;
pub const XK_I: KeySym = 0x069;
pub const XK_J: KeySym = 0x06a;
pub const XK_K: KeySym = 0x06b;
pub const XK_L: KeySym = 0x06c;
pub const XK_M: KeySym = 0x06d;
pub const XK_N: KeySym = 0x06e;
pub const XK_O: KeySym = 0x06f;
pub const XK_P: KeySym = 0x070;
pub const XK_Q: KeySym = 0x071;
pub const XK_R: KeySym = 0x072;
pub const XK_S: KeySym = 0x073;
pub const XK_T: KeySym = 0x074;
pub const XK_U: KeySym = 0x075;
pub const XK_V: KeySym = 0x076;
pub const XK_W: KeySym = 0x077;
pub const XK_X: KeySym = 0x078;
pub const XK_Y: KeySym = 0x079;
pub const XK_Z: KeySym = 0x07a;
#[allow(non_upper_case_globals)]
pub const XK_BackSpace: KeySym = 0xff08;
#[allow(non_upper_case_globals)]
pub const XK_Tab: KeySym = 0xff09;
#[allow(non_upper_case_globals)]
pub const XK_Return: KeySym = 0xff0d;
#[allow(non_upper_case_globals)]
pub const XK_Scroll_Lock: KeySym = 0xff14;
#[allow(non_upper_case_globals)]
pub const XK_Escape: KeySym = 0xff1b;
#[allow(non_upper_case_globals)]
pub const XK_Home: KeySym = 0xff50;
#[allow(non_upper_case_globals)]
pub const XK_Left: KeySym = 0xff51;
#[allow(non_upper_case_globals)]
pub const XK_Up: KeySym = 0xff52;
#[allow(non_upper_case_globals)]
pub const XK_Right: KeySym = 0xff53;
#[allow(non_upper_case_globals)]
pub const XK_Down: KeySym = 0xff54;
#[allow(non_upper_case_globals)]
pub const XK_Prior: KeySym = 0xff55;
#[allow(non_upper_case_globals)]
pub const XK_Next: KeySym = 0xff56;
#[allow(non_upper_case_globals)]
pub const XK_End: KeySym = 0xff57;
#[allow(non_upper_case_globals)]
pub const XK_Print: KeySym = 0xff61;
#[allow(non_upper_case_globals)]
pub const XK_Insert: KeySym = 0xff63;
#[allow(non_upper_case_globals)]
pub const XK_Menu: KeySym = 0xff67;
#[allow(non_upper_case_globals)]
pub const XK_Break: KeySym = 0xff6b;
#[allow(non_upper_case_globals)]
pub const XK_Num_Lock: KeySym = 0xff7f;
#[allow(non_upper_case_globals)]
pub const XK_KP_Enter: KeySym = 0xff8d;
#[allow(non_upper_case_globals)]
pub const XK_KP_Multiply: KeySym = 0xffaa;
#[allow(non_upper_case_globals)]
pub const XK_KP_Add: KeySym = 0xffab;
#[allow(non_upper_case_globals)]
pub const XK_KP_Subtract: KeySym = 0xffad;
#[allow(non_upper_case_globals)]
pub const XK_KP_Decimal: KeySym = 0xffae;
#[allow(non_upper_case_globals)]
pub const XK_KP_Divide: KeySym = 0xffaf;
pub const XK_KP_0: KeySym = 0xffb0;
pub const XK_KP_1: KeySym = 0xffb1;
pub const XK_KP_2: KeySym = 0xffb2;
pub const XK_KP_3: KeySym = 0xffb3;
pub const XK_KP_4: KeySym = 0xffb4;
pub const XK_KP_5: KeySym = 0xffb5;
pub const XK_KP_6: KeySym = 0xffb6;
pub const XK_KP_7: KeySym = 0xffb7;
pub const XK_KP_8: KeySym = 0xffb8;
pub const XK_KP_9: KeySym = 0xffb9;
pub const XK_F1: KeySym = 0xffbe;
pub const XK_F2: KeySym = 0xffbf;
pub const XK_F3: KeySym = 0xffc0;
pub const XK_F4: KeySym = 0xffc1;
pub const XK_F5: KeySym = 0xffc2;
pub const XK_F6: KeySym = 0xffc3;
pub const XK_F7: KeySym = 0xffc4;
pub const XK_F8: KeySym = 0xffc5;
pub const XK_F9: KeySym = 0xffc6;
pub const XK_F10: KeySym = 0xffc7;
pub const XK_F11: KeySym = 0xffc8;
pub const XK_F12: KeySym = 0xffc9;
#[allow(non_upper_case_globals)]
pub const XK_Shift_L: KeySym = 0xffe1;
#[allow(non_upper_case_globals)]
pub const XK_Shift_R: KeySym = 0xffe2;
#[allow(non_upper_case_globals)]
pub const XK_Control_L: KeySym = 0xffe3;
#[allow(non_upper_case_globals)]
pub const XK_Control_R: KeySym = 0xffe4;
#[allow(non_upper_case_globals)]
pub const XK_Caps_Lock: KeySym = 0xffe5;
#[allow(non_upper_case_globals)]
pub const XK_Alt_L: KeySym = 0xffe9;
#[allow(non_upper_case_globals)]
pub const XK_Alt_R: KeySym = 0xffea;
#[allow(non_upper_case_globals)]
pub const XK_Super_L: KeySym = 0xffeb;
#[allow(non_upper_case_globals)]
pub const XK_Super_R: KeySym = 0xffec;
#[allow(non_upper_case_globals)]
pub const XK_Delete: KeySym = 0xffff;

/// The number of interpretation levels at which a key event is looked up.
pub const KEYSYM_LEVELS: usize = 4;

/// The payload of a client message, as five signed words.
#[derive(Clone, Copy, Debug, PartialEq, Eq)]
pub struct XClientMessageData {
    pub longs: [i64; 5],
}

/// A message sent by another client, such as the window manager.
#[derive(Clone, Copy, Debug, PartialEq, Eq)]
pub struct XClientMessageEvent {
    pub message_type: Atom,
    pub format: i32,
    pub data: XClientMessageData,
}

/// A notification that the window's geometry was set.
#[derive(Clone, Copy, Debug, PartialEq, Eq)]
pub struct XConfigureEvent {
    pub x: i32,
    pub y: i32,
    pub width: i32,
    pub height: i32,
}

/// A pointer event: a button going down or up, or the pointer moving.
#[derive(Clone, Copy, Debug, PartialEq, Eq)]
pub struct XButtonEvent {
    pub time: Time,
    pub x: i32,
    pub y: i32,
    pub button: u32,
}

/// A key going down or up. `keysyms[i]` is the symbol that the server's
/// keyboard mapping gives the key at interpretation level `i`.
#[derive(Clone, Copy, Debug, PartialEq, Eq)]
pub struct XKeyEvent {
    pub time: Time,
    pub keycode: u32,
    pub keysyms: [KeySym; 4],
}

/// One event as read from the display connection. `kind` is the event type;
/// of the other fields only the one that belongs to `kind` carries meaning.
#[derive(Clone, Copy, Debug, PartialEq, Eq)]
pub struct XEvent {
    pub kind: i32,
    pub button: XButtonEvent,
    pub client_message: XClientMessageEvent,
    pub configure: XConfigureEvent,
    pub key: XKeyEvent,
}

} // verus!
