//! Plain-value model of the message-queue windowing interface: the numbers
//! of its messages and keys, the parts of its structures that the window
//! backend reads and fills, and the helpers that take a message's words apart.

use vstd::prelude::*;

verus! {

pub type ATOM = WORD;

pub type BOOL = i32;

pub type DWORD = u32;

/// A handle, by its address; 0 is the null handle.
pub type HANDLE = usize;

pub type HBRUSH = HANDLE;

pub type HCURSOR = HANDLE;

pub type HICON = HANDLE;

pub type HINSTANCE = HANDLE;

pub type HMENU = HANDLE;

pub type HMODULE = HANDLE;

pub type HWND = HANDLE;

pub type LONG = i32;

pub type LPARAM = isize;

pub type LRESULT = isize;

pub type UINT = u32;

pub type WCHAR = u16;

pub type WORD = u16;

pub type WPARAM = usize;

/// A message as the queue hands it out.
#[allow(non_snake_case)]
#[derive(Clone, Copy, Debug, PartialEq, Eq)]
pub struct MSG {
    pub hwnd: HWND,
    pub message: UINT,
    pub wParam: WPARAM,
    pub lParam: LPARAM,
    pub time: DWORD,
    pub pt: POINT,
}

/// A point of the screen.
#[derive(Clone, Copy, Debug, PartialEq, Eq)]
pub struct POINT {
    pub x: LONG,
    pub y: LONG,
}

/// A rectangle, by its left and top edges and the edges just past its right
/// and bottom.
#[derive(Clone, Copy, Debug, PartialEq, Eq)]
pub struct RECT {
    pub left: LONG,
    pub top: LONG,
    pub right: LONG,
    pub bottom: LONG,
}

/// The attributes of a window class. The class and menu names are held as
/// wide strings with their terminator (an empty one stands for no name); the
/// procedure that receives the class's messages is attached where the class
/// is registered.
#[allow(non_snake_case)]
#[derive(Clone, Debug, PartialEq, Eq)]
pub struct WNDCLASSW {
    pub style: UINT,
    pub cbClsExtra: i32,
    pub cbWndExtra: i32,
    pub hInstance: HINSTANCE,
    pub hIcon: HICON,
    pub hCursor: HCURSOR,
    pub hbrBackground: HBRUSH,
    pub lpszMenuName: Vec<WCHAR>,
    pub lpszClassName: Vec<WCHAR>,
}

pub const FALSE: BOOL = 0;

pub const CS_VREDRAW: UINT = 0x0001;
pub const CS_HREDRAW: UINT = 0x0002;

pub const CW_USEDEFAULT: i32 = -0x8000_0000;

pub const KF_EXTENDED: WORD = 0x0100;
pub const KF_REPEAT: WORD = 0x4000;

pub const MAPVK_VK_TO_VSC: UINT = 0;
pub const PM_REMOVE: UINT = 0x0001;

pub const VK_BACK: i32 = 0x08;
pub const VK_TAB: i32 = 0x09;
pub const VK_RETURN: i32 = 0x0d;
pub const VK_SHIFT: i32 = 0x10;
pub const VK_CONTROL: i32 = 0x11;
pub const VK_MENU: i32 = 0x12;
pub const VK_PAUSE: i32 = 0x13;
pub const VK_CAPITAL: i32 = 0x14;
pub const VK_ESCAPE: i32 = 0x1b;
pub const VK_SPACE: i32 = 0x20;
pub const VK_PRIOR: i32 = 0x21;
pub const VK_NEXT: i32 = 0x22;
pub const VK_END: i32 = 0x23;
pub const VK_HOME: i32 = 0x24;
pub const VK_LEFT: i32 = 0x25;
pub const VK_UP: i32 = 0x26;
pub const VK_RIGHT: i32 = 0x27;
pub const VK_DOWN: i32 = 0x28;
pub const VK_PRINT: i32 = 0x2a;
pub const VK_INSERT: i32 = 0x2d;
pub const VK_DELETE: i32 = 0x2e;
pub const VK_LWIN: i32 = 0x5b;
pub const VK_RWIN: i32 = 0x5c;
pub const VK_APPS: i32 = 0x5d;
pub const VK_NUMPAD0: i32 = 0x60;
pub const VK_NUMPAD1: i32 = 0x61;
pub const VK_NUMPAD2: i32 = 0x62;
pub const VK_NUMPAD3: i32 = 0x63;
pub const VK_NUMPAD4: i32 = 0x64;
pub const VK_NUMPAD5: i32 = 0x65;
pub const VK_NUMPAD6: i32 = 0x66;
pub const VK_NUMPAD7: i32 = 0x67;
pub const VK_NUMPAD8: i32 = 0x68;
pub const VK_NUMPAD9: i32 = 0x69;
pub const VK_MULTIPLY: i32 = 0x6a;
pub const VK_ADD: i32 = 0x6b;
pub const VK_SUBTRACT: i32 = 0x6d;
pub const VK_DECIMAL: i32 = 0x6e;
pub const VK_DIVIDE: i32 = 0x6f;
pub const VK_F1: i32 = 0x70;
pub const VK_F2: i32 = 0x71;
pub const VK_F3: i32 = 0x72;
pub const VK_F4: i32 = 0x73;
pub const VK_F5: i32 = 0x74;
pub const VK_F6: i32 = 0x75;
pub const VK_F7: i32 = 0x76;
pub const VK_F8: i32 = 0x77;
pub const VK_F9: i32 = 0x78;
pub const VK_F10: i32 = 0x79;
pub const VK_F11: i32 = 0x7a;
pub const VK_F12: i32 = 0x7b;
pub const VK_NUMLOCK: i32 = 0x90;
pub const VK_SCROLL: i32 = 0x91;
pub const VK_LSHIFT: i32 = 0xa0;
pub const VK_OEM_1: i32 = 0xba;
pub const VK_OEM_PLUS: i32 = 0xbb;
pub const VK_OEM_COMMA: i32 = 0xbc;
pub const VK_OEM_MINUS: i32 = 0xbd;
pub const VK_OEM_PERIOD: i32 = 0xbe;
pub const VK_OEM_2: i32 = 0xbf;
pub const VK_OEM_3: i32 = 0xc0;
pub const VK_OEM_4: i32 = 0xdb;
pub const VK_OEM_5: i32 = 0xdc;
pub const VK_OEM_6: i32 = 0xdd;
pub const VK_OEM_7: i32 = 0xde;

pub const WM_SIZE: UINT = 0x0005;
pub const WM_SETFOCUS: UINT = 0x0007;
pub const WM_KILLFOCUS: UINT = 0x0008;
pub const WM_CLOSE: UINT = 0x0010;
pub const WM_KEYDOWN: UINT = 0x0100;
pub const WM_KEYUP: UINT = 0x0101;
pub const WM_SYSKEYDOWN: UINT = 0x0104;
pub const WM_SYSKEYUP: UINT = 0x0105;
pub const WM_MOUSEMOVE: UINT = 0x0200;
pub const WM_LBUTTONDOWN: UINT = 0x0201;
pub const WM_LBUTTONUP: UINT = 0x0202;
pub const WM_RBUTTONDOWN: UINT = 0x0204;
pub const WM_RBUTTONUP: UINT = 0x0205;
pub const WM_MBUTTONDOWN: UINT = 0x0207;
pub const WM_MBUTTONUP: UINT = 0x0208;
pub const WM_MOUSEWHEEL: UINT = 0x020a;
pub const WM_XBUTTONDOWN: UINT = 0x020b;
pub const WM_XBUTTONUP: UINT = 0x020c;

pub const WS_OVERLAPPED: DWORD = 0x0000_0000;
pub const WS_MAXIMIZEBOX: DWORD = 0x0001_0000;
pub const WS_MINIMIZEBOX: DWORD = 0x0002_0000;
pub const WS_THICKFRAME: DWORD = 0x0004_0000;
pub const WS_SYSMENU: DWORD = 0x0008_0000;
pub const WS_CAPTION: DWORD = 0x00c0_0000;
pub const WS_VISIBLE: DWORD = 0x1000_0000;
pub const WS_OVERLAPPEDWINDOW: DWORD = 0x00cf_0000;

pub const XBUTTON1: WORD = 0x0001;

/// The word that bits 16 to 31 of `value` make up.
pub open spec fn high_word(value: int) -> int {
    (value / 0x1_0000) % 0x1_0000
}

/// The word that bits 0 to 15 of `value` make up.
pub open spec fn low_word(value: int) -> int {
    value % 0x1_0000
}

/// The number that `word` stands for when it is read as a signed word.
pub open spec fn signed_word(word: WORD) -> int {
    if word < 0x8000 {
        word as int
    } else {
        word - 0x1_0000
    }
}

/// The turn of the wheel that a wheel message's first parameter carries in
/// its high word: positive away from the user, negative towards.
#[allow(non_snake_case)]
pub fn GET_WHEEL_DELTA_WPARAM(wParam: WPARAM) -> (delta: i16)
    ensures
        delta == signed_word(high_word(wParam as int) as WORD),
{
    let word: WORD = GET_XBUTTON_WPARAM(wParam);
    assert(#[verifier::truncate] (word as i16) == signed_word(word)) by (bit_vector);
    #[verifier::truncate] (word as i16)
}

/// The extra button that an extra-button message's first parameter names in
/// its high word.
#[allow(non_snake_case)]
pub fn GET_XBUTTON_WPARAM(wParam: WPARAM) -> (word: WORD)
    ensures
        word == high_word(wParam as int),
{
    let low: DWORD = #[verifier::truncate] (wParam as DWORD);
    assert(low / 0x1_0000 == (wParam as u64 / 0x1_0000) % 0x1_0000) by (bit_vector)
        requires
            low == #[verifier::truncate] (wParam as u32),
    ;
    HIWORD(low)
}

/// The low-order word of `dwValue`.
#[allow(non_snake_case)]
pub fn LOWORD(dwValue: DWORD) -> (word: WORD)
    ensures
        word == low_word(dwValue as int),
{
    assert(dwValue & 0xffff == dwValue % 0x1_0000) by (bit_vector);
    (dwValue & 0xffff) as WORD
}

/// The high-order word of `dwValue`.
#[allow(non_snake_case)]
pub fn HIWORD(dwValue: DWORD) -> (word: WORD)
    ensures
        word == high_word(dwValue as int),
        word == dwValue / 0x1_0000,
{
    assert((dwValue >> 16) & 0xffff == dwValue / 0x1_0000) by (bit_vector);
    ((dwValue >> 16) & 0xffff) as WORD
}

} // verus!
