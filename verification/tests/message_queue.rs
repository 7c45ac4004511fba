use blazar::event::Button;
use blazar::event::Event;
use blazar::event::Key;
use blazar::win32;
use blazar::win32::GET_WHEEL_DELTA_WPARAM;
use blazar::win32::GET_XBUTTON_WPARAM;
use blazar::win32::HIWORD;
use blazar::win32::LOWORD;
use blazar::win32::MSG;
use blazar::win32::POINT;
use blazar::win32::RECT;
use blazar::window::windows::is_extended_key_flag;
use blazar::window::windows::translate_event;
use blazar::window::windows::translate_key;
use blazar::window::windows::wide_string;
use blazar::window::windows::window_class;
use blazar::window::windows::Window;
use blazar::window::windows::CLASS_STYLE;
use blazar::window::windows::WINDOW_STYLE;

const LEFT_SHIFT: u32 = 0x2a;
const EXTENDED: isize = 1 << 24;
const REPEAT: isize = 1 << 30;

fn message(message: u32, w_param: usize, l_param: isize) -> MSG {
    MSG { hwnd: 0x50, message, wParam: w_param, lParam: l_param, time: 0, pt: POINT { x: 0, y: 0 } }
}

fn size(width: u16, height: u16) -> MSG {
    message(win32::WM_SIZE, 0, ((height as isize) << 16) | width as isize)
}

fn drain(window: &mut Window, pending: &[MSG]) -> Vec<Event> {
    let mut events = Vec::new();
    let mut next = window.poll_event(&pending.to_vec(), LEFT_SHIFT);
    while let Some(event) = next {
        events.push(event);
        next = window.poll_event(&Vec::new(), LEFT_SHIFT);
    }
    events
}

#[test]
fn words_of_a_double_word() {
    assert_eq!(LOWORD(0x1234_5678), 0x5678);
    assert_eq!(HIWORD(0x1234_5678), 0x1234);
    assert_eq!(LOWORD(0), 0);
    assert_eq!(HIWORD(0), 0);
    assert_eq!(LOWORD(0xffff_ffff), 0xffff);
    assert_eq!(HIWORD(0xffff_ffff), 0xffff);
    assert_eq!(LOWORD(0x0001_0000), 0);
    assert_eq!(HIWORD(0x0001_0000), 1);
}

#[test]
fn extra_button_of_a_parameter() {
    assert_eq!(GET_XBUTTON_WPARAM(0x0001_0020), 1);
    assert_eq!(GET_XBUTTON_WPARAM(0x0002_0040), 2);
    assert_eq!(GET_XBUTTON_WPARAM(0xffff), 0);
}

#[test]
fn wheel_turn_of_a_parameter_is_signed() {
    assert_eq!(GET_WHEEL_DELTA_WPARAM(0x0078_0000), 120);
    assert_eq!(GET_WHEEL_DELTA_WPARAM(0xff88_0000), -120);
    assert_eq!(GET_WHEEL_DELTA_WPARAM(0x7fff_0000), 32767);
    assert_eq!(GET_WHEEL_DELTA_WPARAM(0x8000_0008), -32768);
    assert_eq!(GET_WHEEL_DELTA_WPARAM(0x0000_ffff), 0);
}

#[test]
fn new_message_window_has_its_size_and_no_event() {
    let mut window = Window::create(800, 600);
    assert_eq!(window.poll_event(&Vec::new(), LEFT_SHIFT), None);
    assert_eq!(window.width(), 800);
    assert_eq!(window.height(), 600);
}

#[test]
fn size_message_with_a_new_size_is_reported_once() {
    let mut window = Window::create(800, 600);
    assert_eq!(
        drain(&mut window, &[size(1024, 768), size(1024, 768)]),
        vec![Event::Resize { width: 1024, height: 768 }]
    );
    assert_eq!(window.width(), 1024);
    assert_eq!(window.height(), 768);
}

#[test]
fn size_message_with_the_cached_size_is_not_reported() {
    let mut window = Window::create(800, 600);
    assert_eq!(drain(&mut window, &[size(800, 600)]), vec![]);
    assert!(window.handle_message(&size(800, 600), LEFT_SHIFT));
    assert_eq!(window.poll_event(&Vec::new(), LEFT_SHIFT), None);
}

#[test]
fn translation_of_a_size_message_does_not_look_at_the_window() {
    assert_eq!(
        translate_event(win32::WM_SIZE, 0, (600 << 16) | 800, LEFT_SHIFT),
        Some(Event::Resize { width: 800, height: 600 })
    );
}

#[test]
fn window_messages_are_translated() {
    assert_eq!(translate_event(win32::WM_CLOSE, 0, 0, LEFT_SHIFT), Some(Event::Close));
    assert_eq!(translate_event(win32::WM_SETFOCUS, 0, 0, LEFT_SHIFT), Some(Event::GainFocus));
    assert_eq!(translate_event(win32::WM_KILLFOCUS, 0, 0, LEFT_SHIFT), Some(Event::LoseFocus));
}

#[test]
fn unknown_messages_are_not_handled() {
    let mut window = Window::create(800, 600);
    assert_eq!(translate_event(0x000f, 0, 0, LEFT_SHIFT), None);
    assert_eq!(translate_event(0, 0x41, 0, LEFT_SHIFT), None);
    assert!(!window.handle_message(&message(0x000f, 0, 0), LEFT_SHIFT));
    assert!(window.handle_message(&message(win32::WM_CLOSE, 0, 0), LEFT_SHIFT));
    assert_eq!(window.poll_event(&Vec::new(), LEFT_SHIFT), Some(Event::Close));
    assert_eq!(window.poll_event(&Vec::new(), LEFT_SHIFT), None);
}

#[test]
fn key_messages_are_translated() {
    assert_eq!(
        translate_event(win32::WM_KEYDOWN, 0x41, 0x001e_0001, LEFT_SHIFT),
        Some(Event::KeyPress { key: Key::A })
    );
    assert_eq!(
        translate_event(win32::WM_SYSKEYDOWN, 0x79, 0, LEFT_SHIFT),
        Some(Event::KeyPress { key: Key::F10 })
    );
    assert_eq!(
        translate_event(win32::WM_KEYUP, 0x41, 0x001e_0001 | REPEAT | (1 << 31), LEFT_SHIFT),
        Some(Event::KeyRelease { key: Key::A })
    );
    assert_eq!(
        translate_event(win32::WM_SYSKEYUP, 0x12, EXTENDED, LEFT_SHIFT),
        Some(Event::KeyRelease { key: Key::RightAlt })
    );
}

#[test]
fn repeated_key_down_is_dropped() {
    assert_eq!(translate_event(win32::WM_KEYDOWN, 0x41, 0x001e_0001 | REPEAT, LEFT_SHIFT), None);
    assert_eq!(translate_event(win32::WM_SYSKEYDOWN, 0x79, REPEAT, LEFT_SHIFT), None);
}

#[test]
fn unknown_key_is_dropped() {
    assert_eq!(translate_event(win32::WM_KEYDOWN, 0x07, 0, LEFT_SHIFT), None);
    assert_eq!(translate_event(win32::WM_KEYUP, 0xff, 0, LEFT_SHIFT), None);
    assert_eq!(translate_key(0x07, 0, LEFT_SHIFT), None);
    assert_eq!(translate_key(0xa0, 0, LEFT_SHIFT), None);
}

#[test]
fn shift_side_goes_by_the_scan_code() {
    let left = (LEFT_SHIFT as isize) << 16;
    let right = 0x36 << 16;
    assert_eq!(translate_key(0x10, left, LEFT_SHIFT), Some(Key::LeftShift));
    assert_eq!(translate_key(0x10, right, LEFT_SHIFT), Some(Key::RightShift));
    assert_eq!(translate_key(0x10, left | EXTENDED, LEFT_SHIFT), Some(Key::LeftShift));
    assert_eq!(translate_key(0x10, right | EXTENDED, LEFT_SHIFT), Some(Key::RightShift));
    assert_eq!(translate_key(0x10, left | 1 | REPEAT, LEFT_SHIFT), Some(Key::LeftShift));
    assert_eq!(translate_key(0x10, left, 0x36), Some(Key::RightShift));
}

#[test]
fn control_alt_and_enter_go_by_the_extended_flag() {
    assert_eq!(translate_key(0x11, 0, LEFT_SHIFT), Some(Key::LeftControl));
    assert_eq!(translate_key(0x11, EXTENDED, LEFT_SHIFT), Some(Key::RightControl));
    assert_eq!(translate_key(0x12, 0, LEFT_SHIFT), Some(Key::LeftAlt));
    assert_eq!(translate_key(0x12, EXTENDED, LEFT_SHIFT), Some(Key::RightAlt));
    assert_eq!(translate_key(0x0d, 0, LEFT_SHIFT), Some(Key::Enter));
    assert_eq!(translate_key(0x0d, EXTENDED, LEFT_SHIFT), Some(Key::NumpadEnter));
    assert_eq!(translate_key(0x11, 0x00ff_ffff, LEFT_SHIFT), Some(Key::LeftControl));
    assert_eq!(translate_key(0x11, -1, LEFT_SHIFT), Some(Key::RightControl));
}

#[test]
fn extended_flag_is_bit_24() {
    assert!(is_extended_key_flag(EXTENDED));
    assert!(is_extended_key_flag(0x011d_0001));
    assert!(is_extended_key_flag(-1));
    assert!(!is_extended_key_flag(0));
    assert!(!is_extended_key_flag(0x001d_0001));
    assert!(!is_extended_key_flag(1 << 23));
    assert!(!is_extended_key_flag(1 << 25));
}

#[test]
fn plain_keys_go_by_the_code_alone() {
    assert_eq!(translate_key(0x41, EXTENDED, LEFT_SHIFT), Some(Key::A));
    assert_eq!(translate_key(0x5a, 0, LEFT_SHIFT), Some(Key::Z));
    assert_eq!(translate_key(0x30, 0, LEFT_SHIFT), Some(Key::Digit0));
    assert_eq!(translate_key(0x1b, 0, LEFT_SHIFT), Some(Key::Escape));
    assert_eq!(translate_key(0x2e, EXTENDED, LEFT_SHIFT), Some(Key::Delete));
    assert_eq!(translate_key(0x60, 0, LEFT_SHIFT), Some(Key::Numpad0));
    assert_eq!(translate_key(0x7b, 0, LEFT_SHIFT), Some(Key::F12));
    assert_eq!(translate_key(0xc0, 0, LEFT_SHIFT), Some(Key::Backquote));
    assert_eq!(translate_key(0x5b, 0, LEFT_SHIFT), Some(Key::LeftSuper));
    assert_eq!(translate_key(0x2a, 0, LEFT_SHIFT), Some(Key::PrintScreen));
}

#[test]
fn wheel_is_reported_by_its_direction() {
    assert_eq!(
        translate_event(win32::WM_MOUSEWHEEL, 0x0078_0000, 0, LEFT_SHIFT),
        Some(Event::MouseScrollUp)
    );
    assert_eq!(
        translate_event(win32::WM_MOUSEWHEEL, 0x0001_0000, 0, LEFT_SHIFT),
        Some(Event::MouseScrollUp)
    );
    assert_eq!(
        translate_event(win32::WM_MOUSEWHEEL, 0xff88_0000, 0, LEFT_SHIFT),
        Some(Event::MouseScrollDown)
    );
    assert_eq!(
        translate_event(win32::WM_MOUSEWHEEL, 0x0000_0008, 0, LEFT_SHIFT),
        Some(Event::MouseScrollDown)
    );
}

#[test]
fn mouse_messages_carry_the_pointer() {
    let at = (20 << 16) | 10;
    assert_eq!(
        translate_event(win32::WM_MOUSEMOVE, 0, at, LEFT_SHIFT),
        Some(Event::MouseMove { x: 10, y: 20 })
    );
    assert_eq!(
        translate_event(win32::WM_LBUTTONDOWN, 0, at, LEFT_SHIFT),
        Some(Event::MouseButtonPress { button: Button::Left, x: 10, y: 20 })
    );
    assert_eq!(
        translate_event(win32::WM_LBUTTONUP, 0, at, LEFT_SHIFT),
        Some(Event::MouseButtonRelease { button: Button::Left, x: 10, y: 20 })
    );
    assert_eq!(
        translate_event(win32::WM_MBUTTONDOWN, 0, at, LEFT_SHIFT),
        Some(Event::MouseButtonPress { button: Button::Middle, x: 10, y: 20 })
    );
    assert_eq!(
        translate_event(win32::WM_MBUTTONUP, 0, at, LEFT_SHIFT),
        Some(Event::MouseButtonRelease { button: Button::Middle, x: 10, y: 20 })
    );
    assert_eq!(
        translate_event(win32::WM_RBUTTONDOWN, 0, at, LEFT_SHIFT),
        Some(Event::MouseButtonPress { button: Button::Right, x: 10, y: 20 })
    );
    assert_eq!(
        translate_event(win32::WM_RBUTTONUP, 0, at, LEFT_SHIFT),
        Some(Event::MouseButtonRelease { button: Button::Right, x: 10, y: 20 })
    );
    assert_eq!(
        translate_event(win32::WM_MOUSEMOVE, 0, -1, LEFT_SHIFT),
        Some(Event::MouseMove { x: 0xffff, y: 0xffff })
    );
}

#[test]
fn extra_buttons_go_back_and_forward() {
    let at = (20 << 16) | 10;
    assert_eq!(
        translate_event(win32::WM_XBUTTONDOWN, 0x0001_0000, at, LEFT_SHIFT),
        Some(Event::MouseButtonPress { button: Button::Back, x: 10, y: 20 })
    );
    assert_eq!(
        translate_event(win32::WM_XBUTTONDOWN, 0x0002_0000, at, LEFT_SHIFT),
        Some(Event::MouseButtonPress { button: Button::Forward, x: 10, y: 20 })
    );
    assert_eq!(
        translate_event(win32::WM_XBUTTONUP, 0x0001_0020, at, LEFT_SHIFT),
        Some(Event::MouseButtonRelease { button: Button::Back, x: 10, y: 20 })
    );
    assert_eq!(
        translate_event(win32::WM_XBUTTONUP, 0, at, LEFT_SHIFT),
        Some(Event::MouseButtonRelease { button: Button::Forward, x: 10, y: 20 })
    );
}

#[test]
fn messages_come_out_in_arrival_order_across_polls() {
    let mut window = Window::create(800, 600);
    let first = vec![
        message(win32::WM_SETFOCUS, 0, 0),
        message(0x000f, 0, 0),
        message(win32::WM_KEYDOWN, 0x1b, 0x0001_0001),
    ];
    let second = vec![size(640, 480), message(win32::WM_CLOSE, 0, 0)];
    assert_eq!(window.poll_event(&first, LEFT_SHIFT), Some(Event::GainFocus));
    assert_eq!(
        window.poll_event(&second, LEFT_SHIFT),
        Some(Event::KeyPress { key: Key::Escape })
    );
    assert_eq!(
        window.poll_event(&Vec::new(), LEFT_SHIFT),
        Some(Event::Resize { width: 640, height: 480 })
    );
    assert_eq!(window.poll_event(&Vec::new(), LEFT_SHIFT), Some(Event::Close));
    assert_eq!(window.poll_event(&Vec::new(), LEFT_SHIFT), None);
}

#[test]
fn message_queue_update_hands_nothing_out() {
    let mut window = Window::create(800, 600);
    window.update_event_queue(&vec![message(win32::WM_SETFOCUS, 0, 0)], LEFT_SHIFT);
    window.update_event_queue(&vec![message(win32::WM_KILLFOCUS, 0, 0)], LEFT_SHIFT);
    assert_eq!(drain(&mut window, &[]), vec![Event::GainFocus, Event::LoseFocus]);
}

#[test]
fn wide_string_ends_with_a_zero() {
    assert_eq!(wide_string(""), vec![0]);
    assert_eq!(wide_string("ab"), vec![0x61, 0x62, 0]);
    assert_eq!(wide_string("é€"), vec![0xe9, 0x20ac, 0]);
}

#[test]
fn wide_string_pairs_what_does_not_fit_one_unit() {
    assert_eq!(wide_string("\u{10000}"), vec![0xd800, 0xdc00, 0]);
    assert_eq!(wide_string("a\u{1f600}b"), vec![0x61, 0xd83d, 0xde00, 0x62, 0]);
    assert_eq!(wide_string("\u{10ffff}"), vec![0xdbff, 0xdfff, 0]);
    assert_eq!(wide_string("\u{ffff}"), vec![0xffff, 0]);
}

#[test]
fn wide_string_agrees_with_the_standard_encoding() {
    let text = "Simple window \u{2014} \u{1f5d4} caf\u{e9}";
    let mut expected: Vec<u16> = text.encode_utf16().collect();
    expected.push(0);
    assert_eq!(wide_string(text), expected);
}

#[test]
fn window_class_is_named_and_redrawn() {
    let class = window_class(0x40_0000, "blazar");
    assert_eq!(class.style, 0x0003);
    assert_eq!(class.style, win32::CS_HREDRAW | win32::CS_VREDRAW);
    assert_eq!(CLASS_STYLE, class.style);
    assert_eq!(class.hInstance, 0x40_0000);
    assert_eq!(class.lpszClassName, vec![0x62, 0x6c, 0x61, 0x7a, 0x61, 0x72, 0]);
    assert_eq!(class.lpszMenuName, Vec::<u16>::new());
    assert_eq!(class.cbClsExtra, 0);
    assert_eq!(class.cbWndExtra, 0);
    assert_eq!(class.hIcon, 0);
    assert_eq!(class.hCursor, 0);
    assert_eq!(class.hbrBackground, 0);
}

#[test]
fn window_style_is_overlapped_and_visible() {
    assert_eq!(WINDOW_STYLE, win32::WS_OVERLAPPEDWINDOW | win32::WS_VISIBLE);
    assert_eq!(
        win32::WS_OVERLAPPEDWINDOW,
        win32::WS_OVERLAPPED
            | win32::WS_CAPTION
            | win32::WS_SYSMENU
            | win32::WS_THICKFRAME
            | win32::WS_MINIMIZEBOX
            | win32::WS_MAXIMIZEBOX
    );
    assert_eq!(win32::CW_USEDEFAULT, i32::MIN);
}

#[test]
fn client_rectangle_sits_at_the_origin() {
    assert_eq!(
        Window::client_rectangle(800, 600),
        Some(RECT { left: 0, top: 0, right: 800, bottom: 600 })
    );
    assert_eq!(
        Window::client_rectangle(0, 0),
        Some(RECT { left: 0, top: 0, right: 0, bottom: 0 })
    );
    assert_eq!(
        Window::client_rectangle(0x7fff_ffff, 1),
        Some(RECT { left: 0, top: 0, right: i32::MAX, bottom: 1 })
    );
    assert_eq!(Window::client_rectangle(0x8000_0000, 600), None);
    assert_eq!(Window::client_rectangle(800, u32::MAX), None);
}

#[test]
fn frame_size_spans_the_grown_rectangle() {
    let grown = RECT { left: -8, top: -31, right: 808, bottom: 608 };
    assert_eq!(Window::frame_size(&grown), Some((816, 639)));
    let same = RECT { left: 0, top: 0, right: 800, bottom: 600 };
    assert_eq!(Window::frame_size(&same), Some((800, 600)));
    let empty = RECT { left: 5, top: 5, right: 5, bottom: 5 };
    assert_eq!(Window::frame_size(&empty), Some((0, 0)));
}

#[test]
fn frame_size_of_an_impossible_rectangle_is_none() {
    let inverted = RECT { left: 10, top: 0, right: 5, bottom: 10 };
    assert_eq!(Window::frame_size(&inverted), None);
    let upside_down = RECT { left: 0, top: 10, right: 5, bottom: 0 };
    assert_eq!(Window::frame_size(&upside_down), None);
    let too_wide = RECT { left: i32::MIN, top: 0, right: i32::MAX, bottom: 10 };
    assert_eq!(Window::frame_size(&too_wide), None);
    let widest = RECT { left: -1, top: 0, right: i32::MAX - 1, bottom: 10 };
    assert_eq!(Window::frame_size(&widest), Some((i32::MAX, 10)));
}
