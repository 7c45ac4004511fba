//! Windowing core: a loader for native symbols and the translation of native
//! window-system events into one canonical event model.

pub mod event;
pub mod library;
pub mod win32;
pub mod window;
pub mod xlib;
