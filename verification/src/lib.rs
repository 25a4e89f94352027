//! Core of a serial-terminal application: the screen state machine (menu,
//! device list, help, terminal), the validated port configuration, and the
//! byte-buffer protocol between the UI side and the serial bridge.
//!
//! Rendering, keyboard capture and the serial driver itself live outside this
//! crate; everything here is plain data and verified transitions on it.

pub mod common;
pub mod device_list;
pub mod help;
pub mod menu;
pub mod scene;
pub mod serial;
pub mod terminal;
pub mod text;
