//! Core logic of a toggleable autoclicker: configuration parsing, hotkey
//! edge detection, the timed click/idle cycle, and the shared on/off flag.
//!
//! Device access and the display-server connection live outside this crate;
//! the functions here work on plain values so that every decision the tool
//! makes is stated in a contract and proved.

pub mod ascii;
pub mod config;
pub mod emitter;
pub mod monitor;
pub mod registry;
pub mod toggle;
