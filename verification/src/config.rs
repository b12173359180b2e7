//! Configuration of the clicker: the toggle key, the mouse button and the
//! click interval, together with the parsers that turn the command-line
//! strings into those values.
//!
//! Keys are modelled by their Linux input-event code (`KEY_F6` is 64,
//! `BTN_LEFT` is 0x110), buttons by a three-variant enum whose wire code is
//! the same `BTN_*` code that both the input and the pointer protocol use.

use vstd::prelude::*;
use vstd::string::StringSliceAdditionalSpecFns;
use crate::ascii::{eq_ignore_ascii_case, ieq};

verus! {

/// A key on the input device, identified by its Linux input-event code.
#[derive(PartialEq, Eq, Structural, Clone, Copy, Debug)]
pub struct KeyCode {
    pub code: u16,
}

/// The mouse button that a click cycle presses and releases.
#[derive(PartialEq, Eq, Structural, Clone, Copy, Debug)]
pub enum MouseButton {
    Left,
    Right,
    Middle,
}

/// A configuration string that could not be understood at startup.
#[derive(PartialEq, Eq, Structural, Clone, Copy, Debug)]
pub enum ConfigError {
    /// The toggle-key name is not one of the supported key names.
    InvalidToggleKey,
    /// The button name is not `left`, `right` or `middle` (any case).
    InvalidMouseButton,
}

/// Immutable run configuration, fixed at startup.
#[derive(PartialEq, Eq, Structural, Clone, Copy, Debug)]
pub struct ClickConfig {
    /// Desired time between consecutive presses, in milliseconds.
    pub interval_ms: u64,
    /// Key whose press edge flips the clicker on and off.
    pub toggle_key: KeyCode,
    /// Button emitted by each click cycle.
    pub button: MouseButton,
}

/// The `BTN_*` wire code of a button.
pub open spec fn button_code(b: MouseButton) -> u32 {
    match b {
        MouseButton::Left => 0x110,
        MouseButton::Right => 0x111,
        MouseButton::Middle => 0x112,
    }
}

impl MouseButton {
    /// The Linux `BTN_*` code of this button, as sent on the pointer protocol.
    pub fn code(&self) -> (c: u32)
        ensures
            c == button_code(*self),
    {
        match *self {
            MouseButton::Left => 0x110,
            MouseButton::Right => 0x111,
            MouseButton::Middle => 0x112,
        }
    }
}

/// Whether the byte string `name` names the given key, up to ASCII case.
pub open spec fn key_name_matches(name: Seq<u8>, lit: &str) -> bool {
    ieq(name, lit.spec_bytes())
}

/// The key named by `name` (compared case-insensitively), if any.
///
/// The supported names and their input-event codes mirror the keys the
/// clicker accepts as a toggle: the function keys, the letter keys, and the
/// three mouse buttons.
pub open spec fn toggle_key_of(name: Seq<u8>) -> Option<KeyCode> {
    if key_name_matches(name, "F1") {
        Some(KeyCode { code: 59 })
    } else if key_name_matches(name, "F2") {
        Some(KeyCode { code: 60 })
    } else if key_name_matches(name, "F3") {
        Some(KeyCode { code: 61 })
    } else if key_name_matches(name, "F4") {
        Some(KeyCode { code: 62 })
    } else if key_name_matches(name, "F5") {
        Some(KeyCode { code: 63 })
    } else if key_name_matches(name, "F6") {
        Some(KeyCode { code: 64 })
    } else if key_name_matches(name, "F7") {
        Some(KeyCode { code: 65 })
    } else if key_name_matches(name, "F8") {
        Some(KeyCode { code: 66 })
    } else if key_name_matches(name, "F9") {
        Some(KeyCode { code: 67 })
    } else if key_name_matches(name, "F10") {
        Some(KeyCode { code: 68 })
    } else if key_name_matches(name, "F11") {
        Some(KeyCode { code: 87 })
    } else if key_name_matches(name, "F12") {
        Some(KeyCode { code: 88 })
    } else if key_name_matches(name, "X") {
        Some(KeyCode { code: 45 })
    } else if key_name_matches(name, "Z") {
        Some(KeyCode { code: 44 })
    } else if key_name_matches(name, "C") {
        Some(KeyCode { code: 46 })
    } else if key_name_matches(name, "V") {
        Some(KeyCode { code: 47 })
    } else if key_name_matches(name, "B") {
        Some(KeyCode { code: 48 })
    } else if key_name_matches(name, "N") {
        Some(KeyCode { code: 49 })
    } else if key_name_matches(name, "M") {
        Some(KeyCode { code: 50 })
    } else if key_name_matches(name, "A") {
        Some(KeyCode { code: 30 })
    } else if key_name_matches(name, "S") {
        Some(KeyCode { code: 31 })
    } else if key_name_matches(name, "D") {
        Some(KeyCode { code: 32 })
    } else if key_name_matches(name, "W") {
        Some(KeyCode { code: 17 })
    } else if key_name_matches(name, "Q") {
        Some(KeyCode { code: 16 })
    } else if key_name_matches(name, "E") {
        Some(KeyCode { code: 18 })
    } else if key_name_matches(name, "R") {
        Some(KeyCode { code: 19 })
    } else if key_name_matches(name, "T") {
        Some(KeyCode { code: 20 })
    } else if key_name_matches(name, "Y") {
        Some(KeyCode { code: 21 })
    } else if key_name_matches(name, "U") {
        Some(KeyCode { code: 22 })
    } else if key_name_matches(name, "I") {
        Some(KeyCode { code: 23 })
    } else if key_name_matches(name, "O") {
        Some(KeyCode { code: 24 })
    } else if key_name_matches(name, "P") {
        Some(KeyCode { code: 25 })
    } else if key_name_matches(name, "K") {
        Some(KeyCode { code: 37 })
    } else if key_name_matches(name, "L") {
        Some(KeyCode { code: 38 })
    } else if key_name_matches(name, "J") {
        Some(KeyCode { code: 36 })
    } else if key_name_matches(name, "H") {
        Some(KeyCode { code: 35 })
    } else if key_name_matches(name, "G") {
        Some(KeyCode { code: 34 })
    } else if key_name_matches(name, "F") {
        Some(KeyCode { code: 33 })
    } else if key_name_matches(name, "BTN_LEFT") {
        Some(KeyCode { code: 0x110 })
    } else if key_name_matches(name, "BTN_RIGHT") {
        Some(KeyCode { code: 0x111 })
    } else if key_name_matches(name, "BTN_MIDDLE") {
        Some(KeyCode { code: 0x112 })
    } else {
        None
    }
}

/// The button named by `name` (compared case-insensitively), if any.
pub open spec fn button_of(name: Seq<u8>) -> Option<MouseButton> {
    if key_name_matches(name, "left") {
        Some(MouseButton::Left)
    } else if key_name_matches(name, "right") {
        Some(MouseButton::Right)
    } else if key_name_matches(name, "middle") {
        Some(MouseButton::Middle)
    } else {
        None
    }
}

/// Parses a toggle-key name such as `F6`, `x` or `BTN_LEFT` into its key
/// code; case does not matter. Returns `None` for any unsupported name.
pub fn parse_toggle_key(name: &str) -> (r: Option<KeyCode>)
    ensures
        r == toggle_key_of(name.spec_bytes()),
{
    let b: &[u8] = name.as_bytes();
    if eq_ignore_ascii_case(b, "F1".as_bytes()) {
        Some(KeyCode { code: 59 })
    } else if eq_ignore_ascii_case(b, "F2".as_bytes()) {
        Some(KeyCode { code: 60 })
    } else if eq_ignore_ascii_case(b, "F3".as_bytes()) {
        Some(KeyCode { code: 61 })
    } else if eq_ignore_ascii_case(b, "F4".as_bytes()) {
        Some(KeyCode { code: 62 })
    } else if eq_ignore_ascii_case(b, "F5".as_bytes()) {
        Some(KeyCode { code: 63 })
    } else if eq_ignore_ascii_case(b, "F6".as_bytes()) {
        Some(KeyCode { code: 64 })
    } else if eq_ignore_ascii_case(b, "F7".as_bytes()) {
        Some(KeyCode { code: 65 })
    } else if eq_ignore_ascii_case(b, "F8".as_bytes()) {
        Some(KeyCode { code: 66 })
    } else if eq_ignore_ascii_case(b, "F9".as_bytes()) {
        Some(KeyCode { code: 67 })
    } else if eq_ignore_ascii_case(b, "F10".as_bytes()) {
        Some(KeyCode { code: 68 })
    } else if eq_ignore_ascii_case(b, "F11".as_bytes()) {
        Some(KeyCode { code: 87 })
    } else if eq_ignore_ascii_case(b, "F12".as_bytes()) {
        Some(KeyCode { code: 88 })
    } else if eq_ignore_ascii_case(b, "X".as_bytes()) {
        Some(KeyCode { code: 45 })
    } else if eq_ignore_ascii_case(b, "Z".as_bytes()) {
        Some(KeyCode { code: 44 })
    } else if eq_ignore_ascii_case(b, "C".as_bytes()) {
        Some(KeyCode { code: 46 })
    } else if eq_ignore_ascii_case(b, "V".as_bytes()) {
        Some(KeyCode { code: 47 })
    } else if eq_ignore_ascii_case(b, "B".as_bytes()) {
        Some(KeyCode { code: 48 })
    } else if eq_ignore_ascii_case(b, "N".as_bytes()) {
        Some(KeyCode { code: 49 })
    } else if eq_ignore_ascii_case(b, "M".as_bytes()) {
        Some(KeyCode { code: 50 })
    } else if eq_ignore_ascii_case(b, "A".as_bytes()) {
        Some(KeyCode { code: 30 })
    } else if eq_ignore_ascii_case(b, "S".as_bytes()) {
        Some(KeyCode { code: 31 })
    } else if eq_ignore_ascii_case(b, "D".as_bytes()) {
        Some(KeyCode { code: 32 })
    } else if eq_ignore_ascii_case(b, "W".as_bytes()) {
        Some(KeyCode { code: 17 })
    } else if eq_ignore_ascii_case(b, "Q".as_bytes()) {
        Some(KeyCode { code: 16 })
    } else if eq_ignore_ascii_case(b, "E".as_bytes()) {
        Some(KeyCode { code: 18 })
    } else if eq_ignore_ascii_case(b, "R".as_bytes()) {
        Some(KeyCode { code: 19 })
    } else if eq_ignore_ascii_case(b, "T".as_bytes()) {
        Some(KeyCode { code: 20 })
    } else if eq_ignore_ascii_case(b, "Y".as_bytes()) {
        Some(KeyCode { code: 21 })
    } else if eq_ignore_ascii_case(b, "U".as_bytes()) {
        Some(KeyCode { code: 22 })
    } else if eq_ignore_ascii_case(b, "I".as_bytes()) {
        Some(KeyCode { code: 23 })
    } else if eq_ignore_ascii_case(b, "O".as_bytes()) {
        Some(KeyCode { code: 24 })
    } else if eq_ignore_ascii_case(b, "P".as_bytes()) {
        Some(KeyCode { code: 25 })
    } else if eq_ignore_ascii_case(b, "K".as_bytes()) {
        Some(KeyCode { code: 37 })
    } else if eq_ignore_ascii_case(b, "L".as_bytes()) {
        Some(KeyCode { code: 38 })
    } else if eq_ignore_ascii_case(b, "J".as_bytes()) {
        Some(KeyCode { code: 36 })
    } else if eq_ignore_ascii_case(b, "H".as_bytes()) {
        Some(KeyCode { code: 35 })
    } else if eq_ignore_ascii_case(b, "G".as_bytes()) {
        Some(KeyCode { code: 34 })
    } else if eq_ignore_ascii_case(b, "F".as_bytes()) {
        Some(KeyCode { code: 33 })
    } else if eq_ignore_ascii_case(b, "BTN_LEFT".as_bytes()) {
        Some(KeyCode { code: 0x110 })
    } else if eq_ignore_ascii_case(b, "BTN_RIGHT".as_bytes()) {
        Some(KeyCode { code: 0x111 })
    } else if eq_ignore_ascii_case(b, "BTN_MIDDLE".as_bytes()) {
        Some(KeyCode { code: 0x112 })
    } else {
        None
    }
}

/// Parses a button name (`left`, `right` or `middle`, any case) into the
/// button it names. Returns `None` for any other string.
pub fn parse_mouse_button(name: &str) -> (r: Option<MouseButton>)
    ensures
        r == button_of(name.spec_bytes()),
{
    let b: &[u8] = name.as_bytes();
    if eq_ignore_ascii_case(b, "left".as_bytes()) {
        Some(MouseButton::Left)
    } else if eq_ignore_ascii_case(b, "right".as_bytes()) {
        Some(MouseButton::Right)
    } else if eq_ignore_ascii_case(b, "middle".as_bytes()) {
        Some(MouseButton::Middle)
    } else {
        None
    }
}

/// The configuration that `build_config` owes for the given inputs: the key
/// name is checked first, then the button name; only when both parse does a
/// configuration come back.
pub open spec fn config_of(
    interval_ms: u64,
    toggle_key: Seq<u8>,
    button: Seq<u8>,
) -> Result<ClickConfig, ConfigError> {
    match toggle_key_of(toggle_key) {
        None => Err(ConfigError::InvalidToggleKey),
        Some(k) => match button_of(button) {
            None => Err(ConfigError::InvalidMouseButton),
            Some(b) => Ok(ClickConfig { interval_ms, toggle_key: k, button: b }),
        },
    }
}

/// Resolves the startup configuration from the raw command-line values.
///
/// Fails with `InvalidToggleKey` or `InvalidMouseButton` exactly when the
/// corresponding name does not parse; the key name is rejected first. On
/// success the returned configuration carries the parsed key, button and
/// interval unchanged. A failure here precedes any device access.
pub fn build_config(interval_ms: u64, toggle_key: &str, button: &str) -> (r: Result<
    ClickConfig,
    ConfigError,
>)
    ensures
        r == config_of(interval_ms, toggle_key.spec_bytes(), button.spec_bytes()),
{
    match parse_toggle_key(toggle_key) {
        None => Err(ConfigError::InvalidToggleKey),
        Some(k) => match parse_mouse_button(button) {
            None => Err(ConfigError::InvalidMouseButton),
            Some(b) => Ok(ClickConfig { interval_ms, toggle_key: k, button: b }),
        },
    }
}

} // verus!
