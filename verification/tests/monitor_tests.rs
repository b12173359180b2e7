use autoclicker::config::{ClickConfig, KeyCode, MouseButton};
use autoclicker::monitor::{monitor_step, run_monitor, KeyEvent, KeyState};

fn cfg() -> ClickConfig {
    ClickConfig {
        interval_ms: 100,
        toggle_key: KeyCode { code: 64 },
        button: MouseButton::Left,
    }
}

fn ev(code: u16, state: KeyState) -> KeyEvent {
    KeyEvent {
        key: KeyCode { code },
        state,
    }
}

#[test]
fn raw_values_decode_to_key_states() {
    assert_eq!(KeyState::from_raw(0), Some(KeyState::Released));
    assert_eq!(KeyState::from_raw(1), Some(KeyState::Pressed));
    assert_eq!(KeyState::from_raw(2), Some(KeyState::Repeated));
    assert_eq!(KeyState::from_raw(3), None);
    assert_eq!(KeyState::from_raw(-1), None);
}

#[test]
fn press_of_toggle_key_flips() {
    assert!(monitor_step(&cfg(), &ev(64, KeyState::Pressed)));
}

#[test]
fn release_and_repeat_do_not_flip() {
    assert!(!monitor_step(&cfg(), &ev(64, KeyState::Released)));
    assert!(!monitor_step(&cfg(), &ev(64, KeyState::Repeated)));
}

#[test]
fn other_keys_do_not_flip() {
    assert!(!monitor_step(&cfg(), &ev(30, KeyState::Pressed)));
    assert!(!monitor_step(&cfg(), &ev(30, KeyState::Released)));
}

#[test]
fn flips_equal_press_edges() {
    // Three presses of the toggle key among repeats, releases and other
    // keys: exactly three flips, and an odd count leaves the flag on.
    let events = vec![
        ev(64, KeyState::Pressed),
        ev(64, KeyState::Repeated),
        ev(64, KeyState::Released),
        ev(30, KeyState::Pressed),
        ev(64, KeyState::Pressed),
        ev(30, KeyState::Released),
        ev(64, KeyState::Pressed),
    ];
    let (flag, flips) = run_monitor(&cfg(), &events, false);
    assert_eq!(flips, 3);
    assert!(flag);
}

#[test]
fn two_rapid_presses_flip_twice_net_unchanged() {
    // Two presses in a row: on then off, back where it started.
    let events = vec![ev(64, KeyState::Pressed), ev(64, KeyState::Pressed)];
    let (flag, flips) = run_monitor(&cfg(), &events, false);
    assert_eq!(flips, 2);
    assert!(!flag);
}

#[test]
fn other_keys_in_volume_never_flip() {
    let mut events = Vec::new();
    for i in 0..200u16 {
        let code = if i % 2 == 0 { 30 } else { 45 };
        events.push(ev(code, KeyState::Pressed));
        events.push(ev(code, KeyState::Released));
    }
    let (flag, flips) = run_monitor(&cfg(), &events, true);
    assert_eq!(flips, 0);
    assert!(flag);
}

#[test]
fn auto_repeat_storm_never_flips() {
    let mut events = vec![ev(64, KeyState::Pressed)];
    for _ in 0..100 {
        events.push(ev(64, KeyState::Repeated));
    }
    events.push(ev(64, KeyState::Released));
    let (flag, flips) = run_monitor(&cfg(), &events, false);
    assert_eq!(flips, 1);
    assert!(flag);
}
