use autoclicker::config::{
    build_config, parse_mouse_button, parse_toggle_key, ClickConfig, ConfigError, KeyCode,
    MouseButton,
};

#[test]
fn toggle_key_function_keys() {
    assert_eq!(parse_toggle_key("F1"), Some(KeyCode { code: 59 }));
    assert_eq!(parse_toggle_key("F6"), Some(KeyCode { code: 64 }));
    assert_eq!(parse_toggle_key("F10"), Some(KeyCode { code: 68 }));
    assert_eq!(parse_toggle_key("F11"), Some(KeyCode { code: 87 }));
    assert_eq!(parse_toggle_key("F12"), Some(KeyCode { code: 88 }));
}

#[test]
fn toggle_key_is_case_insensitive() {
    assert_eq!(parse_toggle_key("f6"), Some(KeyCode { code: 64 }));
    assert_eq!(parse_toggle_key("x"), Some(KeyCode { code: 45 }));
    assert_eq!(parse_toggle_key("btn_left"), Some(KeyCode { code: 0x110 }));
    assert_eq!(parse_toggle_key("Btn_Middle"), Some(KeyCode { code: 0x112 }));
}

#[test]
fn toggle_key_letters_and_buttons() {
    assert_eq!(parse_toggle_key("A"), Some(KeyCode { code: 30 }));
    assert_eq!(parse_toggle_key("Q"), Some(KeyCode { code: 16 }));
    assert_eq!(parse_toggle_key("M"), Some(KeyCode { code: 50 }));
    assert_eq!(parse_toggle_key("BTN_RIGHT"), Some(KeyCode { code: 0x111 }));
}

#[test]
fn toggle_key_rejects_unknown_names() {
    assert_eq!(parse_toggle_key("ESC"), None);
    assert_eq!(parse_toggle_key("F13"), None);
    assert_eq!(parse_toggle_key(""), None);
    assert_eq!(parse_toggle_key("F6 "), None);
}

#[test]
fn toggle_key_full_table() {
    let table: &[(&str, u16)] = &[
        ("F1", 59),
        ("F2", 60),
        ("F3", 61),
        ("F4", 62),
        ("F5", 63),
        ("F6", 64),
        ("F7", 65),
        ("F8", 66),
        ("F9", 67),
        ("F10", 68),
        ("F11", 87),
        ("F12", 88),
        ("Q", 16),
        ("W", 17),
        ("E", 18),
        ("R", 19),
        ("T", 20),
        ("Y", 21),
        ("U", 22),
        ("I", 23),
        ("O", 24),
        ("P", 25),
        ("A", 30),
        ("S", 31),
        ("D", 32),
        ("F", 33),
        ("G", 34),
        ("H", 35),
        ("J", 36),
        ("K", 37),
        ("L", 38),
        ("Z", 44),
        ("X", 45),
        ("C", 46),
        ("V", 47),
        ("B", 48),
        ("N", 49),
        ("M", 50),
        ("BTN_LEFT", 0x110),
        ("BTN_RIGHT", 0x111),
        ("BTN_MIDDLE", 0x112),
    ];
    for (name, code) in table {
        assert_eq!(
            parse_toggle_key(name),
            Some(KeyCode { code: *code }),
            "key {}",
            name
        );
        assert_eq!(
            parse_toggle_key(&name.to_lowercase()),
            Some(KeyCode { code: *code }),
            "key {} lower-cased",
            name
        );
    }
}

#[test]
fn mouse_button_names() {
    assert_eq!(parse_mouse_button("left"), Some(MouseButton::Left));
    assert_eq!(parse_mouse_button("RIGHT"), Some(MouseButton::Right));
    assert_eq!(parse_mouse_button("Middle"), Some(MouseButton::Middle));
    assert_eq!(parse_mouse_button("up"), None);
    assert_eq!(parse_mouse_button(""), None);
}

#[test]
fn button_wire_codes_are_btn_codes() {
    assert_eq!(MouseButton::Left.code(), 0x110);
    assert_eq!(MouseButton::Right.code(), 0x111);
    assert_eq!(MouseButton::Middle.code(), 0x112);
}

#[test]
fn build_config_accepts_valid_input() {
    let cfg = build_config(100, "F6", "left").unwrap();
    assert_eq!(
        cfg,
        ClickConfig {
            interval_ms: 100,
            toggle_key: KeyCode { code: 64 },
            button: MouseButton::Left,
        }
    );
}

#[test]
fn build_config_rejects_bad_button_before_any_device_work() {
    // An invalid `--button=up` is a configuration error at startup.
    assert_eq!(
        build_config(100, "F6", "up"),
        Err(ConfigError::InvalidMouseButton)
    );
}

#[test]
fn build_config_rejects_bad_key_first() {
    assert_eq!(
        build_config(100, "NOPE", "up"),
        Err(ConfigError::InvalidToggleKey)
    );
    assert_eq!(
        build_config(100, "NOPE", "left"),
        Err(ConfigError::InvalidToggleKey)
    );
}
