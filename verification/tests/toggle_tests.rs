use autoclicker::toggle::ToggleFlag;

#[test]
fn starts_off() {
    let flag = ToggleFlag::new();
    assert!(!flag.read());
}

#[test]
fn toggle_inverts_and_reports_new_value() {
    let flag = ToggleFlag::new();
    assert!(flag.toggle());
    assert!(flag.read());
    assert!(!flag.toggle());
    assert!(!flag.read());
}

#[test]
fn toggling_twice_returns_to_start() {
    let flag = ToggleFlag::new();
    let before = flag.read();
    flag.toggle();
    flag.toggle();
    assert_eq!(flag.read(), before);
}

#[test]
fn reads_do_not_disturb_the_value() {
    let flag = ToggleFlag::new();
    flag.toggle();
    for _ in 0..100 {
        assert!(flag.read());
    }
}
