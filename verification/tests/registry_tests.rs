use autoclicker::ascii::{bytes_eq, eq_ignore_ascii_case};
use autoclicker::registry::is_virtual_pointer_manager;

#[test]
fn recognises_the_manager_interface() {
    assert!(is_virtual_pointer_manager("zwlr_virtual_pointer_manager_v1"));
}

#[test]
fn rejects_other_globals() {
    assert!(!is_virtual_pointer_manager("wl_compositor"));
    assert!(!is_virtual_pointer_manager("zwlr_virtual_pointer_v1"));
    assert!(!is_virtual_pointer_manager(""));
    // The registry match is exact, not case-folded.
    assert!(!is_virtual_pointer_manager("ZWLR_VIRTUAL_POINTER_MANAGER_V1"));
}

#[test]
fn byte_equality_is_exact() {
    assert!(bytes_eq(b"abc", b"abc"));
    assert!(!bytes_eq(b"abc", b"abd"));
    assert!(!bytes_eq(b"abc", b"ab"));
    assert!(bytes_eq(b"", b""));
}

#[test]
fn case_insensitive_equality_folds_ascii_only() {
    assert!(eq_ignore_ascii_case(b"btn_left", b"BTN_LEFT"));
    assert!(eq_ignore_ascii_case(b"F6", b"f6"));
    assert!(!eq_ignore_ascii_case(b"F6", b"F7"));
    assert!(!eq_ignore_ascii_case(b"F6", b"F6 "));
    // Only letters fold; digits and punctuation must match exactly.
    assert!(!eq_ignore_ascii_case(b"f_1", b"f-1"));
}
