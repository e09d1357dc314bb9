use crossterm_cffi::c_string::{c_string_bytes, c_string_from_bytes};

#[test]
fn ascii_text_gets_a_nul() {
    assert_eq!(c_string_bytes("abc"), Some(vec![97, 98, 99, 0]));
}

#[test]
fn empty_text_is_just_the_nul() {
    assert_eq!(c_string_bytes(""), Some(vec![0]));
}

#[test]
fn utf8_text_is_copied_byte_for_byte() {
    assert_eq!(c_string_bytes("é€"), Some(vec![0xc3, 0xa9, 0xe2, 0x82, 0xac, 0]));
}

#[test]
fn interior_nul_is_refused() {
    assert_eq!(c_string_bytes("a\0b"), None);
    assert_eq!(c_string_bytes("\0"), None);
    assert_eq!(c_string_from_bytes(&[1, 2, 0]), None);
}

#[test]
fn bytes_are_terminated() {
    assert_eq!(c_string_from_bytes(&[255, 1]), Some(vec![255, 1, 0]));
}
