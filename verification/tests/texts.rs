use sidekiq::random::nonce_text;
use sidekiq::text::{decimal_text, join, path_tail};

#[test]
fn numbers_are_written_in_decimal() {
    assert_eq!(decimal_text(0), "0");
    assert_eq!(decimal_text(9), "9");
    assert_eq!(decimal_text(10), "10");
    assert_eq!(decimal_text(1_234_567_890), "1234567890");
    assert_eq!(decimal_text(u64::MAX), "18446744073709551615");
}

#[test]
fn bytes_are_written_in_hexadecimal() {
    let bytes = [0x00, 0x01, 0x0f, 0x10, 0x9a, 0xa9, 0xbc, 0xcd, 0xde, 0xef, 0xf0, 0xff];
    assert_eq!(nonce_text(&bytes), "00010f109aa9bccddeeff0ff");
}

#[test]
fn lists_are_joined() {
    let parts = |texts: &[&str]| texts.iter().map(|text| text.to_string()).collect::<Vec<_>>();
    assert_eq!(join(&parts(&[]), ","), "");
    assert_eq!(join(&parts(&["a"]), ","), "a");
    assert_eq!(join(&parts(&["a", "", "c"]), ", "), "a, , c");
}

#[test]
fn paths_are_split_from_the_left() {
    for path in ["", "a", "a::b", "a::b::c", "::", "a::", ":::", "a:::b", "x:y", "a::<b::c>"] {
        assert_eq!(path_tail(path), path.split("::").last().unwrap());
    }
}
