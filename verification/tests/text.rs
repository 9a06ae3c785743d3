use reqresp::text::{decimal_bytes, greeting, is_quit, text_bytes};

#[test]
fn decimal_of_small_numbers() {
    assert_eq!(decimal_bytes(0), b"0".to_vec());
    assert_eq!(decimal_bytes(7), b"7".to_vec());
    assert_eq!(decimal_bytes(9), b"9".to_vec());
}

#[test]
fn decimal_of_numbers_with_several_digits() {
    assert_eq!(decimal_bytes(10), b"10".to_vec());
    assert_eq!(decimal_bytes(1024), b"1024".to_vec());
    assert_eq!(decimal_bytes(90210), b"90210".to_vec());
}

#[test]
fn decimal_of_the_largest_count() {
    assert_eq!(decimal_bytes(u32::MAX), b"4294967295".to_vec());
}

#[test]
fn quit_is_told_apart_exactly() {
    assert!(is_quit("quit"));
    assert!(!is_quit("Quit"));
    assert!(!is_quit("quit "));
    assert!(!is_quit("qui"));
    assert!(!is_quit(""));
}

#[test]
fn greeting_puts_hello_in_front() {
    assert_eq!(greeting("0"), "Hello 0");
    assert_eq!(greeting(""), "Hello ");
    assert_eq!(greeting("wörld"), "Hello wörld");
}

#[test]
fn text_bytes_are_utf8() {
    assert_eq!(text_bytes("abc"), vec![97u8, 98, 99]);
    assert_eq!(text_bytes("ö"), vec![0xC3u8, 0xB6]);
}
