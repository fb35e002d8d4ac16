use hickory_dns::text::{append_decimal, chars_of, same_bytes};

#[test]
fn decimals() {
    for n in [0, 7, 9, 10, 11, 99, 100, 1048576000000, u64::MAX] {
        let mut text = "n = ".to_string();
        append_decimal(&mut text, n);
        assert_eq!(text, format!("n = {n}"));
        assert_eq!(text[4..].parse::<u64>().unwrap(), n);
    }
}

#[test]
fn characters() {
    assert_eq!(chars_of("a\u{e9}\0"), vec!['a', '\u{e9}', '\0']);
    assert!(chars_of("").is_empty());
}

#[test]
fn bytes_compared() {
    assert!(same_bytes(b"", b""));
    assert!(same_bytes(b"ab", b"ab"));
    assert!(!same_bytes(b"ab", b"ac"));
    assert!(!same_bytes(b"ab", b"abc"));
}
