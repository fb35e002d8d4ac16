use hickory_dns::failure::{hostname_payload, Failure};
use hickory_dns::nsid::{parse_nsid_payload, HexError, NSIDPayload, NsidError};

#[test]
fn test_hex_nsid_payload() {
    let expected = NSIDPayload::new(vec![0xC0, 0xFF, 0xEE]).unwrap();
    let value = parse_nsid_payload("0xC0FFEE").unwrap();
    assert_eq!(value, expected);
}

#[test]
fn test_string_nsid_payload() {
    let string_value = "HickoryDNS";
    let expected = NSIDPayload::new(string_value.as_bytes().to_vec()).unwrap();
    let value = parse_nsid_payload(string_value).unwrap();
    assert_eq!(value, expected);
}

#[test]
fn test_nsid_payload_too_long() {
    let too_large = "x".repeat(u16::MAX as usize + 1);
    let err = parse_nsid_payload(&too_large).unwrap_err();
    assert_eq!(err.message(), "NSID EDNS payload too large");
}

#[test]
fn longest_payload_fits() {
    let longest = "x".repeat(u16::MAX as usize);
    let value = parse_nsid_payload(&longest).unwrap();
    assert_eq!(value.as_bytes().len(), 65535);
}

#[test]
fn hex_is_read_in_either_case() {
    let lower = parse_nsid_payload("0xc0ffee").unwrap();
    assert_eq!(lower.as_bytes(), &[0xc0, 0xff, 0xee]);
    assert_eq!(lower, parse_nsid_payload("0xC0fFeE").unwrap());
}

#[test]
fn hex_of_every_byte_reads_back() {
    let bytes: Vec<u8> = (0..=255).collect();
    let mut raw = String::from("0x");
    for b in &bytes {
        raw.push_str(&format!("{b:02x}"));
    }
    assert_eq!(parse_nsid_payload(&raw).unwrap().as_bytes(), &bytes[..]);
    let upper = format!("0x{}", raw[2..].to_uppercase());
    assert_eq!(parse_nsid_payload(&upper).unwrap().as_bytes(), &bytes[..]);
}

#[test]
fn empty_payloads_are_accepted() {
    assert_eq!(parse_nsid_payload("").unwrap().as_bytes(), b"");
    assert_eq!(parse_nsid_payload("0x").unwrap().as_bytes(), b"");
}

#[test]
fn prefix_is_case_sensitive() {
    assert_eq!(parse_nsid_payload("0XAB").unwrap().as_bytes(), b"0XAB");
    assert_eq!(parse_nsid_payload("0").unwrap().as_bytes(), b"0");
}

#[test]
fn text_beyond_ascii_is_sent_as_utf8() {
    assert_eq!(parse_nsid_payload("\u{e9}").unwrap().as_bytes(), &[0xc3, 0xa9]);
}

#[test]
fn odd_hex_is_refused() {
    let err = parse_nsid_payload("0xABC").unwrap_err();
    assert_eq!(err, NsidError::InvalidHex(HexError::OddLength));
    assert_eq!(err.message(), "invalid NSID hex encoding: Odd number of digits");
}

#[test]
fn odd_length_is_found_before_a_bad_digit() {
    let err = parse_nsid_payload("0xzzz").unwrap_err();
    assert_eq!(err, NsidError::InvalidHex(HexError::OddLength));
}

#[test]
fn first_bad_digit_is_named() {
    let err = parse_nsid_payload("0xABzq").unwrap_err();
    assert_eq!(
        err,
        NsidError::InvalidHex(HexError::InvalidHexCharacter { c: 'z', index: 2 })
    );
    assert_eq!(
        err.message(),
        "invalid NSID hex encoding: Invalid character 'z' at position 2"
    );
}

#[test]
fn bad_digit_is_shown_escaped() {
    let err = parse_nsid_payload("0xA\n").unwrap_err();
    assert_eq!(
        err.message(),
        "invalid NSID hex encoding: Invalid character '\\n' at position 1"
    );
}

#[test]
fn long_hex_is_too_large() {
    let raw = format!("0x{}", "ab".repeat(65536));
    assert_eq!(parse_nsid_payload(&raw).unwrap_err(), NsidError::TooLarge);
    let raw = format!("0x{}", "ab".repeat(65535));
    assert_eq!(parse_nsid_payload(&raw).unwrap().as_bytes().len(), 65535);
}

#[test]
fn hostname_is_a_payload() {
    assert_eq!(hostname_payload(b"ns1".to_vec()).unwrap().as_bytes(), b"ns1");
    let err = hostname_payload(vec![0; 65536]).unwrap_err();
    assert_eq!(err, Failure::HostnamePayload(NsidError::TooLarge));
    assert_eq!(err.message(), "invalid NSID payload: NSID EDNS payload too large");
}

#[test]
fn length_error_text() {
    assert_eq!(
        NsidError::InvalidHex(HexError::InvalidStringLength).message(),
        "invalid NSID hex encoding: Invalid string length"
    );
}
