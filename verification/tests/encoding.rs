use flightradar_api::decimal::decimal_string;
use flightradar_api::percent::{decode_component, encode_component, is_unreserved_byte};

#[test]
fn encodes_every_byte_class() {
    assert_eq!(encode_component(""), "");
    assert_eq!(encode_component("abcXYZ019-._~"), "abcXYZ019-._~");
    assert_eq!(encode_component(" "), "%20");
    assert_eq!(encode_component("&"), "%26");
    assert_eq!(encode_component("%"), "%25");
    assert_eq!(encode_component("+"), "%2B");
    assert_eq!(encode_component("\u{0}"), "%00");
    assert_eq!(encode_component("\u{7f}"), "%7F");
    assert_eq!(encode_component("ã"), "%C3%A3");
    assert_eq!(encode_component("€"), "%E2%82%AC");
    assert_eq!(encode_component("\u{10ffff}"), "%F4%8F%BF%BF");
    assert_eq!(encode_component("/:?#[]@!$&'()*,;="), "%2F%3A%3F%23%5B%5D%40%21%24%26%27%28%29%2A%2C%3B%3D");
}

#[test]
fn unreserved_bytes_are_exactly_sixty_six() {
    let mut count = 0;
    for b in 0u8..=255 {
        let expected = b.is_ascii_alphanumeric() || b == b'-' || b == b'.' || b == b'_' || b == b'~';
        assert_eq!(is_unreserved_byte(b), expected, "{}", b);
        if expected {
            count += 1;
        }
    }
    assert_eq!(count, 66);
}

#[test]
fn decodes_escapes_of_either_case() {
    assert_eq!(decode_component(""), Some(vec![]));
    assert_eq!(decode_component("abc"), Some(b"abc".to_vec()));
    assert_eq!(decode_component("%41%62"), Some(b"Ab".to_vec()));
    assert_eq!(decode_component("%c3%A3"), Some(vec![0xc3, 0xa3]));
    assert_eq!(decode_component("%00%ff%FF"), Some(vec![0, 255, 255]));
    assert_eq!(decode_component("a%20b+c"), Some(b"a b+c".to_vec()));
}

#[test]
fn refuses_malformed_escapes() {
    assert_eq!(decode_component("%"), None);
    assert_eq!(decode_component("%4"), None);
    assert_eq!(decode_component("abc%4"), None);
    assert_eq!(decode_component("%zz"), None);
    assert_eq!(decode_component("%4g"), None);
    assert_eq!(decode_component("%g4"), None);
    assert_eq!(decode_component("%%41"), None);
    assert_eq!(decode_component("%41%"), None);
}

#[test]
fn refuses_text_outside_ascii() {
    assert_eq!(decode_component("ã"), None);
    assert_eq!(decode_component("%41ã"), None);
    assert_eq!(decode_component("%ã1"), None);
}

#[test]
fn every_byte_round_trips() {
    for b in 0u8..=255 {
        let text = String::from_utf8_lossy(&[b'x', b]).into_owned();
        let encoded = encode_component(&text);
        assert_eq!(decode_component(&encoded), Some(text.as_bytes().to_vec()));
    }
    for c in ['\u{0}', 'a', '~', '\u{80}', 'ÿ', '\u{7ff}', '\u{800}', '\u{ffff}', '\u{10000}'] {
        let text = c.to_string();
        let encoded = encode_component(&text);
        assert!(encoded.is_ascii());
        assert_eq!(decode_component(&encoded), Some(text.as_bytes().to_vec()));
    }
}

#[test]
fn renders_plain_decimal() {
    assert_eq!(decimal_string(0), "0");
    assert_eq!(decimal_string(5), "5");
    assert_eq!(decimal_string(9), "9");
    assert_eq!(decimal_string(10), "10");
    assert_eq!(decimal_string(109), "109");
    assert_eq!(decimal_string(1000), "1000");
    assert_eq!(decimal_string(4294967295), "4294967295");
    assert_eq!(decimal_string(usize::MAX), usize::MAX.to_string());
}

#[test]
fn decimal_reads_back() {
    for n in [0usize, 1, 9, 10, 11, 99, 100, 101, 999, 1000, 65535, 65536, usize::MAX - 1] {
        let text = decimal_string(n);
        assert!(text.bytes().all(|b| b.is_ascii_digit()));
        assert!(n == 0 || !text.starts_with('0'));
        assert_eq!(text.parse::<usize>(), Ok(n));
    }
}
