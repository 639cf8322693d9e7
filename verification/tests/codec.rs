use tuiserial::codec::{bytes_to_hex, bytes_to_string, hex_to_bytes};

#[test]
fn test_hex_to_bytes() {
    assert_eq!(
        hex_to_bytes("48656C6C6F").unwrap(),
        vec![0x48, 0x65, 0x6C, 0x6C, 0x6F]
    );
    assert_eq!(
        hex_to_bytes("48 65 6C 6C 6F").unwrap(),
        vec![0x48, 0x65, 0x6C, 0x6C, 0x6F]
    );
    assert!(hex_to_bytes("4865F").is_err()); // Odd length
    assert!(hex_to_bytes("48XY").is_err()); // Invalid hex
}

#[test]
fn test_bytes_to_hex() {
    assert_eq!(
        bytes_to_hex(&[0x48, 0x65, 0x6C, 0x6C, 0x6F]),
        "48 65 6C 6C 6F"
    );
    assert_eq!(bytes_to_hex(&[]), "");
}

#[test]
fn test_bytes_to_string() {
    assert_eq!(bytes_to_string(&[0x48, 0x65, 0x6C, 0x6C, 0x6F]), "Hello");
    assert_eq!(
        bytes_to_string(&[0x48, 0x65, 0x6C, 0x6C, 0x6F, 0x0A]),
        "Hello\\x0A"
    );
    assert_eq!(bytes_to_string(&[0x00, 0x1F, 0x7F]), "\\x00\\x1F\\x7F");
}

#[test]
fn hex_errors_name_the_fault() {
    assert_eq!(
        hex_to_bytes("4865F"),
        Err("Hex string must have even length".to_string())
    );
    assert_eq!(hex_to_bytes("48XY"), Err("Invalid hex character".to_string()));
    // An odd length is reported before an invalid digit.
    assert_eq!(
        hex_to_bytes("4G5"),
        Err("Hex string must have even length".to_string())
    );
    assert_eq!(hex_to_bytes("+F"), Err("Invalid hex character".to_string()));
    assert_eq!(hex_to_bytes("-1"), Err("Invalid hex character".to_string()));
}

#[test]
fn hex_ignores_whitespace() {
    assert_eq!(hex_to_bytes(""), Ok(vec![]));
    assert_eq!(hex_to_bytes("   "), Ok(vec![]));
    assert_eq!(hex_to_bytes("\t\n 0a ff \r\n"), Ok(vec![0x0A, 0xFF]));
    assert_eq!(hex_to_bytes("0 a f   f"), Ok(vec![0x0A, 0xFF]));
    assert_eq!(hex_to_bytes("\u{3000}DeadBEEF\u{85}"), Ok(vec![0xDE, 0xAD, 0xBE, 0xEF]));
    assert_eq!(hex_to_bytes("0a\tff\n01\u{2028}02"), Ok(vec![0x0A, 0xFF, 0x01, 0x02]));
    // Other separators are no whitespace.
    assert_eq!(hex_to_bytes("0a,ff"), Err("Hex string must have even length".to_string()));
    assert_eq!(hex_to_bytes("0a\u{200B}\u{200B}ff"), Err("Invalid hex character".to_string()));
    assert_eq!(hex_to_bytes("0x0a"), Err("Invalid hex character".to_string()));
}

#[test]
fn hex_round_trip_over_all_bytes() {
    let all: Vec<u8> = (0..=255u8).collect();
    let text = bytes_to_hex(&all);
    assert_eq!(text.len(), 256 * 3 - 1);
    assert!(text.starts_with("00 01 02 03"));
    assert!(text.ends_with("FD FE FF"));
    assert_eq!(hex_to_bytes(&text), Ok(all));
    for b in 0..=255u8 {
        assert_eq!(hex_to_bytes(&bytes_to_hex(&[b])), Ok(vec![b]));
    }
}

#[test]
fn bytes_to_string_escapes_outside_printable_ascii() {
    assert_eq!(bytes_to_string(&[]), "");
    assert_eq!(bytes_to_string(&[31, 32, 126, 127, 128, 255]), "\\x1F ~\\x7F\\x80\\xFF");
    assert_eq!(bytes_to_string(b"a\\b"), "a\\b");
}
