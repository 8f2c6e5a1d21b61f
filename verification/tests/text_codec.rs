use accesskit_c::handle::HandleStore;
use accesskit_c::text::{
    decode_c_string, decode_text_lossy, encode_c_string, encode_text, string_free,
    text_contains_nul,
};

fn chars(s: &str) -> Vec<char> {
    s.chars().collect()
}

#[test]
fn encode_ascii_text() {
    let bytes = encode_text(&chars("hi"));
    assert_eq!(bytes, vec![0x68, 0x69]);
}

#[test]
fn encode_multibyte_text() {
    let bytes = encode_text(&chars("é"));
    assert_eq!(bytes, vec![0xC3, 0xA9]);
    let bytes = encode_text(&chars("€"));
    assert_eq!(bytes, vec![0xE2, 0x82, 0xAC]);
    let bytes = encode_text(&chars("𝄞"));
    assert_eq!(bytes, vec![0xF0, 0x9D, 0x84, 0x9E]);
}

#[test]
fn text_round_trip_valid_utf8() {
    let original = chars("héllo wörld €𝄞");
    let bytes = encode_text(&original);
    let decoded = decode_text_lossy(&bytes);
    assert_eq!(decoded, original);
}

#[test]
fn decode_invalid_bytes_is_lossy_and_deterministic() {
    let bytes: Vec<u8> = vec![0x61, 0xFF, 0x62];
    let decoded = decode_text_lossy(&bytes);
    assert_eq!(decoded, vec!['a', '\u{fffd}', 'b']);
    let decoded_again = decode_text_lossy(&bytes);
    assert_eq!(decoded_again, decoded);
}

#[test]
fn decode_truncated_sequence_is_replaced() {
    // A two-byte lead with no continuation byte after it.
    let bytes: Vec<u8> = vec![0xC3];
    assert_eq!(decode_text_lossy(&bytes), vec!['\u{fffd}']);
    // An overlong lead is invalid on its own; the stray continuation byte
    // after it is a second ill-formed subpart.
    let bytes: Vec<u8> = vec![0xC0, 0xAF];
    assert_eq!(decode_text_lossy(&bytes), vec!['\u{fffd}', '\u{fffd}']);
    // A surrogate encoding is rejected at its second byte, leaving the
    // lead and each stray continuation byte as subparts of their own.
    let bytes: Vec<u8> = vec![0xED, 0xA0, 0x80];
    assert_eq!(
        decode_text_lossy(&bytes),
        vec!['\u{fffd}', '\u{fffd}', '\u{fffd}']
    );
}

#[test]
fn decode_maximal_subparts_get_one_replacement() {
    // A truncated three-byte sequence is one maximal subpart.
    let bytes: Vec<u8> = vec![0xE0, 0xA0];
    assert_eq!(decode_text_lossy(&bytes), vec!['\u{fffd}']);
    // A truncated four-byte sequence of two or three bytes likewise.
    let bytes: Vec<u8> = vec![0xF0, 0x9D];
    assert_eq!(decode_text_lossy(&bytes), vec!['\u{fffd}']);
    let bytes: Vec<u8> = vec![0xF0, 0x9D, 0x84];
    assert_eq!(decode_text_lossy(&bytes), vec!['\u{fffd}']);
    // A second byte outside the admissible range (here: overlong) ends
    // the subpart at the lead, so the stray byte is replaced separately.
    let bytes: Vec<u8> = vec![0xE0, 0x80];
    assert_eq!(decode_text_lossy(&bytes), vec!['\u{fffd}', '\u{fffd}']);
    // Subparts interleave with well-formed text and with each other.
    let bytes: Vec<u8> = vec![0x61, 0xE0, 0xA0, 0x62];
    assert_eq!(decode_text_lossy(&bytes), vec!['a', '\u{fffd}', 'b']);
    let bytes: Vec<u8> = vec![0xE0, 0xA0, 0xE0, 0xA0];
    assert_eq!(decode_text_lossy(&bytes), vec!['\u{fffd}', '\u{fffd}']);
}

#[test]
fn c_string_round_trip() {
    let original = chars("toolkit");
    let bytes = encode_c_string(&original);
    assert_eq!(*bytes.last().unwrap(), 0);
    let decoded = decode_c_string(&bytes);
    assert_eq!(decoded, original);
}

#[test]
fn c_string_decode_stops_at_terminator() {
    let bytes: Vec<u8> = vec![0x61, 0x62, 0, 0x63];
    assert_eq!(decode_c_string(&bytes), vec!['a', 'b']);
}

#[test]
fn nul_detection() {
    assert!(!text_contains_nul(&chars("plain")));
    assert!(text_contains_nul(&vec!['a', '\0', 'b']));
}

#[test]
fn string_store_free_releases() {
    let mut strings: HandleStore<Vec<u8>> = HandleStore::new();
    let h = strings.to_handle(encode_c_string(&chars("x")));
    assert_eq!(*strings.from_handle(h), vec![0x78, 0]);
    string_free(&mut strings, h);
}
