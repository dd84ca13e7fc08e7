use crashwatch::transcode::{decode_captured, encode_legacy, encode_then_decode};

#[test]
fn ascii_round_trips() {
    let s = "hello, supervisor 123";
    assert_eq!(encode_then_decode(s), Some(String::from(s)));
}

#[test]
fn chinese_text_round_trips() {
    let s = "\u{4e2d}\u{6587}\u{6d4b}\u{8bd5}";
    assert_eq!(encode_then_decode(s), Some(String::from(s)));
}

#[test]
fn mixed_text_round_trips() {
    let s = "error: \u{6587}\u{4ef6} not found (code 2)";
    assert_eq!(encode_then_decode(s), Some(String::from(s)));
}

#[test]
fn encoding_is_real_gbk_not_utf8() {
    // "\u{4e2d}" is 0xD6 0xD0 in GBK but 0xE4 0xB8 0xAD in UTF-8.
    let (bytes, had_errors) = encode_legacy("\u{4e2d}");
    assert!(!had_errors);
    assert_eq!(bytes, vec![0xD6, 0xD0]);
}

#[test]
fn decode_maps_gbk_bytes_to_text() {
    // 0xD6 0xD0 is GBK for "\u{4e2d}"; a decoder that handed the bytes
    // back unchanged would yield two Latin-1 characters instead.
    let text = decode_captured(&vec![0xD6, 0xD0]);
    assert_eq!(text, "\u{4e2d}");
}

#[test]
fn unmappable_character_reports_errors() {
    // The emoji has no GBK mapping, so encoding flags a replacement and
    // the round trip refuses.
    let s = "ok \u{1f600}";
    let (_, had_errors) = encode_legacy(s);
    assert!(had_errors);
    assert_eq!(encode_then_decode(s), None);
}

#[test]
fn pua_override_code_point_refuses_round_trip() {
    // The GBK encoder maps this private-use code point to 0xFE 0x7E
    // without flagging a replacement, but the decoder reads those bytes
    // as a different character — so the round trip must refuse even
    // though the encode was "clean".
    let s = "\u{e843}";
    let (bytes, had_errors) = encode_legacy(s);
    assert!(!had_errors);
    assert_eq!(bytes, vec![0xFE, 0x7E]);
    assert_eq!(encode_then_decode(s), None);
}

#[test]
fn malformed_bytes_decode_to_substitution_marker() {
    // 0xFF is never a valid GBK lead byte.
    let text = decode_captured(&vec![0xFF, 0xFF]);
    assert!(text.contains('\u{fffd}'));
}

#[test]
fn truncated_sequence_decodes_without_error() {
    // A lone lead byte at end of input is malformed but must not abort.
    let text = decode_captured(&vec![b'a', 0x82]);
    assert!(text.starts_with('a'));
    assert!(text.contains('\u{fffd}'));
}

#[test]
fn arbitrary_invalid_bytes_always_yield_text() {
    let junk: Vec<u8> = (0u8..=255u8).rev().collect();
    let text = decode_captured(&junk);
    assert!(!text.is_empty());
}

#[test]
fn empty_input_decodes_to_empty_text() {
    assert_eq!(decode_captured(&Vec::new()), "");
}
