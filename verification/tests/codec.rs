use ctapi_rs::codec::encode_to_gbk_cstring;
use ctapi_rs::codec::extract_string_from_buffer;
use ctapi_rs::codec::find_nul;
use ctapi_rs::codec::gbk_round_trip;
use ctapi_rs::CtApiError;

#[test]
fn round_trip_preserves_ascii_text() {
    assert_eq!(gbk_round_trip("Hello World"), "Hello World");
    assert_eq!(gbk_round_trip(""), "");
    assert_eq!(gbk_round_trip("ALMQUERY,AdvAlm,0,0"), "ALMQUERY,AdvAlm,0,0");
}

#[test]
fn round_trip_preserves_representable_text() {
    // Chinese text is representable in the legacy code page.
    assert_eq!(gbk_round_trip("\u{6e29}\u{5ea6}"), "\u{6e29}\u{5ea6}");
    assert_eq!(gbk_round_trip("BIT_1 \u{8bbe}\u{5907}"), "BIT_1 \u{8bbe}\u{5907}");
}

#[test]
fn unrepresentable_text_is_substituted_not_rejected() {
    // The crab emoji has no code-page form: encoding succeeds with a
    // substitute, so the round trip returns different text, not an error.
    let round_tripped = gbk_round_trip("\u{1f980}");
    assert_ne!(round_tripped, "\u{1f980}");
    assert!(!round_tripped.is_empty());
    assert!(encode_to_gbk_cstring("\u{1f980}").is_some());
}

#[test]
fn round_trip_matches_encode_then_decode() {
    // The round trip of unrepresentable text is the decoder's reading of the
    // encoder's substitute, not the input handed back unchanged.
    let encoded = encode_to_gbk_cstring("\u{1f980}").unwrap();
    let mut buffer = encoded.clone();
    buffer.push(0);
    let decoded = extract_string_from_buffer(&buffer).unwrap();
    assert_eq!(gbk_round_trip("\u{1f980}"), decoded);
}

#[test]
fn encoding_differs_from_the_host_representation() {
    // The legacy form of Chinese text differs from its host (UTF-8) bytes.
    let text = "\u{6e29}\u{5ea6}";
    let encoded = encode_to_gbk_cstring(text).unwrap();
    assert_eq!(encoded, vec![0xCE, 0xC2, 0xB6, 0xC8]);
    assert_ne!(encoded, text.as_bytes().to_vec());
}

#[test]
fn decoding_maps_legacy_bytes_to_host_text() {
    // The legacy bytes of Chinese text decode to the host text.
    let buffer = vec![0xCE, 0xC2, 0xB6, 0xC8, 0, 0x55];
    let decoded = extract_string_from_buffer(&buffer).unwrap();
    assert_eq!(decoded, "\u{6e29}\u{5ea6}");
}

#[test]
fn extraction_stops_at_the_first_terminator() {
    let buffer = b"Hello World\0Hello Moon\0".to_vec();
    assert_eq!(extract_string_from_buffer(&buffer).unwrap(), "Hello World");
}

#[test]
fn extraction_without_terminator_fails() {
    let buffer = b"Hello World".to_vec();
    let r = extract_string_from_buffer(&buffer);
    assert!(matches!(r, Err(CtApiError::Decoding)));
}

#[test]
fn find_nul_reports_the_first_zero() {
    assert_eq!(find_nul(&[1, 2, 0, 4, 0]), Some(2));
    assert_eq!(find_nul(&[0]), Some(0));
    assert_eq!(find_nul(&[1, 2, 3]), None);
    assert_eq!(find_nul(&[]), None);
}

#[test]
fn encode_rejects_embedded_terminators_only() {
    assert_eq!(encode_to_gbk_cstring("abc").unwrap(), b"abc".to_vec());
    assert!(encode_to_gbk_cstring("ab\0c").is_none());
    assert_eq!(encode_to_gbk_cstring("").unwrap(), Vec::<u8>::new());
}
