use klaver_wintertc::encoding::text_codec::{TextDecoder, TextEncoder, UnknownEncoding};

#[test]
fn text_encoder_defaults_to_utf8() {
    let encoder = TextEncoder::new(None).unwrap();
    assert_eq!(encoder.encoding(), "utf-8");
}

#[test]
fn text_encoder_encodes_multibyte_utf8() {
    let bytes = TextEncoder::new(None).unwrap().encode("é");
    assert_eq!(bytes, vec![0xc3, 0xa9]);
}

#[test]
fn text_decoder_defaults_to_utf8() {
    let decoder = TextDecoder::new(None).unwrap();
    assert_eq!(decoder.encoding(), "utf-8");
}

#[test]
fn round_trips_through_encoder_and_decoder() {
    let bytes = TextEncoder::new(None).unwrap().encode("hello world");
    let text = TextDecoder::new(None).unwrap().decode(&bytes);
    assert_eq!(text, "hello world");
}

#[test]
fn decoder_accepts_an_array_buffer_too() {
    let buf = TextEncoder::new(None).unwrap().encode("hi");
    assert_eq!(TextDecoder::new(None).unwrap().decode(buf.as_slice()), "hi");
}

#[test]
fn decoder_label_is_case_insensitive_and_normalizes_aliases() {
    assert_eq!(TextDecoder::new(Some("UTF8")).unwrap().encoding(), "utf-8");
}

#[test]
fn decoder_rejects_unknown_label() {
    assert!(matches!(TextDecoder::new(Some("not-a-real-encoding")), Err(UnknownEncoding)));
}

#[test]
fn encoder_rejects_unknown_label() {
    assert!(matches!(TextEncoder::new(Some("not-a-real-encoding")), Err(UnknownEncoding)));
}

#[test]
fn decoder_replaces_malformed_input_and_other_encodings_work() {
    assert_eq!(TextDecoder::new(None).unwrap().decode(&[0x61, 0xff]), "a\u{fffd}");
    let latin = TextDecoder::new(Some("latin1")).unwrap();
    assert_eq!(latin.encoding(), "windows-1252");
    assert_eq!(latin.decode(&[0xe9]), "é");
    // UTF-16 labels encode as UTF-8 (the output encoding).
    let e16 = TextEncoder::new(Some("utf-16le")).unwrap();
    assert_eq!(e16.encoding(), "utf-8");
    assert_eq!(e16.encode("é"), vec![0xc3, 0xa9]);
}

#[test]
fn utf8_decoder_gives_back_what_the_encoder_wrote() {
    let enc = TextEncoder::new(None).unwrap();
    let dec = TextDecoder::new(Some("utf-8")).unwrap();
    for text in ["", "hi", "héllo wörld", "日本語", "emoji 😀", "a\u{FEFF}b"] {
        assert_eq!(dec.decode(&enc.encode(text)), text);
    }
    // A leading U+FEFF is taken for a byte-order mark and dropped.
    assert_eq!(dec.decode(&enc.encode("\u{FEFF}x")), "x");
}
