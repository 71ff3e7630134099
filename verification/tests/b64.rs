use klaver_wintertc::encoding::b64::{atob, btoa, B64Error};

#[test]
fn btoa_encodes_known_vector() {
    assert_eq!(btoa("Hello, World!").unwrap(), "SGVsbG8sIFdvcmxkIQ==");
}

#[test]
fn atob_decodes_known_vector() {
    assert_eq!(atob("SGVsbG8sIFdvcmxkIQ==").unwrap(), "Hello, World!");
}

#[test]
fn round_trips_through_btoa_and_atob() {
    let original = "the quick brown fox";
    assert_eq!(atob(&btoa(original).unwrap()).unwrap(), original);
    let binary = "\u{0}\u{7f}\u{80}\u{ff}é";
    assert_eq!(atob(&btoa(binary).unwrap()).unwrap(), binary);
}

#[test]
fn atob_strips_ascii_whitespace() {
    assert_eq!(atob(" SGVs bG8s\tIFdv\ncmxk IQ==\r\n").unwrap(), "Hello, World!");
    assert_eq!(atob("SGVs\u{0c}bG8=").unwrap(), "Hello");
}

#[test]
fn atob_rejects_invalid_base64() {
    assert_eq!(atob("not valid base64!!!"), Err(B64Error::InvalidBase64));
}

#[test]
fn btoa_rejects_characters_outside_latin1() {
    assert_eq!(btoa("emoji \u{1F600}"), Err(B64Error::OutsideLatin1));
    assert_eq!(btoa("\u{100}"), Err(B64Error::OutsideLatin1));
}

#[test]
fn atob_maps_each_byte_to_one_character() {
    assert_eq!(atob("/w==").unwrap(), "\u{ff}");
    assert_eq!(btoa("\u{ff}").unwrap(), "/w==");
    assert_eq!(btoa("").unwrap(), "");
    assert_eq!(atob("").unwrap(), "");
}
