use moat::url_text::url_encode;

#[test]
fn leaves_unreserved_characters() {
    assert_eq!(url_encode("AZaz09-._~"), "AZaz09-._~");
    assert_eq!(url_encode(""), "");
}

#[test]
fn encodes_reserved_characters_with_upper_case_hex() {
    assert_eq!(url_encode("a b&c/d?e=f#g"), "a%20b%26c%2Fd%3Fe%3Df%23g");
    assert_eq!(url_encode("%"), "%25");
}

#[test]
fn encodes_each_utf8_byte() {
    assert_eq!(url_encode("é"), "%C3%A9");
    assert_eq!(url_encode("🏰"), "%F0%9F%8F%B0");
}
