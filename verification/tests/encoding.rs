use tunnel_client::url_param;

#[test]
fn unreserved_characters_pass_through() {
    assert_eq!(url_param("Abc-123._~xyz"), "Abc-123._~xyz");
}

#[test]
fn reserved_query_characters_are_escaped() {
    assert_eq!(url_param("a&b=c?d e%f"), "a%26b%3Dc%3Fd%20e%25f");
}

#[test]
fn empty_value_stays_empty() {
    assert_eq!(url_param(""), "");
}

#[test]
fn slash_and_hash_are_escaped() {
    assert_eq!(url_param("/path#frag"), "%2Fpath%23frag");
}

#[test]
fn non_ascii_is_escaped_bytewise() {
    // U+00E9 is 0xC3 0xA9 in UTF-8.
    assert_eq!(url_param("caf\u{e9}"), "caf%C3%A9");
}

#[test]
fn plus_and_quote_are_escaped() {
    assert_eq!(url_param("a+b\"c"), "a%2Bb%22c");
}
