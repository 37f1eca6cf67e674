use tunnel_client::TunnelClient;

fn client_without_token() -> TunnelClient {
    TunnelClient::new("http://example.org", None)
}

fn client_with_token(token: &str) -> TunnelClient {
    TunnelClient::new("http://example.org", Some(token.to_string()))
}

#[test]
fn no_parameters_gives_no_query_string() {
    let c = client_without_token();
    assert_eq!(c.get_full_url("ping", &[], false), "http://example.org/ping");
}

#[test]
fn first_parameter_gets_question_mark() {
    let c = client_without_token();
    assert_eq!(
        c.get_full_url("subscribe", &[("name", Some("foo"))], false),
        "http://example.org/subscribe?name=foo"
    );
}

#[test]
fn later_parameters_get_ampersands() {
    let c = client_without_token();
    assert_eq!(
        c.get_full_url("subscribe", &[("name", Some("foo")), ("desc", Some("a b"))], false),
        "http://example.org/subscribe?name=foo&desc=a%20b"
    );
}

#[test]
fn absent_values_are_omitted() {
    let c = client_without_token();
    assert_eq!(
        c.get_full_url("subscribe", &[("name", None), ("desc", Some("d"))], false),
        "http://example.org/subscribe?desc=d"
    );
}

#[test]
fn all_values_absent_gives_no_query_string() {
    let c = client_without_token();
    assert_eq!(
        c.get_full_url("subscribe", &[("name", None), ("desc", None)], false),
        "http://example.org/subscribe"
    );
}

#[test]
fn token_is_appended_last_with_ampersand() {
    let c = client_with_token("secret");
    assert_eq!(
        c.get_full_url("dnsconfig", &[("challenge", Some("v"))], true),
        "http://example.org/dnsconfig?challenge=v&token=secret"
    );
}

#[test]
fn token_alone_gets_question_mark() {
    let c = client_with_token("secret");
    assert_eq!(c.get_full_url("unsubscribe", &[], true), "http://example.org/unsubscribe?token=secret");
}

#[test]
fn token_value_is_percent_encoded() {
    let c = client_with_token("a&b");
    assert_eq!(c.get_full_url("unsubscribe", &[], true), "http://example.org/unsubscribe?token=a%26b");
}

#[test]
fn token_is_not_appended_when_not_requested() {
    let c = client_with_token("secret");
    assert_eq!(
        c.get_full_url("subscribe", &[("name", Some("n"))], false),
        "http://example.org/subscribe?name=n"
    );
}

#[test]
fn token_is_not_appended_when_not_held() {
    let c = client_without_token();
    assert_eq!(c.get_full_url("unsubscribe", &[], true), "http://example.org/unsubscribe");
}

#[test]
fn reserved_characters_in_values_round_trip_under_decoding() {
    let c = client_without_token();
    let url = c.get_full_url("subscribe", &[("name", Some("x=y&z"))], false);
    assert_eq!(url, "http://example.org/subscribe?name=x%3Dy%26z");
    let encoded = &url["http://example.org/subscribe?name=".len()..];
    let mut decoded: Vec<u8> = Vec::new();
    let bytes = encoded.as_bytes();
    let mut i = 0;
    while i < bytes.len() {
        if bytes[i] == b'%' {
            let hi = (bytes[i + 1] as char).to_digit(16).unwrap() as u8;
            let lo = (bytes[i + 2] as char).to_digit(16).unwrap() as u8;
            decoded.push(16 * hi + lo);
            i += 3;
        } else {
            decoded.push(bytes[i]);
            i += 1;
        }
    }
    assert_eq!(decoded, b"x=y&z".to_vec());
}
