use tunnel_client::api::decode_name_and_token;
use tunnel_client::api::decode_record;
use tunnel_client::api::decode_subscription;
use tunnel_client::api::NameAndToken;
use tunnel_client::transport::{classify, HttpOutcome};
use tunnel_client::{TunnelClient, TunnelClientError};

fn tokenless() -> TunnelClient {
    TunnelClient::new("http://127.0.0.1:1", None)
}

fn with_token() -> TunnelClient {
    TunnelClient::new("http://127.0.0.1:1", Some("tok".to_string()))
}

#[test]
fn token_gated_operations_fail_fast_without_token() {
    let c = tokenless();
    assert!(matches!(c.unsubscribe(), Err(TunnelClientError::MissingToken)));
    assert!(matches!(c.register("10.0.0.1"), Err(TunnelClientError::MissingToken)));
    assert!(matches!(c.dnsconfig("challenge"), Err(TunnelClientError::MissingToken)));
    assert!(matches!(c.adddiscovery("d"), Err(TunnelClientError::MissingToken)));
    assert!(matches!(c.revokediscovery("d"), Err(TunnelClientError::MissingToken)));
    assert!(matches!(c.setemail("a@b.c"), Err(TunnelClientError::MissingToken)));
    assert!(matches!(c.revokeemail("a@b.c"), Err(TunnelClientError::MissingToken)));
    assert!(matches!(c.lets_encrypt("example.com", "foo"), Err(TunnelClientError::MissingToken)));
}

#[test]
fn unreachable_service_is_a_transport_failure() {
    // Nothing listens on port 1: the connection is refused before any HTTP
    // exchange, which the executor classifies as a transport failure.
    let c = with_token();
    assert!(matches!(c.unsubscribe(), Err(TunnelClientError::TransportFailure { .. })));
}

#[test]
fn subscribe_does_not_mutate_the_identity() {
    let c = tokenless();
    let result = c.subscribe("foo", None);
    // The service is unreachable, so no new identity is issued; the original
    // identity is untouched either way.
    assert!(result.is_none());
    assert!(c.token.is_none());
    assert_eq!(c.tunnel_url, "http://127.0.0.1:1");
}

#[test]
fn status_404_is_a_rejected_request() {
    let out = HttpOutcome::Response { status: 404, body: String::new() };
    assert!(matches!(classify(out), Err(TunnelClientError::RejectedRequest { status: 404 })));
}

#[test]
fn status_500_is_a_rejected_request() {
    let out = HttpOutcome::Response { status: 500, body: "oops".to_string() };
    assert!(matches!(classify(out), Err(TunnelClientError::RejectedRequest { status: 500 })));
}

#[test]
fn status_200_yields_the_body() {
    let out = HttpOutcome::Response { status: 200, body: "hello".to_string() };
    assert_eq!(classify(out).unwrap(), "hello");
}

#[test]
fn missing_response_is_a_transport_failure() {
    let out = HttpOutcome::Failure { detail: "connection refused".to_string() };
    match classify(out) {
        Err(TunnelClientError::TransportFailure { detail }) => {
            assert_eq!(detail, "connection refused");
        }
        other => panic!("expected a transport failure, got {:?}", other),
    }
}

#[test]
fn subscription_body_decodes_to_name_and_token() {
    let nt = decode_name_and_token("{\"name\":\"foo\",\"token\":\"abc123\"}").unwrap();
    assert_eq!(nt.name, "foo");
    assert_eq!(nt.token, "abc123");
}

#[test]
fn subscription_body_field_order_does_not_matter() {
    let nt = decode_name_and_token("{\"token\":\"abc123\",\"name\":\"foo\"}").unwrap();
    assert_eq!(nt.name, "foo");
    assert_eq!(nt.token, "abc123");
}

#[test]
fn undecodable_body_is_a_malformed_response() {
    assert!(matches!(
        decode_subscription("not json at all"),
        Err(TunnelClientError::MalformedResponse { .. })
    ));
    assert!(matches!(
        decode_subscription("{\"name\":\"foo\"}"),
        Err(TunnelClientError::MalformedResponse { .. })
    ));
    assert!(matches!(
        decode_subscription("{\"name\":\"foo\",\"token\":3}"),
        Err(TunnelClientError::MalformedResponse { .. })
    ));
}

#[test]
fn typed_operations_fail_fast_without_token() {
    let c = tokenless();
    assert!(matches!(c.info(), Err(TunnelClientError::MissingToken)));
    assert!(matches!(c.ping(), Err(TunnelClientError::MissingToken)));
}

#[test]
fn record_bodies_decode_to_their_fields() {
    let fields = decode_record("{\"href\":\"http://x\",\"desc\":\"a box\"}").unwrap();
    assert_eq!(fields.len(), 2);
    assert!(fields.contains(&("href".to_string(), "http://x".to_string())));
    assert!(fields.contains(&("desc".to_string(), "a box".to_string())));
    assert!(matches!(
        decode_record("[1,2]"),
        Err(TunnelClientError::MalformedResponse { .. })
    ));
}

#[test]
fn a_decoded_subscription_becomes_a_new_identity() {
    let c = tokenless();
    let outcome = Ok(NameAndToken { name: "foo".to_string(), token: "abc123".to_string() });
    let issued = c.adopt_subscription(outcome).unwrap();
    assert_eq!(issued.tunnel_url, "http://127.0.0.1:1");
    assert_eq!(issued.token, Some("abc123".to_string()));
    // The identity the subscription was made with is untouched.
    assert!(c.token.is_none());
}

#[test]
fn a_failed_subscription_becomes_no_identity() {
    let c = tokenless();
    assert!(c
        .adopt_subscription(Err(TunnelClientError::RejectedRequest { status: 404 }))
        .is_none());
    assert!(c
        .adopt_subscription(Err(TunnelClientError::TransportFailure {
            detail: "refused".to_string(),
        }))
        .is_none());
}

#[test]
fn malformed_response_carries_the_decode_error() {
    match decode_subscription("not json at all") {
        Err(TunnelClientError::MalformedResponse { detail }) => {
            assert!(!detail.is_empty());
        }
        other => panic!("expected a malformed response, got {:?}", other),
    }
}

#[test]
fn kind_names_are_stable() {
    assert_eq!(TunnelClientError::MissingToken.kind_name(), "missing token");
    assert_eq!(
        TunnelClientError::RejectedRequest { status: 404 }.kind_name(),
        "rejected request"
    );
}
