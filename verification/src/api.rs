//! The remote API surface: the fixed set of named operations, each a thin
//! typed binding over the call executor, plus the decoding of the typed
//! responses.

use vstd::prelude::*;

use crate::client::TunnelClient;
use crate::error::TunnelClientError;

verus! {

/// The typed response of a successful subscription: the registered name and
/// the freshly issued bearer token.
#[derive(Debug)]
pub struct NameAndToken {
    pub name: String,
    pub token: String,
}

/// What `serde_json` decodes a body into when read as a JSON object whose
/// values are all strings: its field list (keys sorted, duplicates
/// collapsed), or nothing when the body has no such shape. A function of the
/// body text alone.
pub uninterp spec fn json_string_fields(s: Seq<char>) -> Option<Seq<(Seq<char>, Seq<char>)>>;

/// Relies on `serde_json::from_str`: decodes a JSON object with string
/// values into its field list, or hands out the parser's own error text;
/// whether it decodes, and to what, depends on the body text alone.
#[verifier::external_body]
fn decode_string_object(body: &str) -> (r: Result<Vec<(String, String)>, String>)
    ensures
        match r {
            Ok(fields) => json_string_fields(body@) == Option::Some(fields.deep_view()),
            Err(_) => json_string_fields(body@) is None,
        },
{
    match serde_json::from_str::<std::collections::BTreeMap<String, String>>(body) {
        Ok(m) => Ok(m.into_iter().collect()),
        Err(e) => Err(e.to_string()),
    }
}

/// The value under `key`, at its first occurrence in the field list.
pub open spec fn lookup_field(fields: Seq<(Seq<char>, Seq<char>)>, key: Seq<char>) -> Option<
    Seq<char>,
>
    decreases fields.len(),
{
    if fields.len() == 0 {
        Option::None
    } else if fields[0].0 == key {
        Option::Some(fields[0].1)
    } else {
        lookup_field(fields.drop_first(), key)
    }
}

/// How a subscription response body decodes: the `name` and `token` fields
/// of the body read as a JSON object of strings, or nothing when either is
/// missing or the body has another shape.
pub open spec fn decoded_name_and_token(body: Seq<char>) -> Option<(Seq<char>, Seq<char>)> {
    match json_string_fields(body) {
        Option::None => Option::None,
        Option::Some(fields) => match (lookup_field(fields, "name"@), lookup_field(
            fields,
            "token"@,
        )) {
            (Option::Some(n), Option::Some(t)) => Option::Some((n, t)),
            _ => Option::None,
        },
    }
}

/// The value under `key` in the decoded field list, cloned out.
fn lookup(fields: &Vec<(String, String)>, key: &String) -> (r: Option<String>)
    ensures
        match r {
            Option::Some(v) => lookup_field(fields.deep_view(), key@) == Option::Some(v@),
            Option::None => lookup_field(fields.deep_view(), key@) is None,
        },
{
    let ghost fv = fields.deep_view();
    proof {
        assert(fv.skip(0) =~= fv);
    }
    let mut i: usize = 0;
    while i < fields.len()
        invariant
            i <= fv.len(),
            fv == fields.deep_view(),
            fv.len() == fields@.len(),
            lookup_field(fv, key@) == lookup_field(fv.skip(i as int), key@),
        decreases fv.len() - i,
    {
        let pair = &fields[i];
        proof {
            assert(fv.skip(i as int)[0] == fv[i as int]);
            assert(fv[i as int] == (fields@[i as int].0@, fields@[i as int].1@));
        }
        if pair.0 == *key {
            return Some(pair.1.clone());
        }
        proof {
            assert(fv.skip(i as int).drop_first() =~= fv.skip(i + 1 as int));
        }
        i += 1;
    }
    proof {
        assert(fv.skip(i as int) =~= Seq::<(Seq<char>, Seq<char>)>::empty());
    }
    None
}

/// Decode a subscription response body into its name and token fields.
pub fn decode_name_and_token(body: &str) -> (r: Option<NameAndToken>)
    ensures
        match r {
            Option::Some(nt) => decoded_name_and_token(body@) == Option::Some(
                (nt.name@, nt.token@),
            ),
            Option::None => decoded_name_and_token(body@) is None,
        },
{
    match decode_subscription(body) {
        Ok(nt) => Some(nt),
        Err(_) => None,
    }
}

/// A server-info record: the decoded string fields of the service's reply,
/// opaque to this client beyond their decoding.
pub struct ServerInfo {
    pub fields: Vec<(String, String)>,
}

/// A discovery record: the decoded string fields of the service's reply,
/// opaque to this client beyond their decoding.
pub struct Discovered {
    pub fields: Vec<(String, String)>,
}

/// Classify the decoding of a success body into its string fields: an
/// undecodable body is a malformed response.
pub fn decode_record(body: &str) -> (r: Result<Vec<(String, String)>, TunnelClientError>)
    ensures
        match r {
            Ok(fields) => json_string_fields(body@) == Option::Some(fields.deep_view()),
            Err(e) => json_string_fields(body@) is None && e matches
                TunnelClientError::MalformedResponse { .. },
        },
{
    match decode_string_object(body) {
        Ok(fields) => Ok(fields),
        Err(detail) => Err(TunnelClientError::MalformedResponse { detail }),
    }
}

/// Classify the decoding of a subscription success body: an undecodable body
/// is a malformed response carrying the decode error's description.
pub fn decode_subscription(body: &str) -> (r: Result<NameAndToken, TunnelClientError>)
    ensures
        match r {
            Ok(nt) => decoded_name_and_token(body@) == Option::Some((nt.name@, nt.token@)),
            Err(e) => decoded_name_and_token(body@) is None && e matches
                TunnelClientError::MalformedResponse { .. },
        },
{
    match decode_string_object(body) {
        Ok(fields) => {
            let name_key: String = "name".to_owned();
            let token_key: String = "token".to_owned();
            match (lookup(&fields, &name_key), lookup(&fields, &token_key)) {
                (Option::Some(name), Option::Some(token)) => Ok(NameAndToken { name, token }),
                _ => Err(
                    TunnelClientError::MalformedResponse {
                        detail: "the object carries no name and token pair".to_owned(),
                    },
                ),
            }
        },
        Err(detail) => Err(TunnelClientError::MalformedResponse { detail }),
    }
}

impl TunnelClient {
    /// The subscription call as a typed operation: one request, its outcome
    /// classified, its success body decoded into the name and token pair.
    /// Not token-gated, so it never fails for want of a token.
    pub fn call_subscribe(&self, name: &str, description: Option<&str>) -> (r: Result<
        NameAndToken,
        TunnelClientError,
    >)
        ensures
            r matches Err(e) ==> (e matches TunnelClientError::RejectedRequest { .. } || e matches
                TunnelClientError::TransportFailure { .. } || e matches
                TunnelClientError::MalformedResponse { .. }),
    {
        match self.call_body("subscribe", &[("name", Some(name)), ("desc", description)], false) {
            Ok(body) => decode_subscription(body.as_str()),
            Err(e) => Err(e),
        }
    }

    /// Turn a subscription outcome into an identity: a decoded success
    /// yields a new identity carrying this one's base URL and the freshly
    /// issued token; every failure collapses to no identity, with no detail
    /// kept.
    pub fn adopt_subscription(&self, outcome: Result<NameAndToken, TunnelClientError>) -> (r:
        Option<TunnelClient>)
        ensures
            match outcome {
                Ok(nt) => r matches Some(c) && c.tunnel_url@ == self.tunnel_url@ && c.token
                    == Some(nt.token),
                Err(_) => r is None,
            },
    {
        match outcome {
            Ok(nt) => Some(
                TunnelClient { tunnel_url: self.tunnel_url.clone(), token: Some(nt.token) },
            ),
            Err(_) => None,
        }
    }

    /// Subscribe a name to the tunnel service. Not token-gated. On success
    /// this identity is left untouched and a new identity is produced,
    /// carrying the same base URL and the freshly issued token; every
    /// failure collapses to no result. How the result adopts the call's
    /// outcome is `adopt_subscription`'s contract.
    pub fn subscribe(&self, name: &str, description: Option<&str>) -> (r: Option<TunnelClient>)
        ensures
            r matches Some(c) ==> c.tunnel_url@ == self.tunnel_url@ && c.token is Some,
    {
        let outcome = self.call_subscribe(name, description);
        self.adopt_subscription(outcome)
    }

    /// Fetch the server-info record. Token-gated. A success is always the
    /// decoding of some response body.
    pub fn info(&self) -> (r: Result<ServerInfo, TunnelClientError>)
        ensures
            self.token is None <==> r matches Err(TunnelClientError::MissingToken),
            r matches Ok(s) ==> exists|b: Seq<char>|
                #[trigger] json_string_fields(b) == Option::Some(s.fields.deep_view()),
            r matches Err(e) ==> (e matches TunnelClientError::MissingToken || e matches
                TunnelClientError::RejectedRequest { .. } || e matches
                TunnelClientError::TransportFailure { .. } || e matches
                TunnelClientError::MalformedResponse { .. }),
    {
        match self.call_body("info", &[], true) {
            Ok(body) => match decode_record(body.as_str()) {
                Ok(fields) => {
                    proof {
                        assert(json_string_fields(body@) == Option::Some(fields.deep_view()));
                    }
                    Ok(ServerInfo { fields })
                },
                Err(e) => Err(e),
            },
            Err(e) => Err(e),
        }
    }

    /// Fetch the discovery record. Token-gated. A success is always the
    /// decoding of some response body.
    pub fn ping(&self) -> (r: Result<Discovered, TunnelClientError>)
        ensures
            self.token is None <==> r matches Err(TunnelClientError::MissingToken),
            r matches Ok(d) ==> exists|b: Seq<char>|
                #[trigger] json_string_fields(b) == Option::Some(d.fields.deep_view()),
            r matches Err(e) ==> (e matches TunnelClientError::MissingToken || e matches
                TunnelClientError::RejectedRequest { .. } || e matches
                TunnelClientError::TransportFailure { .. } || e matches
                TunnelClientError::MalformedResponse { .. }),
    {
        match self.call_body("ping", &[], true) {
            Ok(body) => match decode_record(body.as_str()) {
                Ok(fields) => {
                    proof {
                        assert(json_string_fields(body@) == Option::Some(fields.deep_view()));
                    }
                    Ok(Discovered { fields })
                },
                Err(e) => Err(e),
            },
            Err(e) => Err(e),
        }
    }

    /// Drop this identity's subscription. Token-gated.
    pub fn unsubscribe(&self) -> (r: Result<(), TunnelClientError>)
        ensures
            self.token is None <==> r matches Err(TunnelClientError::MissingToken),
            r matches Err(e) ==> (e matches TunnelClientError::MissingToken || e matches
                TunnelClientError::RejectedRequest { .. } || e matches
                TunnelClientError::TransportFailure { .. }),
    {
        self.call_empty("unsubscribe", &[], true)
    }

    /// Register the local address under the subscribed name. Token-gated.
    pub fn register(&self, local_ip: &str) -> (r: Result<(), TunnelClientError>)
        ensures
            self.token is None <==> r matches Err(TunnelClientError::MissingToken),
            r matches Err(e) ==> (e matches TunnelClientError::MissingToken || e matches
                TunnelClientError::RejectedRequest { .. } || e matches
                TunnelClientError::TransportFailure { .. }),
    {
        self.call_empty("register", &[("local_ip", Some(local_ip))], true)
    }

    /// Publish a DNS challenge value through the tunnel service. Token-gated.
    pub fn dnsconfig(&self, challenge: &str) -> (r: Result<(), TunnelClientError>)
        ensures
            self.token is None <==> r matches Err(TunnelClientError::MissingToken),
            r matches Err(e) ==> (e matches TunnelClientError::MissingToken || e matches
                TunnelClientError::RejectedRequest { .. } || e matches
                TunnelClientError::TransportFailure { .. }),
    {
        self.call_empty("dnsconfig", &[("challenge", Some(challenge))], true)
    }

    /// Publish a discovery value. Token-gated.
    pub fn adddiscovery(&self, disco: &str) -> (r: Result<(), TunnelClientError>)
        ensures
            self.token is None <==> r matches Err(TunnelClientError::MissingToken),
            r matches Err(e) ==> (e matches TunnelClientError::MissingToken || e matches
                TunnelClientError::RejectedRequest { .. } || e matches
                TunnelClientError::TransportFailure { .. }),
    {
        self.call_empty("adddiscovery", &[("disco", Some(disco))], true)
    }

    /// Revoke a discovery value. Token-gated. The remote path is the same as
    /// the one `adddiscovery` uses: the service's contract, kept as it is.
    pub fn revokediscovery(&self, disco: &str) -> (r: Result<(), TunnelClientError>)
        ensures
            self.token is None <==> r matches Err(TunnelClientError::MissingToken),
            r matches Err(e) ==> (e matches TunnelClientError::MissingToken || e matches
                TunnelClientError::RejectedRequest { .. } || e matches
                TunnelClientError::TransportFailure { .. }),
    {
        self.call_empty("adddiscovery", &[("disco", Some(disco))], true)
    }

    /// Set the account's email address. Token-gated.
    pub fn setemail(&self, email: &str) -> (r: Result<(), TunnelClientError>)
        ensures
            self.token is None <==> r matches Err(TunnelClientError::MissingToken),
            r matches Err(e) ==> (e matches TunnelClientError::MissingToken || e matches
                TunnelClientError::RejectedRequest { .. } || e matches
                TunnelClientError::TransportFailure { .. }),
    {
        self.call_empty("setemail", &[("email", Some(email))], true)
    }

    /// Revoke the account's email address. Token-gated.
    pub fn revokeemail(&self, email: &str) -> (r: Result<(), TunnelClientError>)
        ensures
            self.token is None <==> r matches Err(TunnelClientError::MissingToken),
            r matches Err(e) ==> (e matches TunnelClientError::MissingToken || e matches
                TunnelClientError::RejectedRequest { .. } || e matches
                TunnelClientError::TransportFailure { .. }),
    {
        self.call_empty("revokeemail", &[("email", Some(email))], true)
    }
}

} // verus!

