//! One outbound HTTP call and the uniform classification of its outcome.

use vstd::prelude::*;

use crate::error::TunnelClientError;

verus! {

/// What a single outbound GET request came back with: a response with its
/// status code and body text, or no response at all.
pub enum HttpOutcome {
    Response { status: u16, body: String },
    Failure { detail: String },
}

/// `reqwest`'s blocking response type, declared so a response can be carried
/// opaquely from the call to the readers of its status and body.
#[verifier::external_type_specification]
#[verifier::external_body]
pub struct ExResponse(reqwest::blocking::Response);

/// Relies on `reqwest::blocking::get`: performs one GET request against the
/// given URL. The outcome depends on the network, so nothing is promised of
/// it beyond the shape of the result.
#[verifier::external_body]
fn http_get(url: &str) -> Result<reqwest::blocking::Response, String> {
    reqwest::blocking::get(url).map_err(|e| format!("{}", e))
}

/// Relies on `reqwest::blocking::Response::status`: reads the response's
/// HTTP status code as its numeric value.
#[verifier::external_body]
fn response_status(resp: &reqwest::blocking::Response) -> u16 {
    resp.status().as_u16()
}

/// Relies on `reqwest::blocking::Response::text`: reads the full response
/// body as text.
#[verifier::external_body]
fn response_text(resp: reqwest::blocking::Response) -> Result<String, String> {
    resp.text().map_err(|e| format!("{}", e))
}

/// Perform exactly one outbound GET request. No retries, no caching: every
/// call is a fresh, independent attempt, and the outcome is whatever the
/// network gave.
pub(crate) fn fetch(url: &str) -> HttpOutcome {
    match http_get(url) {
        Err(detail) => HttpOutcome::Failure { detail },
        Ok(resp) => {
            let status = response_status(&resp);
            match response_text(resp) {
                Ok(body) => HttpOutcome::Response { status, body },
                Err(detail) => HttpOutcome::Failure { detail },
            }
        },
    }
}

/// The HTTP success code: the single status the tunnel service answers with
/// on success.
pub open spec fn success_status() -> u16 {
    200
}

/// Uniform outcome classification: a missing response is a transport
/// failure, a response with any status but the success code is a rejected
/// request, and a success response yields its body.
pub fn classify(outcome: HttpOutcome) -> (r: Result<String, TunnelClientError>)
    ensures
        match outcome {
            HttpOutcome::Failure { detail } => r matches Err(
                TunnelClientError::TransportFailure { detail: d },
            ) && d == detail,
            HttpOutcome::Response { status, body } => if status == success_status() {
                r matches Ok(b) && b == body
            } else {
                r matches Err(TunnelClientError::RejectedRequest { status: s }) && s == status
            },
        },
{
    match outcome {
        HttpOutcome::Failure { detail } => Err(TunnelClientError::TransportFailure { detail }),
        HttpOutcome::Response { status, body } => {
            if status == 200 {
                Ok(body)
            } else {
                Err(TunnelClientError::RejectedRequest { status })
            }
        },
    }
}

} // verus!
