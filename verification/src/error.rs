//! The closed set of failures a caller of the tunnel client can see.

use vstd::prelude::*;

verus! {

/// Classified failures of the remote API surface and of the certificate
/// issuance flow.
#[derive(Debug)]
pub enum TunnelClientError {
    /// A token-gated operation was attempted while no token is held; no
    /// request was sent.
    MissingToken,
    /// The certificate authority offered no DNS challenge for a domain.
    NoChallengeAvailable,
    /// The tunnel service answered with a status other than the single
    /// success code.
    RejectedRequest { status: u16 },
    /// The request could not be established or completed at all.
    TransportFailure { detail: String },
    /// A success response's body could not be decoded into the expected
    /// shape.
    MalformedResponse { detail: String },
    /// The certificate-authority collaborator reported a protocol failure.
    AcmeProtocolError { detail: String },
}

impl TunnelClientError {
    /// A short, stable name for the error's kind.
    pub fn kind_name(&self) -> (r: &'static str)
        ensures
            r@ == match self {
                TunnelClientError::MissingToken => "missing token"@,
                TunnelClientError::NoChallengeAvailable => "no challenge available"@,
                TunnelClientError::RejectedRequest { .. } => "rejected request"@,
                TunnelClientError::TransportFailure { .. } => "transport failure"@,
                TunnelClientError::MalformedResponse { .. } => "malformed response"@,
                TunnelClientError::AcmeProtocolError { .. } => "acme protocol error"@,
            },
    {
        match self {
            TunnelClientError::MissingToken => "missing token",
            TunnelClientError::NoChallengeAvailable => "no challenge available",
            TunnelClientError::RejectedRequest { .. } => "rejected request",
            TunnelClientError::TransportFailure { .. } => "transport failure",
            TunnelClientError::MalformedResponse { .. } => "malformed response",
            TunnelClientError::AcmeProtocolError { .. } => "acme protocol error",
        }
    }
}

} // verus!
