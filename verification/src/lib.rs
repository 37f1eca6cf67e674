//! Client library for a dynamic-DNS tunnel service: percent-encoded endpoint
//! URLs, a token-gated call executor over HTTP, the tunnel's remote API
//! surface, and a certificate-issuance flow over a pair of derived domains.

pub mod api;
pub mod client;
pub mod encode;
pub mod error;
pub mod issuance;
pub mod transport;

pub use client::TunnelClient;
pub use encode::url_param;
pub use error::TunnelClientError;
