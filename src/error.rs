use vstd::prelude::*;

verus! {

/// Failure classes of the client core.
#[derive(Clone, Copy, Debug, PartialEq, Eq, Structural)]
pub enum ClientError {
    /// Malformed host configuration, or missing/unreadable certificate files.
    Config,
    /// A path or host that does not compose into a well-formed URI.
    Uri,
    /// Connection refused, reset or timed out.
    Connection,
    /// TLS handshake or certificate validation failure.
    Tls,
    /// Non-success status, or a response body that does not decode.
    Protocol,
    /// Attach requested against a container that is not running.
    ContainerState,
    /// The input device is not an interactive terminal.
    Terminal,
    /// A read or write failed in the middle of an attach session.
    Stream,
}

impl ClientError {
    /// A short human-readable description of the failure class.
    pub fn message(&self) -> (r: &'static str) {
        match self {
            ClientError::Config => "configuration error",
            ClientError::Uri => "malformed URI",
            ClientError::Connection => "connection error",
            ClientError::Tls => "TLS error",
            ClientError::Protocol => "protocol error",
            ClientError::ContainerState => "container is not running",
            ClientError::Terminal => "input is not an interactive terminal",
            ClientError::Stream => "stream interrupted",
        }
    }
}

} // verus!
