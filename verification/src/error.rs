//! The error taxonomy of the proxy core.

use vstd::prelude::*;

verus! {

/// Everything that can go wrong while handling one proxied request.
#[derive(Clone, Copy, PartialEq, Eq, Structural, Debug)]
pub enum ProxyError {
    /// A CONNECT request whose target carries no authority.
    MissingAuthority,
    /// A forward request whose target carries no host.
    MissingHost,
    /// The outbound TCP connection to the target could not be opened.
    ConnectFailed,
    /// The HTTP exchange with the origin failed after connecting.
    ExchangeFailed,
    /// The client connection could not be upgraded to a raw stream.
    UpgradeFailed,
    /// A tunnel side errored while bytes were being relayed.
    TunnelIo,
}

impl ProxyError {
    /// A short description of the error, for logging by the caller.
    pub fn message(&self) -> (r: &'static str)
        ensures
            r@ == self.spec_message(),
    {
        match self {
            ProxyError::MissingAuthority => "missing request authority",
            ProxyError::MissingHost => "uri missing host",
            ProxyError::ConnectFailed => "connect failed",
            ProxyError::ExchangeFailed => "http exchange failed",
            ProxyError::UpgradeFailed => "connection upgrade failed",
            ProxyError::TunnelIo => "tunnel i/o failed",
        }
    }

    /// What `message` returns for each variant.
    pub open spec fn spec_message(self) -> Seq<char> {
        match self {
            ProxyError::MissingAuthority => "missing request authority"@,
            ProxyError::MissingHost => "uri missing host"@,
            ProxyError::ConnectFailed => "connect failed"@,
            ProxyError::ExchangeFailed => "http exchange failed"@,
            ProxyError::UpgradeFailed => "connection upgrade failed"@,
            ProxyError::TunnelIo => "tunnel i/o failed"@,
        }
    }
}

} // verus!
