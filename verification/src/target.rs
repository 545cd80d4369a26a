//! What a request target names: its authority, host and port, as hyper's URI
//! parser finds them. The parser itself is outside code; its results are
//! given names here and everything downstream is proved against those names.

use vstd::prelude::*;

verus! {

/// The authority component (`host[:port]`, possibly with userinfo) that
/// hyper's URI parser finds in a request target, as text; `None` when the
/// target does not parse or carries no authority.
pub uninterp spec fn authority_of(target: Seq<char>) -> Option<Seq<char>>;

/// The host that hyper's URI parser finds in a request target; `None` when
/// the target does not parse or carries no authority.
pub uninterp spec fn host_of(target: Seq<char>) -> Option<Seq<char>>;

/// The explicit port that hyper's URI parser finds in a request target;
/// `None` when the target does not parse or names no port.
pub uninterp spec fn port_of(target: Seq<char>) -> Option<u16>;

/// Relies on http's `Uri::from_str` and `Uri::authority`: both are functions
/// of the target text alone, and `authority` returns the authority component
/// exactly when the parsed target has one.
#[verifier::external_body]
pub(crate) fn authority_of_target(target: &str) -> (r: Option<String>)
    ensures
        r is Some <==> authority_of(target@) is Some,
        r matches Some(a) ==> authority_of(target@) == Some(a@),
{
    match target.parse::<hyper::Uri>() {
        Ok(u) => u.authority().map(|a| a.as_str().to_string()),
        Err(_) => None,
    }
}

/// Relies on http's `Uri::from_str` and `Uri::host`: both are functions of
/// the target text alone, and `host` returns the host subcomponent of the
/// authority exactly when the parsed target has one.
#[verifier::external_body]
pub(crate) fn host_of_target(target: &str) -> (r: Option<String>)
    ensures
        r is Some <==> host_of(target@) is Some,
        r matches Some(h) ==> host_of(target@) == Some(h@),
{
    match target.parse::<hyper::Uri>() {
        Ok(u) => u.host().map(|h| h.to_string()),
        Err(_) => None,
    }
}

/// Relies on http's `Uri::from_str` and `Uri::port_u16`: both are functions
/// of the target text alone, and `port_u16` returns the port number exactly
/// when the parsed target names one.
#[verifier::external_body]
pub(crate) fn port_of_target(target: &str) -> (r: Option<u16>)
    ensures
        r == port_of(target@),
{
    match target.parse::<hyper::Uri>() {
        Ok(u) => u.port_u16(),
        Err(_) => None,
    }
}

} // verus!
