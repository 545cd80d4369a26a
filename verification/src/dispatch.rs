//! Request dispatch: classify one inbound request, resolve its target, and
//! produce what each handler owes the client — the CONNECT acknowledgment
//! and a fresh tunnel, or the plan for one forward exchange. All network I/O
//! is the caller's; every decision is made and proved here.

use vstd::prelude::*;

use crate::addr::{make_addr, spec_addr};
use crate::error::ProxyError;
use crate::target::{
    authority_of, authority_of_target, host_of, host_of_target, port_of, port_of_target,
};
use crate::tunnel::{init_view, Tunnel};

verus! {

/// The port used for a forward request whose target names none.
pub const DEFAULT_HTTP_PORT: u16 = 80;

/// How the dispatcher classifies a request: CONNECT asks for a byte tunnel,
/// every other method is forwarded as plain HTTP.
#[derive(Clone, Copy, PartialEq, Eq, Structural, Debug)]
pub enum ReqKind {
    Connect,
    Other,
}

/// The dispatcher's decision for one request. Only the two accepting
/// variants name a target: a rejected request attempts no outbound
/// connection.
pub enum Decision {
    /// Acknowledge with 200, then tunnel raw bytes to `authority`.
    OpenTunnel { authority: String },
    /// Forward the request over one new connection to `host`:`port`.
    ForwardTo { host: String, port: u16 },
    /// The request is rejected before anything is opened or sent.
    Reject { error: ProxyError },
}

/// The port a forward request resolves to: the explicit one, or 80.
pub open spec fn effective_port(port: Option<u16>) -> u16 {
    match port {
        Some(p) => p,
        None => DEFAULT_HTTP_PORT,
    }
}

/// Route one classified request from the resolved parts of its target:
/// CONNECT needs an authority, anything else needs a host; a missing part is
/// the matching rejection and nothing is opened.
pub fn route(
    kind: ReqKind,
    authority: Option<String>,
    host: Option<String>,
    port: Option<u16>,
) -> (d: Decision)
    ensures
        kind == ReqKind::Connect && authority is Some ==> d == (Decision::OpenTunnel {
            authority: authority.unwrap(),
        }),
        kind == ReqKind::Connect && authority is None ==> d == (Decision::Reject {
            error: ProxyError::MissingAuthority,
        }),
        kind == ReqKind::Other && host is Some ==> d == (Decision::ForwardTo {
            host: host.unwrap(),
            port: effective_port(port),
        }),
        kind == ReqKind::Other && host is None ==> d == (Decision::Reject {
            error: ProxyError::MissingHost,
        }),
{
    match kind {
        ReqKind::Connect => match authority {
            Some(a) => Decision::OpenTunnel { authority: a },
            None => Decision::Reject { error: ProxyError::MissingAuthority },
        },
        ReqKind::Other => match host {
            Some(h) => Decision::ForwardTo {
                host: h,
                port: match port {
                    Some(p) => p,
                    None => DEFAULT_HTTP_PORT,
                },
            },
            None => Decision::Reject { error: ProxyError::MissingHost },
        },
    }
}

/// Dispatch one request by method and target text: resolve the target with
/// hyper's URI parser and route. The decision is exactly what `route` says
/// of the resolved parts.
pub fn dispatch(kind: ReqKind, target: &str) -> (d: Decision)
    ensures
        kind == ReqKind::Connect && authority_of(target@) is Some ==> (d matches
            Decision::OpenTunnel { authority } && authority@ == authority_of(target@).unwrap()),
        kind == ReqKind::Connect && authority_of(target@) is None ==> d == (Decision::Reject {
            error: ProxyError::MissingAuthority,
        }),
        kind == ReqKind::Other && host_of(target@) is Some ==> (d matches Decision::ForwardTo {
            host,
            port,
        } && host@ == host_of(target@).unwrap() && port == effective_port(port_of(target@))),
        kind == ReqKind::Other && host_of(target@) is None ==> d == (Decision::Reject {
            error: ProxyError::MissingHost,
        }),
{
    match kind {
        ReqKind::Connect => {
            let authority = authority_of_target(target);
            route(kind, authority, None, None)
        },
        ReqKind::Other => {
            let host = host_of_target(target);
            let port = port_of_target(target);
            route(kind, None, host, port)
        },
    }
}

/// One HTTP header, name case and position preserved exactly as received.
pub struct Header {
    pub name: String,
    pub value: String,
}

/// The head of a request as the forward handler sees it.
pub struct RequestHead {
    pub method: String,
    pub target: String,
    /// In received order; names keep their case.
    pub headers: Vec<Header>,
}

/// The head and body of a response the proxy hands to the client.
pub struct ResponseHead {
    pub status: u16,
    /// In origin order; names keep their case.
    pub headers: Vec<Header>,
    pub body: Vec<u8>,
}

/// The CONNECT acknowledgment: status 200, no headers, empty body.
pub fn connect_ack() -> (r: ResponseHead)
    ensures
        r.status == 200,
        r.headers@.len() == 0,
        r.body@.len() == 0,
{
    ResponseHead { status: 200, headers: Vec::new(), body: Vec::new() }
}

/// What the CONNECT handler owes once the authority is known: the
/// acknowledgment for the client and the tunnel the background task will
/// drive.
pub struct ConnectSetup {
    /// Where the tunnel's outbound connection goes, verbatim from the
    /// request target.
    pub authority: String,
    /// Returned to the client at once, before any tunnel event exists.
    pub ack: ResponseHead,
    /// Fresh: still awaiting the upgrade, nothing relayed.
    pub tunnel: Tunnel,
}

/// Set up a CONNECT: the 200 acknowledgment is produced here, synchronously,
/// together with a fresh tunnel toward `authority` — before the upgrade, the
/// outbound connect, or any relayed byte.
pub fn connect_setup(authority: String) -> (c: ConnectSetup)
    ensures
        c.authority == authority,
        c.ack.status == 200,
        c.ack.headers@.len() == 0,
        c.ack.body@.len() == 0,
        c.tunnel@ == init_view(),
{
    ConnectSetup { authority, ack: connect_ack(), tunnel: Tunnel::new() }
}

/// Everything the forward handler hands the exchange: one target address and
/// the request exactly as received.
pub struct ForwardPlan {
    pub host: String,
    pub port: u16,
    /// The connector's `host:port` string.
    pub addr: String,
    /// Unchanged: method, target, and every header with its case and place.
    pub request: RequestHead,
}

/// Plan one forward exchange to a resolved host and port. The request passes
/// through untouched — same method, same target, same headers in the same
/// order with the same casing — and exactly one target address is named.
pub fn plan_forward(host: String, port: u16, request: RequestHead) -> (p: ForwardPlan)
    ensures
        p.host == host,
        p.port == port,
        p.addr@ == spec_addr(host@, port),
        p.request == request,
{
    let addr = make_addr(host.as_str(), port);
    ForwardPlan { host, port, addr, request }
}

/// The forward handler's answer: the origin's response, verbatim. The proxy
/// adds nothing, removes nothing, and reorders nothing.
pub fn relay_response(origin: ResponseHead) -> (r: ResponseHead)
    ensures
        r == origin,
{
    origin
}

} // verus!
