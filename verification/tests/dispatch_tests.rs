use proxy_core::dispatch::{
    connect_ack, connect_setup, dispatch, plan_forward, relay_response, route, Decision, Header,
    RequestHead, ResponseHead, ReqKind,
};
use proxy_core::error::ProxyError;
use proxy_core::tunnel::Phase;

#[test]
fn forward_with_explicit_port() {
    let d = dispatch(ReqKind::Other, "http://example.com:8080/path?q=1");
    match d {
        Decision::ForwardTo { host, port } => {
            assert_eq!(host, "example.com");
            assert_eq!(port, 8080);
        }
        _ => panic!("expected a forward decision"),
    }
}

#[test]
fn forward_defaults_port_to_80() {
    let d = dispatch(ReqKind::Other, "http://example.com/hello/world");
    match d {
        Decision::ForwardTo { host, port } => {
            assert_eq!(host, "example.com");
            assert_eq!(port, 80);
        }
        _ => panic!("expected a forward decision"),
    }
}

#[test]
fn forward_without_host_is_rejected() {
    // A relative target has no host: error outcome, and the decision names
    // no target, so no outbound connection can be attempted.
    let d = dispatch(ReqKind::Other, "/hello/world");
    match d {
        Decision::Reject { error } => assert_eq!(error, ProxyError::MissingHost),
        _ => panic!("expected a rejection"),
    }
}

#[test]
fn forward_with_unparsable_target_is_rejected() {
    let d = dispatch(ReqKind::Other, "http://exa mple.com/");
    match d {
        Decision::Reject { error } => assert_eq!(error, ProxyError::MissingHost),
        _ => panic!("expected a rejection"),
    }
}

#[test]
fn connect_with_authority_opens_tunnel() {
    let d = dispatch(ReqKind::Connect, "example.com:443");
    match d {
        Decision::OpenTunnel { authority } => assert_eq!(authority, "example.com:443"),
        _ => panic!("expected a tunnel decision"),
    }
}

#[test]
fn connect_authority_is_extracted_not_echoed() {
    // The authority component differs from the target text, so an extractor
    // that handed its input back unchanged would fail here.
    let d = dispatch(ReqKind::Connect, "http://example.org:123/path/data?k=v");
    match d {
        Decision::OpenTunnel { authority } => assert_eq!(authority, "example.org:123"),
        _ => panic!("expected a tunnel decision"),
    }
}

#[test]
fn host_is_extracted_not_echoed() {
    let d = dispatch(ReqKind::Other, "http://example.org:80/hello/world");
    match d {
        Decision::ForwardTo { host, port } => {
            assert_eq!(host, "example.org");
            assert_eq!(port, 80);
        }
        _ => panic!("expected a forward decision"),
    }
}

#[test]
fn connect_without_authority_is_rejected() {
    let d = dispatch(ReqKind::Connect, "/no/authority/here");
    match d {
        Decision::Reject { error } => assert_eq!(error, ProxyError::MissingAuthority),
        _ => panic!("expected a rejection"),
    }
}

#[test]
fn route_uses_resolved_parts() {
    let d = route(
        ReqKind::Other,
        None,
        Some(String::from("origin.test")),
        Some(3128),
    );
    match d {
        Decision::ForwardTo { host, port } => {
            assert_eq!(host, "origin.test");
            assert_eq!(port, 3128);
        }
        _ => panic!("expected a forward decision"),
    }
    let d = route(ReqKind::Connect, None, None, None);
    match d {
        Decision::Reject { error } => assert_eq!(error, ProxyError::MissingAuthority),
        _ => panic!("expected a rejection"),
    }
}

#[test]
fn connect_ack_is_200_and_empty() {
    let ack = connect_ack();
    assert_eq!(ack.status, 200);
    assert!(ack.headers.is_empty());
    assert!(ack.body.is_empty());
}

#[test]
fn connect_setup_produces_ack_and_fresh_tunnel() {
    let c = connect_setup(String::from("example.com:443"));
    assert_eq!(c.authority, "example.com:443");
    assert_eq!(c.ack.status, 200);
    assert!(c.ack.headers.is_empty());
    assert!(c.ack.body.is_empty());
    assert_eq!(c.tunnel.phase(), Phase::AwaitingUpgrade);
}

#[test]
fn forward_plan_preserves_request_exactly() {
    let request = RequestHead {
        method: String::from("GET"),
        target: String::from("http://origin.test:8080/a"),
        headers: vec![
            Header { name: String::from("X-CaSe-SeNsItIvE"), value: String::from("one") },
            Header { name: String::from("Accept"), value: String::from("*/*") },
            Header { name: String::from("x-case-sensitive"), value: String::from("two") },
        ],
    };
    let p = plan_forward(String::from("origin.test"), 8080, request);
    assert_eq!(p.host, "origin.test");
    assert_eq!(p.port, 8080);
    assert_eq!(p.addr, "origin.test:8080");
    assert_eq!(p.request.method, "GET");
    assert_eq!(p.request.target, "http://origin.test:8080/a");
    assert_eq!(p.request.headers.len(), 3);
    assert_eq!(p.request.headers[0].name, "X-CaSe-SeNsItIvE");
    assert_eq!(p.request.headers[0].value, "one");
    assert_eq!(p.request.headers[1].name, "Accept");
    assert_eq!(p.request.headers[2].name, "x-case-sensitive");
    assert_eq!(p.request.headers[2].value, "two");
}

#[test]
fn relay_response_is_verbatim() {
    let origin = ResponseHead {
        status: 503,
        headers: vec![
            Header { name: String::from("SeRvEr"), value: String::from("origin/1") },
            Header { name: String::from("Content-Length"), value: String::from("2") },
        ],
        body: vec![b'n', b'o'],
    };
    let r = relay_response(origin);
    assert_eq!(r.status, 503);
    assert_eq!(r.headers.len(), 2);
    assert_eq!(r.headers[0].name, "SeRvEr");
    assert_eq!(r.headers[0].value, "origin/1");
    assert_eq!(r.headers[1].name, "Content-Length");
    assert_eq!(r.body, vec![b'n', b'o']);
}

#[test]
fn error_messages() {
    assert_eq!(ProxyError::MissingAuthority.message(), "missing request authority");
    assert_eq!(ProxyError::MissingHost.message(), "uri missing host");
    assert_eq!(ProxyError::ConnectFailed.message(), "connect failed");
    assert_eq!(ProxyError::ExchangeFailed.message(), "http exchange failed");
    assert_eq!(ProxyError::UpgradeFailed.message(), "connection upgrade failed");
    assert_eq!(ProxyError::TunnelIo.message(), "tunnel i/o failed");
}
