use hudsucker::dispatch::{
    connect_ack, is_connect, is_upgrade_request, plan_request, reject_response,
    should_suppress_error, sniff, Exchange, Phase, RequestAction, SniffDecision, TunnelBranch,
};
use hudsucker::model::{
    Header, Message, ProtocolError, Request, RequestOrResponse, Response, Uri, Version,
};
use hudsucker::model::{Address, HttpContext, WebSocketContext};
use hudsucker::uri::{prepare_tunnel_request, tunnel_authority, websocket_uri};
use hudsucker::{HttpHandler, WebSocketHandler};

#[derive(Clone)]
struct NoopHandler;

impl HttpHandler for NoopHandler {}

#[derive(Clone)]
struct NoopMessageHandler;

impl WebSocketHandler for NoopMessageHandler {}

fn header(name: &[u8], value: &[u8]) -> Header {
    Header { name: name.to_vec(), value: value.to_vec() }
}

fn plain_request(method: &[u8], authority: Option<&[u8]>, path: Option<&[u8]>) -> Request {
    Request {
        method: method.to_vec(),
        uri: Uri {
            scheme: None,
            authority: authority.map(|a| a.to_vec()),
            path_and_query: path.map(|p| p.to_vec()),
        },
        version: Version::Http11,
        headers: Vec::new(),
        body: Vec::new(),
    }
}

fn upgrade_request(authority: Option<&[u8]>) -> Request {
    let mut req = plain_request(b"GET", authority, Some(b"/"));
    req.headers = vec![
        header(b"Host", b"origin:80"),
        header(b"Connection", b"keep-alive, Upgrade"),
        header(b"Upgrade", b"websocket"),
        header(b"Sec-WebSocket-Key", b"dGhlIHNhbXBsZSBub25jZQ=="),
        header(b"Sec-WebSocket-Version", b"13"),
    ];
    req
}

#[test]
fn sniff_get_prefix_selects_cleartext() {
    assert_eq!(sniff(b"GET "), SniffDecision::Serve(TunnelBranch::ClearText));
}

#[test]
fn sniff_other_prefixes_select_tls() {
    assert_eq!(sniff(b"POST"), SniffDecision::Serve(TunnelBranch::Tls));
    assert_eq!(sniff(&[0x16, 0x03, 0x01, 0x00]), SniffDecision::Serve(TunnelBranch::Tls));
    assert_eq!(sniff(b"GET\t"), SniffDecision::Serve(TunnelBranch::Tls));
    assert_eq!(sniff(b"get "), SniffDecision::Serve(TunnelBranch::Tls));
}

#[test]
fn sniff_short_reads_abort() {
    assert_eq!(sniff(b""), SniffDecision::Abort);
    assert_eq!(sniff(b"GET"), SniffDecision::Abort);
}

#[test]
fn sniff_many_prefixes_agree_with_the_rule() {
    let mut x: u32 = 0x2545_f491;
    for _ in 0..500 {
        let mut prefix = [0u8; 4];
        for b in prefix.iter_mut() {
            x = x.wrapping_mul(1664525).wrapping_add(1013904223);
            *b = (x >> 24) as u8;
        }
        let expect = if &prefix == b"GET " {
            SniffDecision::Serve(TunnelBranch::ClearText)
        } else {
            SniffDecision::Serve(TunnelBranch::Tls)
        };
        assert_eq!(sniff(&prefix), expect);
    }
}

#[test]
fn connect_is_classified_as_tunnel() {
    let req = plain_request(b"CONNECT", Some(b"origin:443"), None);
    assert!(is_connect(&req));
    let req = plain_request(b"GET", Some(b"origin"), Some(b"/p"));
    assert!(!is_connect(&req));
}

#[test]
fn connect_ack_is_empty_200() {
    let res = connect_ack();
    assert_eq!(res.status, 200);
    assert!(res.headers.is_empty());
    assert!(res.body.is_empty());
}

#[test]
fn tunnel_authority_is_taken_verbatim() {
    let req = plain_request(b"CONNECT", Some(b"origin:443"), None);
    assert_eq!(tunnel_authority(&req), Ok(b"origin:443".to_vec()));
}

#[test]
fn tunnel_authority_missing_is_rejected() {
    let req = plain_request(b"CONNECT", None, None);
    assert_eq!(tunnel_authority(&req), Err(ProtocolError::MissingAuthority));
}

#[test]
fn uri_synthesis_in_tls_tunnel() {
    let mut req = plain_request(b"GET", None, Some(b"/a?b"));
    req.headers = vec![header(b"Host", b"example.com:443")];
    let out = prepare_tunnel_request(req, true).unwrap();
    assert_eq!(out.uri.scheme, Some(b"https".to_vec()));
    assert_eq!(out.uri.authority, Some(b"example.com:443".to_vec()));
    assert_eq!(out.uri.path_and_query, Some(b"/a?b".to_vec()));
}

#[test]
fn uri_synthesis_on_cleartext_branch() {
    let mut req = plain_request(b"GET", None, Some(b"/a?b"));
    req.headers = vec![header(b"host", b"example.com:443")];
    let out = prepare_tunnel_request(req, false).unwrap();
    assert_eq!(out.uri.scheme, Some(b"http".to_vec()));
    assert_eq!(out.uri.authority, Some(b"example.com:443".to_vec()));
    assert_eq!(out.uri.path_and_query, Some(b"/a?b".to_vec()));
}

#[test]
fn uri_synthesis_defaults_path_to_root() {
    let mut req = plain_request(b"GET", None, None);
    req.headers = vec![header(b"Host", b"example.com")];
    let out = prepare_tunnel_request(req, true).unwrap();
    assert_eq!(out.uri.path_and_query, Some(b"/".to_vec()));
}

#[test]
fn uri_synthesis_skips_non_http11_in_tls_tunnel() {
    let mut req = plain_request(b"GET", Some(b"origin"), Some(b"/p"));
    req.version = Version::H2;
    let before = req.clone();
    let out = prepare_tunnel_request(req, true).unwrap();
    assert_eq!(out, before);
}

#[test]
fn missing_host_in_tunnel_is_rejected() {
    let req = plain_request(b"GET", None, Some(b"/p"));
    assert_eq!(prepare_tunnel_request(req, true), Err(ProtocolError::MissingHost));
}

#[test]
fn invalid_host_in_tunnel_is_rejected() {
    let mut req = plain_request(b"GET", None, Some(b"/p"));
    req.headers = vec![header(b"Host", b"bad host")];
    assert_eq!(prepare_tunnel_request(req, true), Err(ProtocolError::InvalidAuthority));
}

#[test]
fn reject_response_is_a_400() {
    let res = reject_response(ProtocolError::MissingHost);
    assert_eq!(res.status, 400);
    assert!(res.body.is_empty());
}

#[test]
fn upgrade_request_is_detected() {
    assert!(is_upgrade_request(&upgrade_request(Some(b"origin:80"))));
}

#[test]
fn upgrade_detection_requires_the_full_handshake() {
    let mut req = upgrade_request(Some(b"origin:80"));
    req.method = b"POST".to_vec();
    assert!(!is_upgrade_request(&req));

    let mut req = upgrade_request(Some(b"origin:80"));
    req.headers.remove(3);
    assert!(!is_upgrade_request(&req));

    let mut req = upgrade_request(Some(b"origin:80"));
    req.headers[4] = header(b"Sec-WebSocket-Version", b"12");
    assert!(!is_upgrade_request(&req));

    let mut req = upgrade_request(Some(b"origin:80"));
    req.headers[1] = header(b"Connection", b"keep-alive");
    assert!(!is_upgrade_request(&req));
}

#[test]
fn websocket_uri_is_derived_from_the_upgrade_request() {
    let mut req = upgrade_request(Some(b"origin:80"));
    req.uri.scheme = Some(b"http".to_vec());
    let uri = websocket_uri(&req).unwrap();
    assert_eq!(uri.scheme, Some(b"ws".to_vec()));
    assert_eq!(uri.authority, Some(b"origin:80".to_vec()));
    assert_eq!(uri.path_and_query, Some(b"/".to_vec()));

    let mut req = upgrade_request(Some(b"origin:443"));
    req.uri.scheme = Some(b"https".to_vec());
    let uri = websocket_uri(&req).unwrap();
    assert_eq!(uri.scheme, Some(b"wss".to_vec()));
}

#[test]
fn websocket_uri_without_authority_is_rejected() {
    let req = upgrade_request(None);
    assert_eq!(websocket_uri(&req), Err(ProtocolError::MissingAuthority));
}

#[test]
fn plan_short_circuits_on_handler_response() {
    let res = Response { status: 418, headers: Vec::new(), body: b"teapot".to_vec() };
    match plan_request(RequestOrResponse::Response(res.clone())) {
        Ok(RequestAction::ShortCircuit(r)) => assert_eq!(r, res),
        other => panic!("unexpected plan: {:?}", other),
    }
}

#[test]
fn plan_forwards_ordinary_requests_untouched() {
    let mut req = plain_request(b"GET", Some(b"origin"), Some(b"/p"));
    req.headers = vec![header(b"X-Marker", b"kept")];
    req.body = b"payload".to_vec();
    match plan_request(RequestOrResponse::Request(req.clone())) {
        Ok(RequestAction::Forward(f)) => assert_eq!(f, req),
        other => panic!("unexpected plan: {:?}", other),
    }
}

#[test]
fn plan_opens_websocket_for_upgrades() {
    let req = upgrade_request(Some(b"origin:80"));
    match plan_request(RequestOrResponse::Request(req.clone())) {
        Ok(RequestAction::OpenWebSocket { uri, request }) => {
            assert_eq!(uri.scheme, Some(b"ws".to_vec()));
            assert_eq!(uri.authority, Some(b"origin:80".to_vec()));
            assert_eq!(request, req);
        },
        other => panic!("unexpected plan: {:?}", other),
    }
}

#[test]
fn plan_rejects_upgrade_with_malformed_authority() {
    let req = upgrade_request(Some(b"bad host"));
    match plan_request(RequestOrResponse::Request(req)) {
        Err(e) => assert_eq!(e, ProtocolError::InvalidAuthority),
        other => panic!("unexpected plan: {:?}", other),
    }
}

#[test]
fn upgrade_detaches_the_exchange_without_contacting_upstream() {
    let mut exchange = Exchange::begin(8);
    let req = upgrade_request(Some(b"origin:80"));
    let plan = exchange.on_request_handled(RequestOrResponse::Request(req));
    assert!(matches!(plan, Ok(RequestAction::OpenWebSocket { .. })));
    assert_eq!(exchange.phase, Phase::Done);
    assert!(!exchange.upstream_contacted);
    assert_eq!(exchange.handler, 8);
}

#[test]
fn plan_rejects_upgrade_without_authority() {
    let req = upgrade_request(None);
    match plan_request(RequestOrResponse::Request(req)) {
        Err(e) => assert_eq!(e, ProtocolError::MissingAuthority),
        other => panic!("unexpected plan: {:?}", other),
    }
}

#[test]
fn short_circuit_never_contacts_upstream() {
    let mut exchange = Exchange::begin(1);
    let res = Response { status: 418, headers: Vec::new(), body: Vec::new() };
    let plan = exchange.on_request_handled(RequestOrResponse::Response(res));
    assert!(matches!(plan, Ok(RequestAction::ShortCircuit(_))));
    assert_eq!(exchange.phase, Phase::Done);
    assert!(!exchange.upstream_contacted);
}

#[test]
fn proxied_exchange_delivers_the_handled_response() {
    let mut exchange = Exchange::begin(9);
    let req = plain_request(b"GET", Some(b"origin"), Some(b"/p"));
    let plan = exchange.on_request_handled(RequestOrResponse::Request(req.clone()));
    match plan {
        Ok(RequestAction::Forward(f)) => assert_eq!(f, req),
        other => panic!("unexpected plan: {:?}", other),
    }
    assert_eq!(exchange.phase, Phase::AwaitUpstream);
    assert!(exchange.upstream_contacted);
    let upstream = Response { status: 200, headers: Vec::new(), body: b"hello".to_vec() };
    let delivered = exchange.on_response_handled(upstream.clone());
    assert_eq!(delivered, upstream);
    assert_eq!(exchange.phase, Phase::Done);
}

#[test]
fn the_handler_instance_is_paired_across_the_exchange() {
    let mut exchange = Exchange::begin(42);
    let req = plain_request(b"GET", Some(b"origin"), Some(b"/p"));
    let _ = exchange.on_request_handled(RequestOrResponse::Request(req));
    assert_eq!(exchange.handler, 42);
    let _ = exchange.on_response_handled(Response {
        status: 200,
        headers: Vec::new(),
        body: Vec::new(),
    });
    assert_eq!(exchange.handler, 42);
}

#[test]
fn default_handlers_are_no_ops() {
    let addr = Address { ip: vec![127, 0, 0, 1], port: 9000 };
    let ctx = HttpContext { client_addr: addr.clone() };
    let mut h = NoopHandler;
    let req = plain_request(b"GET", Some(b"origin"), Some(b"/p"));
    match h.handle_request(&ctx, req.clone()) {
        RequestOrResponse::Request(r) => assert_eq!(r, req),
        RequestOrResponse::Response(_) => panic!("default handler must forward the request"),
    }
    let res = Response { status: 204, headers: Vec::new(), body: Vec::new() };
    assert_eq!(h.handle_response(&ctx, res.clone()), res);

    let mut w = NoopMessageHandler;
    let wctx = WebSocketContext::ClientToServer {
        src: addr,
        dst: Uri { scheme: None, authority: None, path_and_query: None },
    };
    assert_eq!(w.handle_message(&wctx, Message::Close), Some(Message::Close));
}

#[test]
fn shutdown_noise_is_suppressed() {
    assert!(should_suppress_error(b"error shutting down connection: broken pipe"));
    assert!(should_suppress_error(b"error shutting down connection"));
    assert!(!should_suppress_error(b"error shutting down"));
    assert!(!should_suppress_error(b"websocket connect error"));
}

#[test]
fn teapot_scenario_short_circuits() {
    let mut exchange = Exchange::begin(0);
    let teapot = Response { status: 418, headers: Vec::new(), body: b"I'm a teapot".to_vec() };
    let plan = exchange.on_request_handled(RequestOrResponse::Response(teapot.clone()));
    match plan {
        Ok(RequestAction::ShortCircuit(r)) => assert_eq!(r.status, 418),
        other => panic!("unexpected plan: {:?}", other),
    }
    assert!(!exchange.upstream_contacted);
    let _ = Message::Close;
}

#[test]
fn tls_tunnel_scenario_end_to_end() {
    let connect = plain_request(b"CONNECT", Some(b"origin:443"), None);
    assert!(is_connect(&connect));
    assert_eq!(tunnel_authority(&connect), Ok(b"origin:443".to_vec()));
    let ack = connect_ack();
    assert_eq!((ack.status, ack.body.len()), (200, 0));

    assert_eq!(sniff(&[0x16, 0x03, 0x01, 0x02]), SniffDecision::Serve(TunnelBranch::Tls));

    let mut inner = plain_request(b"GET", None, Some(b"/p"));
    inner.headers = vec![header(b"Host", b"origin")];
    let prepared = prepare_tunnel_request(inner, true).unwrap();
    assert_eq!(prepared.uri.scheme, Some(b"https".to_vec()));
    assert_eq!(prepared.uri.authority, Some(b"origin".to_vec()));

    let mut exchange = Exchange::begin(3);
    let plan = exchange.on_request_handled(RequestOrResponse::Request(prepared.clone()));
    match plan {
        Ok(RequestAction::Forward(f)) => assert_eq!(f, prepared),
        other => panic!("unexpected plan: {:?}", other),
    }
    let upstream = Response { status: 200, headers: Vec::new(), body: b"secret".to_vec() };
    let delivered = exchange.on_response_handled(upstream.clone());
    assert_eq!(delivered, upstream);
}

#[test]
fn malformed_tunnel_request_yields_client_visible_error() {
    let inner = plain_request(b"GET", None, Some(b"/p"));
    let mut exchange = Exchange::begin(5);
    match prepare_tunnel_request(inner, true) {
        Err(e) => {
            let res = reject_response(e);
            assert_eq!(res.status, 400);
        },
        Ok(_) => panic!("a request without Host must not be forwarded"),
    }
    assert!(!exchange.upstream_contacted);
    let _ = exchange.phase;
}
