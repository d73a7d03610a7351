//! The connection dispatcher: classifying CONNECT requests, acknowledging a
//! tunnel, sniffing the upgraded byte stream, detecting WebSocket upgrades,
//! planning what to do with a handled request, and tracking one
//! request/response exchange through its phases.

use vstd::prelude::*;
use crate::ascii::bytes_eq;
use crate::headers::{has_named, header_has_token, has_header, any_header_has_token};
use crate::model::{Request, Response, RequestOrResponse, Uri, ProtocolError};
use crate::tokens::{
    spec_connect_method, spec_get_method, spec_get_prefix, spec_connection_name,
    spec_upgrade_token, spec_websocket_token, spec_ws_key_name, spec_ws_version_name,
    spec_ws_version_13, spec_shutdown_prefix, connect_method, get_method, get_prefix,
    connection_name, upgrade_token, websocket_token, ws_key_name, ws_version_name, ws_version_13,
    shutdown_prefix,
};
use crate::uri::{authority_ok, is_ws_uri_for, websocket_uri};

verus! {

/// The two protocols a sniffed tunnel can carry.
#[derive(Debug, Clone, Copy, PartialEq, Eq, Structural)]
pub enum TunnelBranch {
    /// The first four bytes were `GET `: cleartext WebSocket/HTTP traffic.
    ClearText,
    /// Any other four-byte prefix: a TLS handshake is attempted.
    Tls,
}

/// The dispatcher's verdict on the sniffed prefix of a tunnel.
#[derive(Debug, Clone, Copy, PartialEq, Eq, Structural)]
pub enum SniffDecision {
    /// Fewer than four bytes arrived: the connection is aborted.
    Abort,
    /// Four bytes arrived: serve the chosen branch over the rewound stream.
    Serve(TunnelBranch),
}

/// The verdict on exactly the sniffed bytes: fewer than four abort the
/// tunnel, `GET ` selects the cleartext branch, anything else TLS.
pub open spec fn spec_sniff(first: Seq<u8>) -> SniffDecision {
    if first.len() < 4 {
        SniffDecision::Abort
    } else if first == spec_get_prefix() {
        SniffDecision::Serve(TunnelBranch::ClearText)
    } else {
        SniffDecision::Serve(TunnelBranch::Tls)
    }
}

/// Decides a tunnel's branch from the bytes peeked off the upgraded stream:
/// at most four, fewer only when the stream ended early.
pub fn sniff(first: &[u8]) -> (d: SniffDecision)
    requires
        first@.len() <= 4,
    ensures
        d == spec_sniff(first@),
{
    if first.len() < 4 {
        SniffDecision::Abort
    } else if bytes_eq(first, get_prefix().as_slice()) {
        SniffDecision::Serve(TunnelBranch::ClearText)
    } else {
        SniffDecision::Serve(TunnelBranch::Tls)
    }
}

/// Whether an ingress request asks for a CONNECT tunnel.
pub open spec fn spec_is_connect(req: Request) -> bool {
    req.method@ == spec_connect_method()
}

/// Classifies an ingress request: CONNECT enters tunnel setup, everything
/// else is dispatched as a plain request.
pub fn is_connect(req: &Request) -> (r: bool)
    ensures
        r == spec_is_connect(*req),
{
    bytes_eq(req.method.as_slice(), connect_method().as_slice())
}

/// The acknowledgement returned on the outer connection as soon as a tunnel
/// is scheduled: `200` with no headers and an empty body.
pub fn connect_ack() -> (r: Response)
    ensures
        r.status == 200,
        r.headers@.len() == 0,
        r.body@.len() == 0,
{
    Response { status: 200, headers: Vec::new(), body: Vec::new() }
}

/// The client-visible rejection of a malformed request: `400` with no
/// headers and an empty body. The connection itself continues.
pub fn reject_response(_err: ProtocolError) -> (r: Response)
    ensures
        r.status == 400,
        r.headers@.len() == 0,
        r.body@.len() == 0,
{
    Response { status: 400, headers: Vec::new(), body: Vec::new() }
}

/// Whether a request carries the WebSocket handshake: method `GET`,
/// `Connection` listing `upgrade`, `Upgrade` listing `websocket`, a
/// `Sec-WebSocket-Key`, and `Sec-WebSocket-Version` 13.
pub open spec fn spec_is_upgrade(req: Request) -> bool {
    &&& req.method@ == spec_get_method()
    &&& header_has_token(req.headers@, spec_connection_name(), spec_upgrade_token())
    &&& header_has_token(req.headers@, spec_upgrade_token(), spec_websocket_token())
    &&& has_named(req.headers@, spec_ws_key_name())
    &&& header_has_token(req.headers@, spec_ws_version_name(), spec_ws_version_13())
}

/// Detects a WebSocket upgrade request.
pub fn is_upgrade_request(req: &Request) -> (r: bool)
    ensures
        r == spec_is_upgrade(*req),
{
    bytes_eq(req.method.as_slice(), get_method().as_slice())
        && any_header_has_token(
        &req.headers,
        connection_name().as_slice(),
        upgrade_token().as_slice(),
    ) && any_header_has_token(
        &req.headers,
        upgrade_token().as_slice(),
        websocket_token().as_slice(),
    ) && has_header(&req.headers, ws_key_name().as_slice()) && any_header_has_token(
        &req.headers,
        ws_version_name().as_slice(),
        ws_version_13().as_slice(),
    )
}

/// What the transport layer is told to do with a handled request.
#[derive(Debug)]
pub enum RequestAction {
    /// Return this response to the client; the upstream is not contacted.
    ShortCircuit(Response),
    /// Complete the server-side upgrade for `request` and bridge frames to
    /// the upstream WebSocket at `uri`.
    OpenWebSocket { uri: Uri, request: Request },
    /// Send this request to the upstream client and await its response.
    Forward(Request),
}

/// The exact relation between the request handler's verdict and the planned
/// action: a returned response short-circuits, an upgrade request opens a
/// WebSocket bridge (or is rejected when its authority is absent or
/// malformed), and any other request is forwarded untouched.
pub open spec fn plan_matches(
    outcome: RequestOrResponse,
    r: Result<RequestAction, ProtocolError>,
) -> bool {
    match outcome {
        RequestOrResponse::Response(res) => r == Ok::<RequestAction, ProtocolError>(
            RequestAction::ShortCircuit(res),
        ),
        RequestOrResponse::Request(req) => {
            if spec_is_upgrade(req) {
                match r {
                    Ok(RequestAction::OpenWebSocket { uri, request }) => {
                        &&& request == req
                        &&& match req.uri.authority {
                            Some(a0) => authority_ok(a0@) && is_ws_uri_for(uri, req),
                            None => false,
                        }
                    },
                    Err(e) => match req.uri.authority {
                        Some(a0) => !authority_ok(a0@) && e == ProtocolError::InvalidAuthority,
                        None => e == ProtocolError::MissingAuthority,
                    },
                    _ => false,
                }
            } else {
                r == Ok::<RequestAction, ProtocolError>(RequestAction::Forward(req))
            }
        },
    }
}

/// Plans the dispatcher's next step from the request handler's verdict.
pub fn plan_request(outcome: RequestOrResponse) -> (r: Result<RequestAction, ProtocolError>)
    ensures
        plan_matches(outcome, r),
{
    match outcome {
        RequestOrResponse::Response(res) => Ok(RequestAction::ShortCircuit(res)),
        RequestOrResponse::Request(req) => {
            if is_upgrade_request(&req) {
                match websocket_uri(&req) {
                    Ok(uri) => Ok(RequestAction::OpenWebSocket { uri, request: req }),
                    Err(e) => Err(e),
                }
            } else {
                Ok(RequestAction::Forward(req))
            }
        },
    }
}

/// Whether an error message is shutdown-during-shutdown noise, which is
/// suppressed rather than logged.
pub open spec fn spec_suppressed(msg: Seq<u8>) -> bool {
    spec_shutdown_prefix().len() <= msg.len() && msg.take(spec_shutdown_prefix().len() as int)
        == spec_shutdown_prefix()
}

/// Tests an error message (as bytes) for the suppressed shutdown prefix.
pub fn should_suppress_error(msg: &[u8]) -> (r: bool)
    ensures
        r == spec_suppressed(msg@),
{
    let prefix = shutdown_prefix();
    if prefix.len() > msg.len() {
        return false;
    }
    bytes_eq(vstd::slice::slice_subrange(msg, 0, prefix.len()), prefix.as_slice())
}

/// Where one request/response exchange stands.
#[derive(Debug, Clone, Copy, PartialEq, Eq, Structural)]
pub enum Phase {
    /// The request handler has the request.
    AwaitRequest,
    /// The request was forwarded; the upstream's response is pending.
    AwaitUpstream,
    /// The exchange is over: its response went to the client, or a detached
    /// WebSocket bridge took the connection.
    Done,
}

/// One request/response exchange. The handler instance chosen at ingress is
/// recorded by an identifier and never replaced, so the instance that saw
/// the request is the one that sees the matching response.
#[derive(Debug, Clone, Copy, PartialEq, Eq, Structural)]
pub struct Exchange {
    /// Identifies the handler instance bound to this exchange.
    pub handler: u64,
    /// Where the exchange stands.
    pub phase: Phase,
    /// Whether the exchange has instructed the transport to contact the
    /// upstream.
    pub upstream_contacted: bool,
}

/// How an exchange moves when the request handler's verdict arrives: a
/// short-circuit or an upgrade ends it at once; only a forwarded request
/// contacts the upstream.
pub open spec fn spec_request_step(e: Exchange, outcome: RequestOrResponse) -> Exchange {
    match outcome {
        RequestOrResponse::Response(_) => Exchange { phase: Phase::Done, ..e },
        RequestOrResponse::Request(req) => {
            if spec_is_upgrade(req) {
                Exchange { phase: Phase::Done, ..e }
            } else {
                Exchange { phase: Phase::AwaitUpstream, upstream_contacted: true, ..e }
            }
        },
    }
}

/// How an exchange moves when the response handler's verdict arrives.
pub open spec fn spec_response_step(e: Exchange) -> Exchange {
    Exchange { phase: Phase::Done, ..e }
}

impl Exchange {
    /// Opens an exchange bound to the handler instance `handler`.
    pub fn begin(handler: u64) -> (e: Exchange)
        ensures
            e == (Exchange { handler, phase: Phase::AwaitRequest, upstream_contacted: false }),
    {
        Exchange { handler, phase: Phase::AwaitRequest, upstream_contacted: false }
    }

    /// Feeds the request handler's verdict in: plans the transport's next
    /// action and advances the exchange.
    pub fn on_request_handled(&mut self, outcome: RequestOrResponse) -> (plan: Result<
        RequestAction,
        ProtocolError,
    >)
        requires
            old(self).phase is AwaitRequest,
        ensures
            *final(self) == spec_request_step(*old(self), outcome),
            plan_matches(outcome, plan),
    {
        let plan = plan_request(outcome);
        match &plan {
            Ok(RequestAction::Forward(_)) => {
                self.phase = Phase::AwaitUpstream;
                self.upstream_contacted = true;
            },
            _ => {
                self.phase = Phase::Done;
            },
        }
        plan
    }

    /// Feeds the response handler's verdict in: the response delivered to
    /// the client is exactly the handler's, and the exchange ends.
    pub fn on_response_handled(&mut self, handled: Response) -> (out: Response)
        requires
            old(self).phase is AwaitUpstream,
        ensures
            *final(self) == spec_response_step(*old(self)),
            out == handled,
    {
        self.phase = Phase::Done;
        handled
    }
}

/// A response returned by the request handler is sent back without the
/// upstream being contacted: the exchange ends at once, still marked as
/// never having instructed the transport to reach the upstream, and no
/// later step of a finished exchange can change that.
pub proof fn lemma_short_circuit(e: Exchange, res: Response)
    requires
        !e.upstream_contacted,
    ensures
        spec_request_step(e, RequestOrResponse::Response(res)).phase is Done,
        !spec_request_step(e, RequestOrResponse::Response(res)).upstream_contacted,
{
}

/// One handler instance sees both halves of an exchange: no step replaces
/// the handler bound at ingress, so the instance that handled the request
/// is the one that handles its response.
pub proof fn lemma_handler_pairing(e: Exchange, outcome: RequestOrResponse)
    ensures
        spec_request_step(e, outcome).handler == e.handler,
        spec_response_step(spec_request_step(e, outcome)).handler == e.handler,
{
}

/// With a no-op request handler the dispatcher forwards the ingress request
/// verbatim: the handler returns its request unchanged, and the plan for a
/// returned non-upgrade request is exactly to forward it. Together with the
/// response side of the exchange contract — the delivered response is
/// exactly the response handler's verdict — a proxied exchange with no-op
/// handlers passes the request and the response through unmodified.
pub proof fn lemma_pass_through(req: Request, plan: Result<RequestAction, ProtocolError>)
    requires
        !spec_is_upgrade(req),
        plan_matches(RequestOrResponse::Request(req), plan),
    ensures
        plan == Ok::<RequestAction, ProtocolError>(RequestAction::Forward(req)),
{
}

/// Whatever the request handler hands back to be forwarded — with any
/// headers, body, or URI it chose — is exactly what reaches the upstream:
/// the plan forwards the handler's request and nothing else.
pub proof fn lemma_mutation_reaches_upstream(
    req: Request,
    plan: Result<RequestAction, ProtocolError>,
)
    requires
        !spec_is_upgrade(req),
        plan_matches(RequestOrResponse::Request(req), plan),
    ensures
        plan matches Ok(a) && a matches RequestAction::Forward(fwd) && fwd == req,
{
}

} // verus!
