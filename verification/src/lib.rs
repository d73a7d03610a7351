//! A man-in-the-middle HTTP/HTTPS/WebSocket intercepting proxy core.
//!
//! The interception state machine is modelled and verified here: CONNECT
//! tunnelling, protocol sniffing on the upgraded byte stream, rewinding of
//! sniffed bytes, URI synthesis inside a tunnel, request dispatch with
//! handler short-circuiting, and per-direction WebSocket frame filtering.
//! The asynchronous transport glue that drives this core lives outside the
//! verified library.

pub mod ascii;
pub mod bridge;
pub mod dispatch;
pub mod headers;
pub mod model;
pub mod rewind;
pub mod uri;
pub mod tokens;

use vstd::prelude::*;
use crate::model::{HttpContext, WebSocketContext, RequestOrResponse, Request, Response, Message};

verus! {

/// Handler for HTTP requests and responses.
///
/// Each request/response pair is passed to the same instance of the
/// handler; instances must be cheap to clone.
pub trait HttpHandler: Sized + Clone {
    /// Called for each HTTP request. It can either return a modified
    /// request, which is sent to the upstream server, or a response, which
    /// is sent to the client without the upstream being contacted. The
    /// default forwards the request unchanged.
    fn handle_request(&mut self, _ctx: &HttpContext, request: Request) -> (r: RequestOrResponse)
        default_ensures
            r == RequestOrResponse::Request(request),
    {
        RequestOrResponse::Request(request)
    }

    /// Called for each HTTP response whose request was not
    /// short-circuited; it can modify the response before the client sees
    /// it. The default returns it unchanged.
    fn handle_response(&mut self, _ctx: &HttpContext, response: Response) -> (r: Response)
        default_ensures
            r == response,
    {
        response
    }
}

/// Handler for WebSocket messages.
///
/// Each direction of a WebSocket stream gets its own instance; messages on
/// one stream and direction are passed to the same instance.
pub trait WebSocketHandler: Sized + Clone {
    /// Called for each WebSocket message. Returning no message drops the
    /// frame silently; otherwise the returned frame is forwarded. The
    /// default forwards the frame unchanged.
    fn handle_message(&mut self, _ctx: &WebSocketContext, message: Message) -> (r: Option<
        Message,
    >)
        default_ensures
            r == Some(message),
    {
        Some(message)
    }
}

} // verus!
