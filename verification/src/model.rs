//! The proxy's data model: HTTP requests and responses, URIs, WebSocket
//! frames, and the protocol errors the dispatcher can raise.
//!
//! The model keeps every component as plain bytes so that the dispatch rules
//! can be stated and proved exactly; the transport layer converts between
//! these values and its own wire types at the library boundary.

use vstd::prelude::*;

verus! {

/// One HTTP header field. Field names compare case-insensitively.
#[derive(Debug, Clone, PartialEq, Eq)]
pub struct Header {
    pub name: Vec<u8>,
    pub value: Vec<u8>,
}

/// A URI split into the three components the dispatcher reads and rewrites.
/// Each component is kept verbatim, without its delimiters.
#[derive(Debug, Clone, PartialEq, Eq)]
pub struct Uri {
    pub scheme: Option<Vec<u8>>,
    pub authority: Option<Vec<u8>>,
    pub path_and_query: Option<Vec<u8>>,
}

/// The HTTP protocol version of an inbound request. URI synthesis applies
/// only to `Http11` requests inside a TLS tunnel; an `H2` request already
/// carries its authority.
#[derive(Debug, Clone, Copy, PartialEq, Eq)]
pub enum Version {
    Http11,
    H2,
    Other,
}

/// An HTTP request: method, URI, version, headers, and a body.
#[derive(Debug, Clone, PartialEq, Eq)]
pub struct Request {
    pub method: Vec<u8>,
    pub uri: Uri,
    pub version: Version,
    pub headers: Vec<Header>,
    pub body: Vec<u8>,
}

/// An HTTP response: status, headers, and a body.
#[derive(Debug, Clone, PartialEq, Eq)]
pub struct Response {
    pub status: u16,
    pub headers: Vec<Header>,
    pub body: Vec<u8>,
}

/// One WebSocket frame: its kind and its payload, kept opaque.
#[derive(Debug, Clone, PartialEq, Eq)]
pub enum Message {
    Text(Vec<u8>),
    Binary(Vec<u8>),
    Ping(Vec<u8>),
    Pong(Vec<u8>),
    Close,
}

/// A client socket address: the IP octets (four or sixteen) and the port.
#[derive(Debug, Clone, PartialEq, Eq)]
pub struct Address {
    pub ip: Vec<u8>,
    pub port: u16,
}

/// What the request handler hands back: either a (possibly modified)
/// request to forward upstream, or a response that short-circuits the
/// exchange and goes straight back to the client.
#[derive(Debug)]
pub enum RequestOrResponse {
    Request(Request),
    Response(Response),
}

/// Context handed to the HTTP handlers: the address of the client whose
/// connection carries the exchange.
#[derive(Debug, Clone, PartialEq, Eq)]
pub struct HttpContext {
    pub client_addr: Address,
}

/// Context handed to the message handler: the direction of the frame and
/// the two endpoints it travels between.
#[derive(Debug, Clone, PartialEq, Eq)]
pub enum WebSocketContext {
    ClientToServer { src: Address, dst: Uri },
    ServerToClient { src: Uri, dst: Address },
}

/// A protocol fault in an inbound request. Each is answered with a
/// client-visible error response; the connection itself continues.
#[derive(Debug, Clone, Copy, PartialEq, Eq)]
pub enum ProtocolError {
    /// A CONNECT or upgrade request whose URI carries no authority.
    MissingAuthority,
    /// A tunnelled request without a `Host` header to synthesise a URI from.
    MissingHost,
    /// A `Host` header or authority that does not parse as a URI authority.
    InvalidAuthority,
}

} // verus!
