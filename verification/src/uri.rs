//! URI handling inside a tunnel: taking the CONNECT authority verbatim,
//! synthesising an absolute URI for a tunnelled request from its `Host`
//! header, and deriving the upstream WebSocket URI for an upgrade.

use vstd::prelude::*;
use crate::ascii::copy_bytes;
use crate::headers::{find_value, find_header};
use crate::model::{Request, Uri, ProtocolError, Version};
use crate::tokens::{
    spec_host_name, spec_http_scheme, spec_https_scheme, spec_root_path, spec_ws_scheme,
    spec_wss_scheme, host_name, http_scheme, https_scheme, root_path, ws_scheme, wss_scheme,
};

verus! {

/// Whether a byte string is a well-formed URI authority. The authority
/// grammar is the outside HTTP stack's; only its verdict is relied on.
pub uninterp spec fn authority_ok(s: Seq<u8>) -> bool;

/// Relies on `http::uri::Authority::try_from(&[u8])`: it parses a byte
/// string as a URI authority, accepting or rejecting on the bytes alone.
#[verifier::external_body]
fn authority_valid(s: &[u8]) -> (r: bool)
    ensures
        r == authority_ok(s@),
{
    http::uri::Authority::try_from(s).is_ok()
}

/// The scheme synthesised inside a tunnel: `https` after a TLS accept,
/// `http` on the sniffed-cleartext branch.
pub open spec fn tunnel_scheme(tls: bool) -> Seq<u8> {
    if tls {
        spec_https_scheme()
    } else {
        spec_http_scheme()
    }
}

/// The request target's path and query, or `/` when it carries none.
pub open spec fn spec_path_or_root(req: Request) -> Seq<u8> {
    match req.uri.path_and_query {
        Some(p) => p@,
        None => spec_root_path(),
    }
}

/// Whether a TLS-tunnelled request skips URI synthesis: a non-HTTP/1.1
/// request already carries its authority.
pub open spec fn passes_through(req: Request, tls: bool) -> bool {
    tls && !(req.version is Http11)
}

/// Whether `out` is `req` with its URI rewritten to the absolute form
/// `scheme://host/path`, every other part untouched.
pub open spec fn is_synthesized(out: Request, req: Request, tls: bool, host: Seq<u8>) -> bool {
    &&& out.method == req.method
    &&& out.version == req.version
    &&& out.headers == req.headers
    &&& out.body == req.body
    &&& match out.uri.scheme {
        Some(s) => s@ == tunnel_scheme(tls),
        None => false,
    }
    &&& match out.uri.authority {
        Some(a) => a@ == host,
        None => false,
    }
    &&& match out.uri.path_and_query {
        Some(p) => p@ == spec_path_or_root(req),
        None => false,
    }
}

/// Extracts the authority of a CONNECT request, verbatim from its URI.
pub fn tunnel_authority(req: &Request) -> (r: Result<Vec<u8>, ProtocolError>)
    ensures
        match r {
            Ok(a) => match req.uri.authority {
                Some(a0) => a@ == a0@,
                None => false,
            },
            Err(e) => req.uri.authority is None && e == ProtocolError::MissingAuthority,
        },
{
    match &req.uri.authority {
        Some(a) => Ok(copy_bytes(a)),
        None => Err(ProtocolError::MissingAuthority),
    }
}

/// Rewrites a tunnelled request's URI to its absolute form: scheme from the
/// tunnel branch, authority from the `Host` header, path and query from the
/// request target (or `/`). A non-HTTP/1.1 request in a TLS tunnel passes
/// through untouched. A request without a `Host` header, or whose `Host`
/// value is not a well-formed authority, is rejected.
pub fn prepare_tunnel_request(req: Request, tls: bool) -> (r: Result<Request, ProtocolError>)
    ensures
        match r {
            Ok(out) => {
                if passes_through(req, tls) {
                    out == req
                } else {
                    match find_value(req.headers@, spec_host_name()) {
                        Some(h) => authority_ok(h) && is_synthesized(out, req, tls, h),
                        None => false,
                    }
                }
            },
            Err(e) => !passes_through(req, tls) && match find_value(
                req.headers@,
                spec_host_name(),
            ) {
                Some(h) => !authority_ok(h) && e == ProtocolError::InvalidAuthority,
                None => e == ProtocolError::MissingHost,
            },
        },
{
    if tls && !matches!(req.version, Version::Http11) {
        return Ok(req);
    }
    let name = host_name();
    let host: Vec<u8> = match find_header(&req.headers, name.as_slice()) {
        Some(h) => copy_bytes(h),
        None => {
            return Err(ProtocolError::MissingHost);
        },
    };
    if !authority_valid(host.as_slice()) {
        return Err(ProtocolError::InvalidAuthority);
    }
    let scheme = if tls {
        https_scheme()
    } else {
        http_scheme()
    };
    let path = match req.uri.path_and_query {
        Some(p) => p,
        None => root_path(),
    };
    Ok(
        Request {
            method: req.method,
            uri: Uri {
                scheme: Some(scheme),
                authority: Some(host),
                path_and_query: Some(path),
            },
            version: req.version,
            headers: req.headers,
            body: req.body,
        },
    )
}

/// The scheme of the upstream WebSocket URI: `ws` when the upgrade request
/// reads as plain HTTP (no scheme, or `http`), `wss` otherwise.
pub open spec fn spec_ws_scheme_of(req: Request) -> Seq<u8> {
    match req.uri.scheme {
        Some(s) => if s@ == spec_http_scheme() {
            spec_ws_scheme()
        } else {
            spec_wss_scheme()
        },
        None => spec_ws_scheme(),
    }
}

/// Whether `u` is the upstream WebSocket URI derived from the upgrade
/// request `req`: matching `ws`/`wss` scheme, the request's authority
/// verbatim, and its path and query (or `/`).
pub open spec fn is_ws_uri_for(u: Uri, req: Request) -> bool {
    &&& match u.scheme {
        Some(s) => s@ == spec_ws_scheme_of(req),
        None => false,
    }
    &&& match (u.authority, req.uri.authority) {
        (Some(a), Some(a0)) => a@ == a0@,
        _ => false,
    }
    &&& match u.path_and_query {
        Some(p) => p@ == spec_path_or_root(req),
        None => false,
    }
}

/// Derives the upstream WebSocket URI for an upgrade request. An upgrade
/// request must carry an authority on its URI; one without it, or with an
/// authority that is not well formed, is rejected.
pub fn websocket_uri(req: &Request) -> (r: Result<Uri, ProtocolError>)
    ensures
        match r {
            Ok(u) => match req.uri.authority {
                Some(a0) => authority_ok(a0@) && is_ws_uri_for(u, *req),
                None => false,
            },
            Err(e) => match req.uri.authority {
                Some(a0) => !authority_ok(a0@) && e == ProtocolError::InvalidAuthority,
                None => e == ProtocolError::MissingAuthority,
            },
        },
{
    let authority: Vec<u8> = match &req.uri.authority {
        Some(a) => copy_bytes(a),
        None => {
            return Err(ProtocolError::MissingAuthority);
        },
    };
    if !authority_valid(authority.as_slice()) {
        return Err(ProtocolError::InvalidAuthority);
    }
    let scheme = match &req.uri.scheme {
        Some(s) => if crate::ascii::bytes_eq(s.as_slice(), http_scheme().as_slice()) {
            ws_scheme()
        } else {
            wss_scheme()
        },
        None => ws_scheme(),
    };
    let path = match &req.uri.path_and_query {
        Some(p) => copy_bytes(p),
        None => root_path(),
    };
    Ok(Uri { scheme: Some(scheme), authority: Some(authority), path_and_query: Some(path) })
}

} // verus!
