//! The byte strings the dispatcher compares against: method names, header
//! field names, URI schemes, and the WebSocket handshake tokens.

use vstd::prelude::*;

verus! {

/// `CONNECT`
pub open spec fn spec_connect_method() -> Seq<u8> {
    seq![67u8, 79u8, 78u8, 78u8, 69u8, 67u8, 84u8]
}

/// `GET`
pub open spec fn spec_get_method() -> Seq<u8> {
    seq![71u8, 69u8, 84u8]
}

/// `GET ` — the four sniffed bytes that select the cleartext branch.
pub open spec fn spec_get_prefix() -> Seq<u8> {
    seq![71u8, 69u8, 84u8, 32u8]
}

/// `host`
pub open spec fn spec_host_name() -> Seq<u8> {
    seq![104u8, 111u8, 115u8, 116u8]
}

/// `connection`
pub open spec fn spec_connection_name() -> Seq<u8> {
    seq![99u8, 111u8, 110u8, 110u8, 101u8, 99u8, 116u8, 105u8, 111u8, 110u8]
}

/// `upgrade`
pub open spec fn spec_upgrade_token() -> Seq<u8> {
    seq![117u8, 112u8, 103u8, 114u8, 97u8, 100u8, 101u8]
}

/// `websocket`
pub open spec fn spec_websocket_token() -> Seq<u8> {
    seq![119u8, 101u8, 98u8, 115u8, 111u8, 99u8, 107u8, 101u8, 116u8]
}

/// `sec-websocket-key`
pub open spec fn spec_ws_key_name() -> Seq<u8> {
    seq![115u8, 101u8, 99u8, 45u8, 119u8, 101u8, 98u8, 115u8, 111u8, 99u8, 107u8, 101u8, 116u8,
        45u8, 107u8, 101u8, 121u8]
}

/// `sec-websocket-version`
pub open spec fn spec_ws_version_name() -> Seq<u8> {
    seq![115u8, 101u8, 99u8, 45u8, 119u8, 101u8, 98u8, 115u8, 111u8, 99u8, 107u8, 101u8, 116u8,
        45u8, 118u8, 101u8, 114u8, 115u8, 105u8, 111u8, 110u8]
}

/// `13` — the only accepted WebSocket protocol version.
pub open spec fn spec_ws_version_13() -> Seq<u8> {
    seq![49u8, 51u8]
}

/// `http`
pub open spec fn spec_http_scheme() -> Seq<u8> {
    seq![104u8, 116u8, 116u8, 112u8]
}

/// `https`
pub open spec fn spec_https_scheme() -> Seq<u8> {
    seq![104u8, 116u8, 116u8, 112u8, 115u8]
}

/// `ws`
pub open spec fn spec_ws_scheme() -> Seq<u8> {
    seq![119u8, 115u8]
}

/// `wss`
pub open spec fn spec_wss_scheme() -> Seq<u8> {
    seq![119u8, 115u8, 115u8]
}

/// `/` — the path substituted when a request target has none.
pub open spec fn spec_root_path() -> Seq<u8> {
    seq![47u8]
}

/// `error shutting down connection` — the error-message prefix whose
/// carriers are suppressed rather than logged.
pub open spec fn spec_shutdown_prefix() -> Seq<u8> {
    seq![101u8, 114u8, 114u8, 111u8, 114u8, 32u8, 115u8, 104u8, 117u8, 116u8, 116u8, 105u8,
        110u8, 103u8, 32u8, 100u8, 111u8, 119u8, 110u8, 32u8, 99u8, 111u8, 110u8, 110u8, 101u8,
        99u8, 116u8, 105u8, 111u8, 110u8]
}

pub fn connect_method() -> (v: Vec<u8>)
    ensures
        v@ == spec_connect_method(),
{
    let v: Vec<u8> = vec![67u8, 79u8, 78u8, 78u8, 69u8, 67u8, 84u8];
    proof {
        assert(v@ =~= spec_connect_method());
    }
    v
}

pub fn get_method() -> (v: Vec<u8>)
    ensures
        v@ == spec_get_method(),
{
    let v: Vec<u8> = vec![71u8, 69u8, 84u8];
    proof {
        assert(v@ =~= spec_get_method());
    }
    v
}

pub fn get_prefix() -> (v: Vec<u8>)
    ensures
        v@ == spec_get_prefix(),
{
    let v: Vec<u8> = vec![71u8, 69u8, 84u8, 32u8];
    proof {
        assert(v@ =~= spec_get_prefix());
    }
    v
}

pub fn host_name() -> (v: Vec<u8>)
    ensures
        v@ == spec_host_name(),
{
    let v: Vec<u8> = vec![104u8, 111u8, 115u8, 116u8];
    proof {
        assert(v@ =~= spec_host_name());
    }
    v
}

pub fn connection_name() -> (v: Vec<u8>)
    ensures
        v@ == spec_connection_name(),
{
    let v: Vec<u8> = vec![99u8, 111u8, 110u8, 110u8, 101u8, 99u8, 116u8, 105u8, 111u8, 110u8];
    proof {
        assert(v@ =~= spec_connection_name());
    }
    v
}

pub fn upgrade_token() -> (v: Vec<u8>)
    ensures
        v@ == spec_upgrade_token(),
{
    let v: Vec<u8> = vec![117u8, 112u8, 103u8, 114u8, 97u8, 100u8, 101u8];
    proof {
        assert(v@ =~= spec_upgrade_token());
    }
    v
}

pub fn websocket_token() -> (v: Vec<u8>)
    ensures
        v@ == spec_websocket_token(),
{
    let v: Vec<u8> = vec![119u8, 101u8, 98u8, 115u8, 111u8, 99u8, 107u8, 101u8, 116u8];
    proof {
        assert(v@ =~= spec_websocket_token());
    }
    v
}

pub fn ws_key_name() -> (v: Vec<u8>)
    ensures
        v@ == spec_ws_key_name(),
{
    let v: Vec<u8> = vec![115u8, 101u8, 99u8, 45u8, 119u8, 101u8, 98u8, 115u8, 111u8, 99u8,
        107u8, 101u8, 116u8, 45u8, 107u8, 101u8, 121u8];
    proof {
        assert(v@ =~= spec_ws_key_name());
    }
    v
}

pub fn ws_version_name() -> (v: Vec<u8>)
    ensures
        v@ == spec_ws_version_name(),
{
    let v: Vec<u8> = vec![115u8, 101u8, 99u8, 45u8, 119u8, 101u8, 98u8, 115u8, 111u8, 99u8,
        107u8, 101u8, 116u8, 45u8, 118u8, 101u8, 114u8, 115u8, 105u8, 111u8, 110u8];
    proof {
        assert(v@ =~= spec_ws_version_name());
    }
    v
}

pub fn ws_version_13() -> (v: Vec<u8>)
    ensures
        v@ == spec_ws_version_13(),
{
    let v: Vec<u8> = vec![49u8, 51u8];
    proof {
        assert(v@ =~= spec_ws_version_13());
    }
    v
}

pub fn http_scheme() -> (v: Vec<u8>)
    ensures
        v@ == spec_http_scheme(),
{
    let v: Vec<u8> = vec![104u8, 116u8, 116u8, 112u8];
    proof {
        assert(v@ =~= spec_http_scheme());
    }
    v
}

pub fn https_scheme() -> (v: Vec<u8>)
    ensures
        v@ == spec_https_scheme(),
{
    let v: Vec<u8> = vec![104u8, 116u8, 116u8, 112u8, 115u8];
    proof {
        assert(v@ =~= spec_https_scheme());
    }
    v
}

pub fn ws_scheme() -> (v: Vec<u8>)
    ensures
        v@ == spec_ws_scheme(),
{
    let v: Vec<u8> = vec![119u8, 115u8];
    proof {
        assert(v@ =~= spec_ws_scheme());
    }
    v
}

pub fn wss_scheme() -> (v: Vec<u8>)
    ensures
        v@ == spec_wss_scheme(),
{
    let v: Vec<u8> = vec![119u8, 115u8, 115u8];
    proof {
        assert(v@ =~= spec_wss_scheme());
    }
    v
}

pub fn root_path() -> (v: Vec<u8>)
    ensures
        v@ == spec_root_path(),
{
    let v: Vec<u8> = vec![47u8];
    proof {
        assert(v@ =~= spec_root_path());
    }
    v
}

pub fn shutdown_prefix() -> (v: Vec<u8>)
    ensures
        v@ == spec_shutdown_prefix(),
{
    let v: Vec<u8> = vec![101u8, 114u8, 114u8, 111u8, 114u8, 32u8, 115u8, 104u8, 117u8, 116u8,
        116u8, 105u8, 110u8, 103u8, 32u8, 100u8, 111u8, 119u8, 110u8, 32u8, 99u8, 111u8, 110u8,
        110u8, 101u8, 99u8, 116u8, 105u8, 111u8, 110u8];
    proof {
        assert(v@ =~= spec_shutdown_prefix());
    }
    v
}

} // verus!
