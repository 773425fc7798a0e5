//! The outbound side of the gateway: what it injects into the upstream
//! handshake, and what it tells the downstream client when that handshake
//! fails.
//!
//! The handshake itself (DNS, TCP, TLS, the upgrade exchange) is performed by
//! the surrounding process; exactly one attempt is made per client session
//! and a failure is terminal for the session.

use vstd::prelude::*;
use vstd::string::*;
use crate::relay::{Frame, FrameModel};

verus! {

/// The authorization header value sent on the upstream handshake: the word
/// `Token`, a space, and the configured credential, unchanged.
pub fn authorization_header_value(credential: &str) -> (r: String)
    ensures
        r@ == "Token "@ + credential@,
{
    let mut value = String::from_str("Token ");
    value.append(credential);
    value
}

/// The exact text of the single structured error message sent downstream
/// when the upstream handshake fails, before the downstream socket is
/// closed. It identifies the event as an error, with the stable
/// machine-readable code `CONNECTION_FAILED` and a human-readable
/// description.
pub open spec fn connect_failure_text() -> Seq<char> {
    "{\"code\":\"CONNECTION_FAILED\",\"description\":\"Failed to establish proxy connection\",\"type\":\"Error\"}"@
}

/// The error message sent downstream as one text frame when the upstream
/// handshake fails; no relay loop is started in that case.
pub fn connect_failure_message() -> (r: String)
    ensures
        r@ == connect_failure_text(),
{
    String::from_str(
        "{\"code\":\"CONNECTION_FAILED\",\"description\":\"Failed to establish proxy connection\",\"type\":\"Error\"}",
    )
}

/// Decide the session's connecting state from the outcome of the upstream
/// handshake: on success nothing is written downstream and relaying begins;
/// on failure exactly one text frame — the structured failure notice — is
/// delivered downstream, the caller then closes the socket, and relaying
/// never begins.
pub fn connecting_outcome(upstream_connected: bool) -> (r: (Vec<Frame>, bool))
    ensures
        r.1 == upstream_connected,
        upstream_connected ==> r.0@.len() == 0,
        !upstream_connected ==> r.0@.len() == 1 && r.0@[0]@ == FrameModel::Text(
            connect_failure_text(),
        ),
{
    if upstream_connected {
        (Vec::new(), true)
    } else {
        let mut notice: Vec<Frame> = Vec::new();
        notice.push(Frame::Text(connect_failure_message()));
        (notice, false)
    }
}

} // verus!
