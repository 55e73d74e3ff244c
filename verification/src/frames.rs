//! The exact texts of the frames the bridge sends to clients.
//!
//! The three authentication responses, the welcome frame and the heartbeat
//! reply are fixed texts; the forwarded broker publication embeds the topic
//! (escaped) and the payload (already validated JSON, verbatim) in a fixed
//! template.

use vstd::prelude::*;
use crate::json::{json_escape, append_json_escaped};
use crate::messages::{BridgeMessage, BridgeMessageView};

verus! {

/// The response to a successful authentication.
pub open spec fn auth_success_text() -> Seq<char> {
    "{\"type\":\"auth_response\",\"status\":\"success\",\"message\":\"Authenticated successfully\"}"@
}

/// The response to an authentication request whose key does not match.
pub open spec fn auth_invalid_key_text() -> Seq<char> {
    "{\"type\":\"auth_response\",\"status\":\"error\",\"message\":\"Invalid authentication key\"}"@
}

/// The response to a first frame that is not an authentication request.
pub open spec fn auth_required_text() -> Seq<char> {
    "{\"type\":\"auth_response\",\"status\":\"error\",\"message\":\"Authentication required\"}"@
}

/// The plain welcome frame sent after a successful authentication.
pub open spec fn welcome_text() -> Seq<char> {
    "Hello from the other side"@
}

/// The reply to every text frame of an authenticated client.
pub open spec fn heartbeat_text() -> Seq<char> {
    "Healthy"@
}

/// The frame that carries one broker publication to a client: the topic as a
/// JSON string, the payload embedded verbatim.
pub open spec fn bridge_frame_text(m: BridgeMessageView) -> Seq<char> {
    "{\"type\":\"mqtt\",\"topic\":\""@ + json_escape(m.topic) + "\",\"payload\":"@ + m.payload
        + "}"@
}

/// The response to a successful authentication.
pub fn auth_success_frame() -> (r: String)
    ensures
        r@ == auth_success_text(),
{
    ("{\"type\":\"auth_response\",\"status\":\"success\",\"message\":\"Authenticated successfully\"}").to_owned()
}

/// The response to an authentication request whose key does not match.
pub fn auth_invalid_key_frame() -> (r: String)
    ensures
        r@ == auth_invalid_key_text(),
{
    ("{\"type\":\"auth_response\",\"status\":\"error\",\"message\":\"Invalid authentication key\"}").to_owned()
}

/// The response to a first frame that is not an authentication request.
pub fn auth_required_frame() -> (r: String)
    ensures
        r@ == auth_required_text(),
{
    ("{\"type\":\"auth_response\",\"status\":\"error\",\"message\":\"Authentication required\"}").to_owned()
}

/// The plain welcome frame sent after a successful authentication.
pub fn welcome_frame() -> (r: String)
    ensures
        r@ == welcome_text(),
{
    ("Hello from the other side").to_owned()
}

/// The reply to every text frame of an authenticated client.
pub fn heartbeat_frame() -> (r: String)
    ensures
        r@ == heartbeat_text(),
{
    ("Healthy").to_owned()
}

/// Encodes one broker publication for the client-facing transport.
pub fn encode_bridge_message(m: &BridgeMessage) -> (r: String)
    ensures
        r@ == bridge_frame_text(m@),
{
    let mut out = ("{\"type\":\"mqtt\",\"topic\":\"").to_owned();
    append_json_escaped(&mut out, m.topic.as_str());
    out.append("\",\"payload\":");
    out.append(m.payload.as_str());
    out.append("}");
    proof {
        assert(out@ =~= bridge_frame_text(m@));
    }
    out
}

} // verus!
