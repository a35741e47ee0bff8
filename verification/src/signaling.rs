//! The signaling wire model: the closed set of messages exchanged with the
//! relay (one JSON object per message on the wire, discriminated by a
//! `type` tag whose values are the snake_case variant names), and the
//! client-side handle on a signaling server.

use vstd::prelude::*;

verus! {

/// A signaling message. `session_id` carries the identifier's wire string
/// form. Offer, answer and ICE-candidate payloads are opaque to the relay:
/// they are forwarded verbatim, never decrypted or rewritten.
#[derive(Debug, Clone)]
pub enum SignalingMessage {
    /// Register a new session; sent by the hosting side.
    Register { session_id: String },
    /// Join an existing session; sent by the client.
    Join { session_id: String },
    /// An SDP offer to forward to the other matched endpoint.
    Offer { session_id: String, sdp: String },
    /// An SDP answer to forward to the other matched endpoint.
    Answer { session_id: String, sdp: String },
    /// An ICE candidate to forward to the other matched endpoint.
    IceCandidate { session_id: String, candidate: String },
    /// Acknowledgement to the sender.
    Success { message: String },
    /// Rejection to the sender; the connection stays open.
    Error { message: String },
}

/// A client's handle on the signaling server; transport is done by the
/// process around the library.
pub struct SignalingClient {
    pub server_url: String,
}

impl SignalingClient {
    /// A new client aimed at the given server address.
    pub fn new(server_url: String) -> (r: SignalingClient)
        ensures
            r.server_url@ == server_url@,
    {
        SignalingClient { server_url }
    }
}

} // verus!
