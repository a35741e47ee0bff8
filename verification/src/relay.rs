//! The relay's brokering logic: one signaling message in, one reply out to
//! the sender, plus — for offer, answer and ICE-candidate payloads — a
//! forwarding directive toward whichever matched endpoint is not the
//! sender. The payloads themselves stay opaque: the relay never decrypts or
//! rewrites them.
//!
//! A session identifier on the wire is accepted in either text form the
//! identity module renders (the canonical serialization or the nine-digit
//! entry code); the registry is keyed by the exact string received. Any
//! other identifier text is answered with an error, and malformed input
//! leaves the registry untouched while the connection stays open.
//!
//! Only register and join mutate the registry; payload routing only reads
//! it, and `handle_readonly_message` lets the surrounding process serve
//! those under a shared (read) lock while mutations stay serialized.

use vstd::prelude::*;

verus! {

use crate::registry::RelayRegistry;
use crate::registry::RelaySession;
use crate::session_id::parse_session_text;
use crate::session_id::session_text_val;
use crate::signaling::SignalingMessage;
use vstd::string::StringExecFns;

/// A directive to deliver a message to another live connection, produced
/// when a payload must be routed to the sender's counterpart.
pub struct Forward {
    /// The connection handle to deliver to.
    pub to: u64,
    /// The message to deliver, verbatim.
    pub message: SignalingMessage,
}

/// The endpoint of a session that is not the sender: the client when the
/// sender registered as host, otherwise the host.
pub open spec fn counterpart(session: RelaySession, from: u64) -> Option<u64> {
    if session.host_handle == Some(from) {
        session.client_handle
    } else {
        session.host_handle
    }
}

/// The registry contents after one signaling message from connection
/// `from`: register inserts (or overwrites) the record for a well-formed
/// identifier, join sets the client handle of an existing record, and every
/// other message leaves the registry unchanged.
pub open spec fn relay_next(
    m: Map<Seq<char>, RelaySession>,
    msg: SignalingMessage,
    from: u64,
) -> Map<Seq<char>, RelaySession> {
    match msg {
        SignalingMessage::Register { session_id } => match session_text_val(session_id@) {
            Some(v) => m.insert(
                session_id@,
                RelaySession {
                    session_id: v as u128,
                    host_handle: Some(from),
                    client_handle: None,
                },
            ),
            None => m,
        },
        SignalingMessage::Join { session_id } => if m.contains_key(session_id@) {
            m.insert(
                session_id@,
                RelaySession {
                    session_id: m[session_id@].session_id,
                    host_handle: m[session_id@].host_handle,
                    client_handle: Some(from),
                },
            )
        } else {
            m
        },
        _ => m,
    }
}

/// The reply and forwarding directive owed for one signaling message from
/// connection `from`, against registry contents `m`.
pub open spec fn reply_matches(
    m: Map<Seq<char>, RelaySession>,
    msg: SignalingMessage,
    from: u64,
    r: (SignalingMessage, Option<Forward>),
) -> bool {
    match msg {
        SignalingMessage::Register { session_id } => {
            &&& r.1 is None
            &&& match session_text_val(session_id@) {
                Some(v) => r.0 matches SignalingMessage::Success { message } && message@
                    == "Session "@ + session_id@ + " registered"@,
                None => r.0 matches SignalingMessage::Error { message } && message@
                    == "Invalid session ID"@,
            }
        },
        SignalingMessage::Join { session_id } => {
            &&& r.1 is None
            &&& if m.contains_key(session_id@) {
                r.0 matches SignalingMessage::Success { message } && message@
                    == "Joined session "@ + session_id@
            } else {
                r.0 matches SignalingMessage::Error { message } && message@
                    == "Session not found"@
            }
        },
        SignalingMessage::Offer { session_id, sdp } => {
            if m.contains_key(session_id@) {
                &&& r.0 matches SignalingMessage::Success { message } && message@
                    == "Offer received"@
                &&& match counterpart(m[session_id@], from) {
                    Some(t) => r.1 matches Some(f) && f.to == t && (f.message
                        matches SignalingMessage::Offer { session_id: s2, sdp: p2 } && s2@
                        == session_id@ && p2@ == sdp@),
                    None => r.1 is None,
                }
            } else {
                &&& r.0 matches SignalingMessage::Error { message } && message@
                    == "Session not found"@
                &&& r.1 is None
            }
        },
        SignalingMessage::Answer { session_id, sdp } => {
            if m.contains_key(session_id@) {
                &&& r.0 matches SignalingMessage::Success { message } && message@
                    == "Answer received"@
                &&& match counterpart(m[session_id@], from) {
                    Some(t) => r.1 matches Some(f) && f.to == t && (f.message
                        matches SignalingMessage::Answer { session_id: s2, sdp: p2 } && s2@
                        == session_id@ && p2@ == sdp@),
                    None => r.1 is None,
                }
            } else {
                &&& r.0 matches SignalingMessage::Error { message } && message@
                    == "Session not found"@
                &&& r.1 is None
            }
        },
        SignalingMessage::IceCandidate { session_id, candidate } => {
            if m.contains_key(session_id@) {
                &&& r.0 matches SignalingMessage::Success { message } && message@
                    == "ICE candidate received"@
                &&& match counterpart(m[session_id@], from) {
                    Some(t) => r.1 matches Some(f) && f.to == t && (f.message
                        matches SignalingMessage::IceCandidate { session_id: s2, candidate: c2 }
                        && s2@ == session_id@ && c2@ == candidate@),
                    None => r.1 is None,
                }
            } else {
                &&& r.0 matches SignalingMessage::Error { message } && message@
                    == "Session not found"@
                &&& r.1 is None
            }
        },
        _ => {
            &&& r.0 matches SignalingMessage::Error { message } && message@
                == "Invalid message type"@
            &&& r.1 is None
        },
    }
}

/// Handle a message that never mutates the registry — an offer, answer or
/// ICE candidate to route, or a stray reply message to reject. The caller
/// may hold a shared (read) lock on the registry; register and join go
/// through `handle_signaling_message` under the writer lock.
pub fn handle_readonly_message(
    registry: &RelayRegistry,
    msg: SignalingMessage,
    from: u64,
) -> (r: (SignalingMessage, Option<Forward>))
    requires
        registry.wf(),
        !(msg is Register),
        !(msg is Join),
    ensures
        reply_matches(registry@, msg, from, r),
{
    match msg {
        SignalingMessage::Offer { session_id, sdp } => {
            match registry.lookup(&session_id) {
                Some(session) => {
                    let target: Option<u64> = match session.host_handle {
                        Some(h) => if h == from {
                            session.client_handle
                        } else {
                            session.host_handle
                        },
                        None => None,
                    };
                    let forward = match target {
                        Some(t) => Some(
                            Forward {
                                to: t,
                                message: SignalingMessage::Offer {
                                    session_id: session_id.clone(),
                                    sdp,
                                },
                            },
                        ),
                        None => None,
                    };
                    (
                        SignalingMessage::Success { message: String::from_str("Offer received") },
                        forward,
                    )
                },
                None => (
                    SignalingMessage::Error { message: String::from_str("Session not found") },
                    None,
                ),
            }
        },
        SignalingMessage::Answer { session_id, sdp } => {
            match registry.lookup(&session_id) {
                Some(session) => {
                    let target: Option<u64> = match session.host_handle {
                        Some(h) => if h == from {
                            session.client_handle
                        } else {
                            session.host_handle
                        },
                        None => None,
                    };
                    let forward = match target {
                        Some(t) => Some(
                            Forward {
                                to: t,
                                message: SignalingMessage::Answer {
                                    session_id: session_id.clone(),
                                    sdp,
                                },
                            },
                        ),
                        None => None,
                    };
                    (
                        SignalingMessage::Success { message: String::from_str("Answer received") },
                        forward,
                    )
                },
                None => (
                    SignalingMessage::Error { message: String::from_str("Session not found") },
                    None,
                ),
            }
        },
        SignalingMessage::IceCandidate { session_id, candidate } => {
            match registry.lookup(&session_id) {
                Some(session) => {
                    let target: Option<u64> = match session.host_handle {
                        Some(h) => if h == from {
                            session.client_handle
                        } else {
                            session.host_handle
                        },
                        None => None,
                    };
                    let forward = match target {
                        Some(t) => Some(
                            Forward {
                                to: t,
                                message: SignalingMessage::IceCandidate {
                                    session_id: session_id.clone(),
                                    candidate,
                                },
                            },
                        ),
                        None => None,
                    };
                    (
                        SignalingMessage::Success {
                            message: String::from_str("ICE candidate received"),
                        },
                        forward,
                    )
                },
                None => (
                    SignalingMessage::Error { message: String::from_str("Session not found") },
                    None,
                ),
            }
        },
        _ => (
            SignalingMessage::Error { message: String::from_str("Invalid message type") },
            None,
        ),
    }
}

/// Handle one decoded signaling message from connection `from`: drive the
/// registry and produce the reply to the sender, with the forwarding
/// directive when a payload has a counterpart to go to.
pub fn handle_signaling_message(
    registry: &mut RelayRegistry,
    msg: SignalingMessage,
    from: u64,
) -> (r: (SignalingMessage, Option<Forward>))
    requires
        old(registry).wf(),
    ensures
        final(registry).wf(),
        final(registry)@ == relay_next(old(registry)@, msg, from),
        reply_matches(old(registry)@, msg, from, r),
{
    match msg {
        SignalingMessage::Register { session_id } => {
            match parse_session_text(session_id.as_str()) {
                Some(id) => {
                    registry.register(
                        session_id.clone(),
                        RelaySession {
                            session_id: id.value,
                            host_handle: Some(from),
                            client_handle: None,
                        },
                    );
                    let text = String::from_str("Session ").concat(session_id.as_str()).concat(
                        " registered",
                    );
                    (SignalingMessage::Success { message: text }, None)
                },
                None => (
                    SignalingMessage::Error {
                        message: String::from_str("Invalid session ID"),
                    },
                    None,
                ),
            }
        },
        SignalingMessage::Join { session_id } => {
            if registry.join(&session_id, from) {
                let text = String::from_str("Joined session ").concat(session_id.as_str());
                (SignalingMessage::Success { message: text }, None)
            } else {
                (SignalingMessage::Error { message: String::from_str("Session not found") }, None)
            }
        },
        other => handle_readonly_message(&*registry, other, from),
    }
}

/// Handle one inbound frame: decoded messages go to the handler; input that
/// failed to decode is answered with an error while the registry stays
/// untouched and the connection stays open for further attempts.
pub fn handle_incoming(
    registry: &mut RelayRegistry,
    msg: Option<SignalingMessage>,
    from: u64,
) -> (r: (SignalingMessage, Option<Forward>))
    requires
        old(registry).wf(),
    ensures
        final(registry).wf(),
        msg matches Some(m) ==> final(registry)@ == relay_next(old(registry)@, m, from)
            && reply_matches(old(registry)@, m, from, r),
        msg is None ==> final(registry)@ == old(registry)@ && r.1 is None && (r.0
            matches SignalingMessage::Error { message } && message@ == "Invalid message format"@),
{
    match msg {
        Some(m) => handle_signaling_message(registry, m, from),
        None => (
            SignalingMessage::Error { message: String::from_str("Invalid message format") },
            None,
        ),
    }
}

} // verus!
