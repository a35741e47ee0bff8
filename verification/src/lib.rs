//! Secure session establishment for a remote-desktop system: session
//! identity, ephemeral key exchange, an authenticated-encryption channel,
//! password-based authentication, the signaling protocol model, and the
//! relay's session registry and brokering logic.

use vstd::prelude::*;

pub mod capture;
pub mod channel;
pub mod codec;
pub mod digits;
pub mod input;
pub mod keys;
pub mod network;
pub mod password;
pub mod protocol;
pub mod registry;
pub mod relay;
pub mod session_id;
pub mod signaling;
pub mod webrtc;

verus! {

/// Error kinds for session establishment and brokering operations.
#[derive(Debug, Clone)]
pub enum Error {
    /// Transport or connection failure.
    Network(String),
    /// Password hashing or verification failure.
    Authentication(String),
    /// Session-lifecycle misuse, e.g. an unknown session id.
    Session(String),
    /// Failure while encoding a payload.
    Encoding(String),
    /// Failure while decoding a payload (AEAD or wire format).
    Decoding(String),
    /// Input/output failure, reported by the surrounding process.
    Io(String),
    /// Malformed wire payload.
    Serialization(String),
}

} // verus!

