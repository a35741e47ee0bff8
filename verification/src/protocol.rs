//! The data model of a session and the closed set of protocol messages
//! peers exchange once a secure channel exists. Every variant is
//! self-describing; handling is exhaustive by construction, so a new
//! variant is a compile-time-visible change everywhere it is consumed.

use vstd::prelude::*;

verus! {

use crate::Error;
use crate::digits::code9;
use crate::digits::is_code9;
use crate::password::hash_password;
use crate::password::is_phc_hash;
use crate::password::password_matches;
use crate::session_id::SessionId;
use crate::session_id::canonical_val;
use crate::session_id::is_canonical;
use vstd::string::StringExecFns;

/// Connection mode of a remote session; governs which message variants a
/// session may legitimately carry.
#[derive(Debug, Clone, Copy, PartialEq, Eq, Structural)]
pub enum ConnectionMode {
    /// View-only mode; no input control.
    ViewOnly,
    /// Full control; keyboard and mouse input enabled.
    FullControl,
    /// File transfer only.
    FileTransfer,
}

impl ConnectionMode {
    /// The mode's name, for presentation.
    pub fn name(&self) -> (r: String)
        ensures
            self is ViewOnly ==> r@ == "ViewOnly"@,
            self is FullControl ==> r@ == "FullControl"@,
            self is FileTransfer ==> r@ == "FileTransfer"@,
    {
        match self {
            ConnectionMode::ViewOnly => String::from_str("ViewOnly"),
            ConnectionMode::FullControl => String::from_str("FullControl"),
            ConnectionMode::FileTransfer => String::from_str("FileTransfer"),
        }
    }
}

/// Video quality setting, carried in the session configuration and consumed
/// by the codec collaborator.
#[derive(Debug, Clone, Copy, PartialEq, Eq, Structural)]
pub enum VideoQuality {
    Low,
    Medium,
    High,
    Adaptive,
}

impl Default for VideoQuality {
    /// The default quality adapts to network conditions.
    fn default() -> (r: Self)
        ensures
            r == VideoQuality::Adaptive,
    {
        VideoQuality::Adaptive
    }
}

/// Configuration of one session, created once at host start or client
/// connect and immutable thereafter.
#[derive(Debug, Clone)]
pub struct SessionConfig {
    pub session_id: SessionId,
    pub mode: ConnectionMode,
    pub password_hash: Option<String>,
    pub clipboard_sync: bool,
    pub quality: VideoQuality,
}

/// Input event kinds carried in protocol messages.
#[derive(Debug, Clone, Copy, PartialEq, Eq, Structural)]
pub enum InputEventType {
    KeyPress,
    KeyRelease,
    MouseMove,
    MouseButtonPress,
    MouseButtonRelease,
    MouseScroll,
}

/// Identifier of one file transfer, unique per transfer.
#[derive(Debug, Clone, Copy, PartialEq, Eq, Structural)]
pub struct TransferId {
    pub value: u128,
}

/// The closed set of messages peers exchange once a secure channel exists;
/// each is AEAD-encrypted before transport.
#[derive(Debug, Clone)]
pub enum ProtocolMessage {
    /// Request to establish a new session.
    SessionRequest { session_id: SessionId, password: Option<String>, mode: ConnectionMode },
    /// Response to a session request.
    SessionResponse { accepted: bool, reason: Option<String> },
    /// Keep-alive with no payload.
    Heartbeat,
    /// Encoded video frame data.
    VideoFrame { timestamp: u64, data: Vec<u8> },
    /// Keyboard or mouse event.
    InputEvent { event_type: InputEventType, data: Vec<u8> },
    /// Clipboard contents.
    Clipboard { content: String },
    /// File transfer initiation.
    FileTransferStart { file_name: String, file_size: u64, transfer_id: TransferId },
    /// One chunk of a file transfer.
    FileTransferChunk { transfer_id: TransferId, chunk_index: u64, data: Vec<u8> },
    /// End of a file transfer.
    FileTransferComplete { transfer_id: TransferId },
    /// Session termination.
    Disconnect { reason: String },
}

/// Build the configuration for hosting a new session: a fresh session
/// identifier, full control, clipboard sync on, adaptive quality, and the
/// password hashed if one was given. Succeeds whenever no password is given
/// or the password lies below the hash function's length limit.
pub fn host_session_config(password: Option<String>) -> (r: Result<SessionConfig, Error>)
    ensures
        password is None ==> r is Ok,
        password matches Some(p) ==> (p@.len() < 0x3FFF_FFFF ==> r is Ok),
        r matches Ok(c) ==> {
            &&& c.mode == ConnectionMode::FullControl
            &&& c.clipboard_sync
            &&& c.quality == VideoQuality::Adaptive
            &&& (c.password_hash is Some) == (password is Some)
            &&& (c.password_hash matches Some(h) ==> is_phc_hash(h@))
            &&& (password matches Some(p) ==> (c.password_hash matches Some(h)
                ==> password_matches(p@, h@)))
        },
        r matches Err(e) ==> e is Authentication && password is Some,
{
    let session_id = SessionId::new();
    let password_hash = match &password {
        Some(p) => match hash_password(p.as_str()) {
            Ok(h) => Some(h),
            Err(e) => {
                return Err(e);
            },
        },
        None => None,
    };
    Ok(
        SessionConfig {
            session_id,
            mode: ConnectionMode::FullControl,
            password_hash,
            clipboard_sync: true,
            quality: VideoQuality::Adaptive,
        },
    )
}

/// Build the configuration for joining an existing session from entered
/// text: the identifier is parsed from its canonical serialization, and a
/// password, if entered, is hashed on a best-effort basis — a hashing
/// failure, possible only for a password beyond the hash function's length
/// limit, leaves the hash out, as entry can be retried. Without a password
/// no hash is set.
pub fn client_session_config(session_id_text: &str, password: Option<String>) -> (r: Result<
    SessionConfig,
    Error,
>)
    ensures
        (r is Ok) == is_canonical(session_id_text@),
        r matches Ok(c) ==> {
            &&& c.session_id.value as int == canonical_val(session_id_text@)
            &&& c.mode == ConnectionMode::FullControl
            &&& c.clipboard_sync
            &&& c.quality == VideoQuality::Adaptive
            &&& (password is None ==> c.password_hash is None)
            &&& (password matches Some(p) ==> (p@.len() < 0x3FFF_FFFF ==> c.password_hash is Some))
            &&& (c.password_hash matches Some(h) ==> password is Some && is_phc_hash(h@))
            &&& (password matches Some(p) ==> (c.password_hash matches Some(h)
                ==> password_matches(p@, h@)))
        },
        r matches Err(e) ==> e is Session,
{
    let session_id = match SessionId::from_string(session_id_text) {
        Ok(id) => id,
        Err(_) => {
            return Err(Error::Session(String::from_str("Invalid session ID")));
        },
    };
    let password_hash = match &password {
        Some(p) => match hash_password(p.as_str()) {
            Ok(h) => Some(h),
            Err(_) => None,
        },
        None => None,
    };
    Ok(
        SessionConfig {
            session_id,
            mode: ConnectionMode::FullControl,
            password_hash,
            clipboard_sync: true,
            quality: VideoQuality::Adaptive,
        },
    )
}

/// The presentation strings of a session configuration: the nine-digit
/// entry code of its own identifier, and its mode's name.
pub fn session_info_strings(config: &SessionConfig) -> (r: (String, String))
    ensures
        r.0@ == code9((config.session_id.value % 1_000_000_000) as int),
        is_code9(r.0@),
        config.mode is ViewOnly ==> r.1@ == "ViewOnly"@,
        config.mode is FullControl ==> r.1@ == "FullControl"@,
        config.mode is FileTransfer ==> r.1@ == "FileTransfer"@,
{
    (config.session_id.display_code(), config.mode.name())
}

} // verus!
