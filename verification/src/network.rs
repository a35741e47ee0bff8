//! Peer connection model: configuration, connection state, and the state
//! machine of one network peer. The transport itself (sockets, data
//! channels, the message pump) belongs to the process around the library;
//! here stand the states and transitions it drives.

use vstd::prelude::*;

verus! {

use crate::Error;
use crate::session_id::SessionId;
use vstd::string::StringExecFns;

/// The transport a peer connection runs over.
#[derive(Debug, Clone, Copy, PartialEq, Eq, Structural)]
pub enum ConnectionType {
    /// WebRTC data channel (preferred).
    WebRTC,
    /// QUIC fallback.
    QUIC,
}

/// Network configuration.
#[derive(Debug, Clone)]
pub struct NetworkConfig {
    /// Signaling server address.
    pub signaling_server: String,
    /// STUN servers for NAT traversal.
    pub stun_servers: Vec<String>,
    /// TURN servers for relay.
    pub turn_servers: Vec<TurnServer>,
    /// Whether to fall back to QUIC.
    pub enable_quic_fallback: bool,
}

impl Default for NetworkConfig {
    /// The default signaling server, two public STUN servers, no TURN
    /// servers, QUIC fallback enabled.
    fn default() -> (r: Self)
        ensures
            r.signaling_server@ == "wss://signal.ada-remote.io"@,
            r.stun_servers@.len() == 2,
            r.stun_servers@[0]@ == "stun:stun.l.google.com:19302"@,
            r.stun_servers@[1]@ == "stun:stun1.l.google.com:19302"@,
            r.turn_servers@.len() == 0,
            r.enable_quic_fallback,
    {
        let mut stun_servers: Vec<String> = Vec::new();
        stun_servers.push(String::from_str("stun:stun.l.google.com:19302"));
        stun_servers.push(String::from_str("stun:stun1.l.google.com:19302"));
        NetworkConfig {
            signaling_server: String::from_str("wss://signal.ada-remote.io"),
            stun_servers,
            turn_servers: Vec::new(),
            enable_quic_fallback: true,
        }
    }
}

/// A TURN relay server and its credentials.
#[derive(Debug, Clone)]
pub struct TurnServer {
    pub url: String,
    pub username: String,
    pub credential: String,
}

/// The lifecycle state of a peer connection.
#[derive(Debug, Clone, Copy, PartialEq, Eq, Structural)]
pub enum ConnectionState {
    Disconnected,
    Connecting,
    Connected,
    Failed,
}

/// One remote peer connection: its session, transport, and state.
pub struct NetworkPeer {
    pub session_id: SessionId,
    pub connection_type: ConnectionType,
    pub state: ConnectionState,
}

impl NetworkPeer {
    /// A fresh, disconnected peer for a session.
    pub fn new(session_id: SessionId, connection_type: ConnectionType) -> (r: NetworkPeer)
        ensures
            r.session_id == session_id,
            r.connection_type == connection_type,
            r.state == ConnectionState::Disconnected,
    {
        NetworkPeer { session_id, connection_type, state: ConnectionState::Disconnected }
    }

    /// The session this peer belongs to.
    pub fn session_id(&self) -> (r: SessionId)
        ensures
            r == self.session_id,
    {
        self.session_id
    }

    /// The transport this peer runs over.
    pub fn connection_type(&self) -> (r: ConnectionType)
        ensures
            r == self.connection_type,
    {
        self.connection_type
    }

    /// The current lifecycle state.
    pub fn state(&self) -> (r: ConnectionState)
        ensures
            r == self.state,
    {
        self.state
    }

    /// Bring the connection up. The negotiation itself (signaling, offers
    /// and answers, ICE) is driven by the surrounding process; this is the
    /// state transition it commits.
    pub fn connect(&mut self, config: &NetworkConfig) -> (r: Result<(), Error>)
        ensures
            r is Ok,
            final(self).state == ConnectionState::Connected,
            final(self).session_id == old(self).session_id,
            final(self).connection_type == old(self).connection_type,
    {
        self.state = ConnectionState::Connected;
        Ok(())
    }

    /// Tear the connection down.
    pub fn disconnect(&mut self) -> (r: Result<(), Error>)
        ensures
            r is Ok,
            final(self).state == ConnectionState::Disconnected,
            final(self).session_id == old(self).session_id,
            final(self).connection_type == old(self).connection_type,
    {
        self.state = ConnectionState::Disconnected;
        Ok(())
    }
}

/// Create a hosting peer: a fresh session identifier, waiting for an
/// incoming connection.
pub fn create_host(config: NetworkConfig) -> (r: Result<NetworkPeer, Error>)
    ensures
        r matches Ok(p) ==> p.connection_type == ConnectionType::WebRTC && p.state
            == ConnectionState::Connecting,
{
    let session_id = SessionId::new();
    let mut peer = NetworkPeer::new(session_id, ConnectionType::WebRTC);
    peer.state = ConnectionState::Connecting;
    Ok(peer)
}

/// Create a client peer for an existing session and bring it up.
pub fn create_client(session_id: SessionId, config: NetworkConfig) -> (r: Result<NetworkPeer, Error>)
    ensures
        r matches Ok(p) ==> p.session_id == session_id && p.connection_type
            == ConnectionType::WebRTC && p.state == ConnectionState::Connected,
{
    let mut peer = NetworkPeer::new(session_id, ConnectionType::WebRTC);
    match peer.connect(&config) {
        Ok(()) => Ok(peer),
        Err(e) => Err(e),
    }
}

} // verus!
