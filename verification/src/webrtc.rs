//! WebRTC peer connection handle. The negotiation transport (offer and
//! answer exchange, ICE, data channels) is carried out by the process
//! around the library; the handle here records what the library can state
//! about those operations.

use vstd::prelude::*;

verus! {

use crate::Error;
use vstd::string::StringExecFns;

/// A WebRTC peer connection.
pub struct WebRtcPeer {}

impl WebRtcPeer {
    /// A fresh peer connection handle.
    pub fn new() -> (r: Result<WebRtcPeer, Error>)
        ensures
            r is Ok,
    {
        Ok(WebRtcPeer {  })
    }

    /// Create an SDP offer. Offer creation needs the negotiation transport,
    /// which this build does not carry; the call reports that as a network
    /// error.
    pub fn create_offer(&mut self) -> (r: Result<String, Error>)
        ensures
            r matches Err(e) && e is Network,
    {
        Err(Error::Network(String::from_str("WebRTC transport is not available")))
    }

    /// Create an SDP answer to a peer's offer. As with offers, the call
    /// needs the negotiation transport and reports a network error.
    pub fn create_answer(&mut self, offer: &str) -> (r: Result<String, Error>)
        ensures
            r matches Err(e) && e is Network,
    {
        Err(Error::Network(String::from_str("WebRTC transport is not available")))
    }

    /// Record the remote peer's session description.
    pub fn set_remote_description(&mut self, sdp: &str) -> (r: Result<(), Error>)
        ensures
            r is Ok,
    {
        Ok(())
    }

    /// Record one of the remote peer's ICE candidates.
    pub fn add_ice_candidate(&mut self, candidate: &str) -> (r: Result<(), Error>)
        ensures
            r is Ok,
    {
        Ok(())
    }

    /// Open a data channel with the given label.
    pub fn create_data_channel(&mut self, label: &str) -> (r: Result<(), Error>)
        ensures
            r is Ok,
    {
        Ok(())
    }
}

impl Default for WebRtcPeer {
    /// A fresh peer connection handle.
    fn default() -> Self {
        match WebRtcPeer::new() {
            Ok(p) => p,
            Err(_) => WebRtcPeer {  },
        }
    }
}

} // verus!
