//! What can go wrong.

use vstd::prelude::*;

verus! {

/// The errors that commands answer with.
#[derive(Debug)]
pub enum SoneError {
    /// The network failed: trying again with other parameters is of no use.
    Network(String),
    /// TIDAL refused a request or answered it unusably.
    Api(String),
    /// The audio pipeline failed.
    Audio(String),
    /// A text is not what it should be.
    Parse(String),
    /// Something that the user or the build has to provide is missing.
    NotConfigured(String),
    /// A scrobbling service failed or is not known.
    Scrobble(String),
    /// No speaker answers.
    SonosUnreachable(String),
    /// A speaker answered something that makes no sense now.
    SonosProtocol(String),
    /// A speaker refused an action.
    SonosUpnp { action: String, code: u32 },
    /// A file could not be read or written.
    Storage(String),
}

impl SoneError {
    /// Whether the network failed.
    pub fn is_network(&self) -> (network: bool)
        ensures
            network == (self is Network),
    {
        match self {
            SoneError::Network(_) => true,
            _ => false,
        }
    }

    /// Whether a speaker refused an action.
    pub fn is_sonos_upnp(&self) -> (upnp: bool)
        ensures
            upnp == (self is SonosUpnp),
    {
        match self {
            SoneError::SonosUpnp { .. } => true,
            _ => false,
        }
    }
}

} // verus!
