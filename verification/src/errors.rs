use vstd::prelude::*;

verus! {

/// Failure to establish the connection to the block engine when a session is
/// constructed: malformed endpoint, unreachable service, or handshake
/// failure. Fatal for that construction attempt; the library never retries.
pub struct ConnectionError {
    /// The transport's description of why the connection failed.
    pub message: String,
}

impl ConnectionError {
    /// Wrap the transport's description of a failed connection attempt.
    pub fn new(message: String) -> (e: Self)
        ensures
            e.message@ == message@,
    {
        ConnectionError { message }
    }
}

/// The credential cannot be encoded into request metadata: it holds bytes the
/// transport's metadata representation refuses. Local to the one call that
/// raised it; the session stays usable.
#[derive(Clone, Copy, PartialEq, Eq, Structural, Debug)]
pub struct MetadataEncodingError;

/// A streaming call failed as a whole: either its authentication metadata
/// could not be built, or the transport or the remote side failed the call.
#[derive(Clone, Copy, PartialEq, Eq, Structural, Debug)]
pub enum StreamError {
    /// The session credential could not be encoded into the call's metadata.
    MetadataEncoding,
    /// The transport or the remote side failed the call.
    Transport,
}

} // verus!
