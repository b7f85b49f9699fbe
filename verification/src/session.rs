use vstd::prelude::*;

use crate::auth::{authorization_entry, bearer_value, valid_metadata_value, RequestMetadata};
use crate::errors::{MetadataEncodingError, StreamError};
use tonic::transport::Channel;

verus! {

/// The transport's channel handle (`tonic::transport::Channel`): one open
/// connection, cheaply clonable, shared by every call issued through it.
/// Opaque to this core, which only carries it.
#[verifier::external_type_specification]
#[verifier::external_body]
pub struct ExChannel(Channel);

/// A connected session against the block engine: the channel handle that all
/// calls share, and the credential fixed at construction. A session is either
/// authenticated for its whole lifetime or anonymous for its whole lifetime;
/// there is no per-call override.
pub struct Session {
    channel: Channel,
    credential: Option<Vec<u8>>,
}

impl Session {
    /// The bearer credential this session was constructed with, if any.
    pub closed spec fn credential(&self) -> Option<Seq<u8>> {
        match self.credential {
            Some(token) => Some(token@),
            None => None,
        }
    }

    /// A session over an established channel. The credential, when given, is
    /// stored verbatim and never changed afterwards.
    pub fn new(channel: Channel, credential: Option<Vec<u8>>) -> (s: Session)
        ensures
            s.credential() == credential.deep_view(),
    {
        Session { channel, credential }
    }

    /// Whether calls issued through this session carry a credential.
    pub fn is_authenticated(&self) -> (b: bool)
        ensures
            b == (self.credential() is Some),
    {
        self.credential.is_some()
    }

    /// The shared channel handle, for issuing calls against the service.
    pub fn channel(&self) -> &Channel {
        &self.channel
    }

    /// The metadata that every call issued through this session carries: the
    /// authenticator applied identically on the outbound and the inbound
    /// path. An authenticated session's calls carry `Bearer <token>` under
    /// the `authorization` key; an anonymous session's calls carry nothing.
    /// Fails exactly when a present credential cannot be encoded as metadata.
    pub fn request_metadata(&self) -> (r: Result<RequestMetadata, MetadataEncodingError>)
        ensures
            self.credential() is None ==> (r matches Ok(m) && m.authorization is None),
            self.credential() matches Some(token) ==> {
                &&& valid_metadata_value(token) ==> (r matches Ok(m) && (
                m.authorization matches Some(v) && v@ == bearer_value(token)))
                &&& !valid_metadata_value(token) ==> r is Err
            },
    {
        match authorization_entry(&self.credential) {
            Ok(authorization) => Ok(RequestMetadata { authorization }),
            Err(e) => Err(e),
        }
    }

    /// The metadata for one streaming call, with an encoding failure already
    /// mapped to the call's own error: a streaming call fails as a whole when
    /// its authentication metadata cannot be built.
    pub fn streaming_call_metadata(&self) -> (r: Result<RequestMetadata, StreamError>)
        ensures
            self.credential() is None ==> (r matches Ok(m) && m.authorization is None),
            self.credential() matches Some(token) ==> {
                &&& valid_metadata_value(token) ==> (r matches Ok(m) && (
                m.authorization matches Some(v) && v@ == bearer_value(token)))
                &&& !valid_metadata_value(token) ==> r == Err::<RequestMetadata, StreamError>(
                    StreamError::MetadataEncoding,
                )
            },
    {
        match self.request_metadata() {
            Ok(m) => Ok(m),
            Err(_) => Err(StreamError::MetadataEncoding),
        }
    }
}

} // verus!
