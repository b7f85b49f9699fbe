use vstd::prelude::*;

use crate::errors::MetadataEncodingError;

verus! {

/// A byte the transport accepts in an ascii metadata value: horizontal tab,
/// or any byte from 32 upward except 127 (DEL).
pub open spec fn is_valid_metadata_byte(b: u8) -> bool {
    b == 9 || (32 <= b && b != 127)
}

/// A byte string the transport accepts as a metadata value.
pub open spec fn valid_metadata_value(s: Seq<u8>) -> bool {
    forall|i: int| 0 <= i < s.len() ==> is_valid_metadata_byte(s[i])
}

/// The bytes of `Bearer `, the fixed prefix of every authorization value the
/// session attaches.
pub open spec fn bearer_prefix() -> Seq<u8> {
    seq![66u8, 101u8, 97u8, 114u8, 101u8, 114u8, 32u8]
}

/// The authorization value carried for a bearer token: `Bearer <token>`.
pub open spec fn bearer_value(token: Seq<u8>) -> Seq<u8> {
    bearer_prefix() + token
}

/// A bearer authorization value is encodable as request metadata exactly when
/// the token it carries is: the fixed prefix only adds bytes the transport
/// accepts.
pub proof fn lemma_bearer_valid_iff_token_valid(token: Seq<u8>)
    ensures
        valid_metadata_value(bearer_value(token)) <==> valid_metadata_value(token),
{
    let b = bearer_value(token);
    if valid_metadata_value(b) {
        assert forall|i: int| 0 <= i < token.len() implies is_valid_metadata_byte(token[i]) by {
            assert(b[i + 7] == token[i]);
        }
    }
    if valid_metadata_value(token) {
        assert forall|i: int| 0 <= i < b.len() implies is_valid_metadata_byte(b[i]) by {
            if i < 7 {
                assert(is_valid_metadata_byte(bearer_prefix()[i]));
            } else {
                assert(b[i] == token[i - 7]);
            }
        }
    }
}

/// Build the `Bearer <token>` authorization value for a token.
pub fn bearer_bytes(token: &Vec<u8>) -> (r: Vec<u8>)
    ensures
        r@ == bearer_value(token@),
{
    let mut out: Vec<u8> = Vec::new();
    out.push(66u8);
    out.push(101u8);
    out.push(97u8);
    out.push(114u8);
    out.push(101u8);
    out.push(114u8);
    out.push(32u8);
    proof {
        assert(out@ =~= bearer_prefix());
    }
    let mut i: usize = 0;
    while i < token.len()
        invariant
            i <= token.len(),
            out@ == bearer_prefix() + token@.take(i as int),
        decreases token.len() - i,
    {
        out.push(token[i]);
        proof {
            assert(out@ =~= bearer_prefix() + token@.take(i as int + 1));
        }
        i = i + 1;
    }
    proof {
        assert(token@.take(token.len() as int) =~= token@);
    }
    out
}

/// Relies on `tonic::metadata::MetadataValue::<Ascii>::try_from` for byte
/// slices, which delegates to `http::HeaderValue::from_bytes`: it accepts a
/// byte string exactly when every byte is tab or lies in 32..=255 without
/// 127, and an accepted value holds the input bytes unchanged.
#[verifier::external_body]
fn encode_metadata_value(value: &Vec<u8>) -> (r: Result<Vec<u8>, MetadataEncodingError>)
    ensures
        r is Ok <==> valid_metadata_value(value@),
        r matches Ok(v) ==> v@ == value@,
{
    match tonic::metadata::MetadataValue::<tonic::metadata::Ascii>::try_from(value.as_slice()) {
        Ok(v) => Ok(v.as_encoded_bytes().to_vec()),
        Err(_) => Err(MetadataEncodingError),
    }
}

/// The authorization entry that a call issued with the given credential
/// carries: nothing for an anonymous session, the encoded `Bearer <token>`
/// value otherwise. Fails exactly when a credential is present and the
/// transport cannot encode it as metadata.
pub fn authorization_entry(credential: &Option<Vec<u8>>) -> (r: Result<
    Option<Vec<u8>>,
    MetadataEncodingError,
>)
    ensures
        credential is None ==> r == Ok::<Option<Vec<u8>>, MetadataEncodingError>(None),
        credential matches Some(token) ==> {
            &&& valid_metadata_value(token@) ==> (r matches Ok(a) && (a matches Some(v) && v@
                == bearer_value(token@)))
            &&& !valid_metadata_value(token@) ==> r == Err::<Option<Vec<u8>>, MetadataEncodingError>(
                MetadataEncodingError,
            )
        },
{
    match credential {
        None => Ok(None),
        Some(token) => {
            let bearer = bearer_bytes(token);
            proof {
                lemma_bearer_valid_iff_token_valid(token@);
            }
            match encode_metadata_value(&bearer) {
                Ok(v) => Ok(Some(v)),
                Err(e) => Err(e),
            }
        },
    }
}

/// An outgoing request's metadata, as far as this core writes it: the entry
/// under the fixed, case-insensitive `authorization` key.
pub struct RequestMetadata {
    /// The value stored under the `authorization` key, if one is set.
    pub authorization: Option<Vec<u8>>,
}

impl RequestMetadata {
    /// Metadata with no authorization entry, as a request starts out.
    pub fn new() -> (m: Self)
        ensures
            m.authorization is None,
    {
        RequestMetadata { authorization: None }
    }

    /// Attach the session credential, if present, as a bearer authorization
    /// value; an anonymous session leaves the metadata unchanged. Fails, with
    /// the metadata unchanged, exactly when a present credential cannot be
    /// encoded.
    pub fn attach_credential(&mut self, credential: &Option<Vec<u8>>) -> (r: Result<
        (),
        MetadataEncodingError,
    >)
        ensures
            credential is None ==> r is Ok && final(self).authorization == old(self).authorization,
            credential matches Some(token) ==> {
                &&& valid_metadata_value(token@) ==> (r is Ok && (final(self).authorization matches Some(
                    v,
                ) && v@ == bearer_value(token@)))
                &&& !valid_metadata_value(token@) ==> r is Err && *final(self) == *old(self)
            },
    {
        match authorization_entry(credential) {
            Ok(None) => Ok(()),
            Ok(Some(v)) => {
                self.authorization = Some(v);
                Ok(())
            },
            Err(e) => Err(e),
        }
    }
}

} // verus!
