//! Cryptographic identities of users and towers.
//!
//! An identity is an elliptic-curve public key held in its 33-byte
//! compressed encoding.  Equality of identities is byte-equality of that
//! encoding; serialization returns it and deserialization accepts exactly
//! the well-formed encodings.

use vstd::prelude::*;
use crate::cryptography::is_valid_pk_bytes;
use crate::cryptography::is_valid_pk_encoding;
use crate::encoding::bytes_eq;
use crate::encoding::copy_bytes;

verus! {

/// Rejection of a byte string that is not a public-key encoding.
#[derive(Debug, Clone, Copy, PartialEq, Eq, Structural)]
pub enum IdentityError {
    InvalidKeyEncoding,
}

/// A user identifier: a public key in compressed encoding.
#[derive(Debug, Clone, PartialEq, Eq)]
pub struct UserId(pub Vec<u8>);

/// A tower identifier; towers and users carry the same kind of key.
pub type TowerId = UserId;

/// What deserialization returns on given bytes: the same bytes when they are
/// a well-formed compressed key, a rejection otherwise.
pub open spec fn deserialize_spec(data: Seq<u8>) -> Result<Seq<u8>, IdentityError> {
    if data.len() == 33 && is_valid_pk_encoding(data) {
        Ok(data)
    } else {
        Err(IdentityError::InvalidKeyEncoding)
    }
}

impl UserId {
    /// A well-formed identity holds a valid 33-byte compressed key.
    pub open spec fn wf(&self) -> bool {
        &&& self.0@.len() == 33
        &&& is_valid_pk_encoding(self.0@)
    }

    /// The identity's byte encoding.
    pub open spec fn key_bytes(&self) -> Seq<u8> {
        self.0@
    }

    /// Encodes the identity in its byte representation.
    pub fn serialize(&self) -> (r: Vec<u8>)
        ensures
            r@ == self.key_bytes(),
    {
        copy_bytes(&self.0)
    }

    /// Builds an identity from its byte representation; rejects anything but
    /// a well-formed 33-byte compressed key.
    pub fn deserialize(data: &Vec<u8>) -> (r: Result<UserId, IdentityError>)
        ensures
            r matches Ok(id) ==> id.key_bytes() == data@ && id.wf(),
            r matches Err(e) ==> deserialize_spec(data@) == Err::<Seq<u8>, IdentityError>(e),
            r is Ok <==> deserialize_spec(data@) is Ok,
    {
        if data.len() == 33 && is_valid_pk_bytes(data.as_slice()) {
            Ok(UserId(copy_bytes(data)))
        } else {
            Err(IdentityError::InvalidKeyEncoding)
        }
    }

    /// Decides whether two identities are the same key.
    pub fn matches_id(&self, other: &UserId) -> (r: bool)
        ensures
            r == (self.key_bytes() == other.key_bytes()),
    {
        bytes_eq(&self.0, &other.0)
    }
}

} // verus!
