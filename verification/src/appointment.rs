//! Client appointments.
//!
//! An appointment is the client's request to a tower: a locator naming the
//! breach to watch for, and the serialized penalty transaction the tower
//! promised to broadcast, kept opaque until the breach is seen.  By protocol
//! convention the locator is the breach transaction's identifier, a 32-byte
//! double-hash digest.

use vstd::prelude::*;
use crate::encoding::append_bytes;
use crate::encoding::copy_bytes;

verus! {

/// The byte length of a locator: a double-hash digest.
pub const LOCATOR_LEN: usize = 32;

/// A client's appointment: what to watch for and what to broadcast.
#[derive(Debug, Clone, PartialEq, Eq)]
pub struct Appointment {
    /// Commitment to the breach transaction; doubles as its identifier.
    pub locator: Vec<u8>,
    /// Expected serialization of the penalty transaction.
    pub encrypted_blob: Vec<u8>,
}

impl Appointment {
    /// A well-formed appointment carries a digest-sized locator.
    pub open spec fn wf(&self) -> bool {
        self.locator@.len() == LOCATOR_LEN
    }

    /// The canonical byte encoding: locator, then blob.
    pub open spec fn msg_spec(&self) -> Seq<u8> {
        self.locator@ + self.encrypted_blob@
    }

    /// Builds an appointment.
    pub fn new(locator: Vec<u8>, encrypted_blob: Vec<u8>) -> (r: Appointment)
        requires
            locator@.len() == LOCATOR_LEN,
        ensures
            r.wf(),
            r.locator@ == locator@,
            r.encrypted_blob@ == encrypted_blob@,
    {
        Appointment { locator, encrypted_blob }
    }

    /// The canonical byte encoding, over which the client signs.
    pub fn to_vec(&self) -> (r: Vec<u8>)
        ensures
            r@ == self.msg_spec(),
    {
        let mut out = copy_bytes(&self.locator);
        append_bytes(&mut out, &self.encrypted_blob);
        out
    }

    /// The identifier of the transaction the tower promised to broadcast:
    /// the locator read as a transaction id.
    pub fn derived_txid(&self) -> (r: Vec<u8>)
        ensures
            r@ == self.locator@,
    {
        copy_bytes(&self.locator)
    }
}

} // verus!
