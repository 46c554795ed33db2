//! Receipts a tower is forced to produce.
//!
//! A registration receipt proves a paid subscription window; an appointment
//! receipt proves the tower accepted a specific, user-signed appointment.
//! Each is signed over its canonical byte encoding, and verification of
//! either receipt is recovery of the signer's key from that signature.

use vstd::prelude::*;
use crate::cryptography::is_valid_sk_encoding;
use crate::cryptography::recover_pk;
use crate::cryptography::sig_recovers_to;
use crate::cryptography::sign;
use crate::cryptography::signature_of;
use crate::encoding::append_bytes;
use crate::encoding::bytes_eq;
use crate::encoding::copy_bytes;
use crate::encoding::u32_be_bytes;
use crate::encoding::u32_to_be_bytes;
use crate::identity::TowerId;

verus! {

/// Tower-issued proof of a paid subscription window, block-height bounded.
#[derive(Debug, Clone, PartialEq, Eq)]
pub struct RegistrationReceipt {
    /// First block height the subscription covers.
    pub subscription_start: u32,
    /// Last block height the subscription covers.
    pub subscription_expiry: u32,
    /// The tower's signature over the canonical encoding, once signed.
    pub signature: Option<Vec<u8>>,
}

impl RegistrationReceipt {
    /// A well-formed receipt's window is a real interval.
    pub open spec fn wf(&self) -> bool {
        self.subscription_start <= self.subscription_expiry
    }

    /// First block height the subscription covers.
    pub open spec fn spec_start(&self) -> u32 {
        self.subscription_start
    }

    /// Last block height the subscription covers.
    pub open spec fn spec_expiry(&self) -> u32 {
        self.subscription_expiry
    }

    /// The tower's signature, if the receipt has been signed.
    pub open spec fn spec_signature(&self) -> Option<Seq<u8>> {
        match self.signature {
            Some(s) => Some(s@),
            None => None,
        }
    }

    /// The canonical byte encoding: start, then expiry, big-endian.
    pub open spec fn msg_spec(&self) -> Seq<u8> {
        u32_be_bytes(self.subscription_start) + u32_be_bytes(self.subscription_expiry)
    }

    /// The receipt's signature recovers to the given tower.
    pub open spec fn verifies_for(&self, tower_id: TowerId) -> bool {
        self.spec_signature() matches Some(s) && sig_recovers_to(
            self.msg_spec(),
            s,
            tower_id.key_bytes(),
        )
    }

    /// Builds an unsigned receipt for a subscription window.
    pub fn new(subscription_start: u32, subscription_expiry: u32) -> (r: RegistrationReceipt)
        requires
            subscription_start <= subscription_expiry,
        ensures
            r.wf(),
            r.spec_start() == subscription_start,
            r.spec_expiry() == subscription_expiry,
            r.spec_signature() is None,
    {
        RegistrationReceipt { subscription_start, subscription_expiry, signature: None }
    }

    /// First block height the subscription covers.
    pub fn subscription_start(&self) -> (r: u32)
        ensures
            r == self.spec_start(),
    {
        self.subscription_start
    }

    /// Last block height the subscription covers.
    pub fn subscription_expiry(&self) -> (r: u32)
        ensures
            r == self.spec_expiry(),
    {
        self.subscription_expiry
    }

    /// The canonical byte encoding, over which the tower signs.
    pub fn to_vec(&self) -> (r: Vec<u8>)
        ensures
            r@ == self.msg_spec(),
    {
        let mut out = u32_to_be_bytes(self.subscription_start);
        let expiry = u32_to_be_bytes(self.subscription_expiry);
        append_bytes(&mut out, &expiry);
        out
    }

    /// Signs the receipt's canonical encoding with the tower's secret key.
    /// A malformed key leaves the receipt unsigned.
    pub fn sign(&mut self, sk: &Vec<u8>)
        ensures
            final(self).subscription_start == old(self).subscription_start,
            final(self).subscription_expiry == old(self).subscription_expiry,
            is_valid_sk_encoding(sk@) ==> (final(self).spec_signature() matches Some(s)
                && s == signature_of(old(self).msg_spec(), sk@)),
            !is_valid_sk_encoding(sk@) ==> final(self).spec_signature() is None,
    {
        let msg = self.to_vec();
        self.signature = sign(msg.as_slice(), sk.as_slice());
    }

    /// Verifies that the receipt was signed by the given tower: recovers the
    /// signer's key from the signature and compares.  An unsigned receipt or
    /// one whose signature does not parse fails the check.
    pub fn verify(&self, tower_id: &TowerId) -> (r: bool)
        ensures
            r == self.verifies_for(*tower_id),
    {
        match &self.signature {
            None => false,
            Some(s) => {
                let msg = self.to_vec();
                match recover_pk(msg.as_slice(), s.as_slice()) {
                    None => false,
                    Some(k) => bytes_eq(&k, &tower_id.0),
                }
            },
        }
    }
}

/// Tower-issued proof of having accepted a specific client appointment.
#[derive(Debug, Clone, PartialEq, Eq)]
pub struct AppointmentReceipt {
    /// Copy of the client's signature over the appointment.
    pub user_signature: Vec<u8>,
    /// Block height at which the tower began watching.
    pub start_block: u32,
    /// The tower's countersignature over the canonical encoding, once signed.
    pub signature: Option<Vec<u8>>,
}

impl AppointmentReceipt {
    /// The embedded copy of the client's signature over the appointment.
    pub open spec fn spec_user_signature(&self) -> Seq<u8> {
        self.user_signature@
    }

    /// Block height at which the tower began watching.
    pub open spec fn spec_start_block(&self) -> u32 {
        self.start_block
    }

    /// The tower's countersignature, if the receipt has been signed.
    pub open spec fn spec_signature(&self) -> Option<Seq<u8>> {
        match self.signature {
            Some(s) => Some(s@),
            None => None,
        }
    }

    /// The canonical byte encoding: the user's signature, then the start
    /// block, big-endian.
    pub open spec fn msg_spec(&self) -> Seq<u8> {
        self.user_signature@ + u32_be_bytes(self.start_block)
    }

    /// Builds an unsigned receipt embedding the user's signature.
    pub fn new(user_signature: Vec<u8>, start_block: u32) -> (r: AppointmentReceipt)
        ensures
            r.spec_user_signature() == user_signature@,
            r.spec_start_block() == start_block,
            r.spec_signature() is None,
    {
        AppointmentReceipt { user_signature, start_block, signature: None }
    }

    /// Block height at which the tower began watching.
    pub fn start_block(&self) -> (r: u32)
        ensures
            r == self.spec_start_block(),
    {
        self.start_block
    }

    /// The embedded copy of the client's signature.
    pub fn user_signature(&self) -> (r: Vec<u8>)
        ensures
            r@ == self.spec_user_signature(),
    {
        copy_bytes(&self.user_signature)
    }

    /// The tower's countersignature, if present.
    pub fn signature(&self) -> (r: &Option<Vec<u8>>)
        ensures
            match r {
                Some(s) => self.spec_signature() == Some(s@),
                None => self.spec_signature() is None,
            },
    {
        &self.signature
    }

    /// The canonical byte encoding, over which the tower countersigns.
    pub fn to_vec(&self) -> (r: Vec<u8>)
        ensures
            r@ == self.msg_spec(),
    {
        let mut out = copy_bytes(&self.user_signature);
        let sb = u32_to_be_bytes(self.start_block);
        append_bytes(&mut out, &sb);
        out
    }

    /// Countersigns the receipt's canonical encoding with the tower's secret
    /// key.  A malformed key leaves the receipt unsigned.
    pub fn sign(&mut self, sk: &Vec<u8>)
        ensures
            final(self).user_signature@ == old(self).user_signature@,
            final(self).start_block == old(self).start_block,
            is_valid_sk_encoding(sk@) ==> (final(self).spec_signature() matches Some(s)
                && s == signature_of(old(self).msg_spec(), sk@)),
            !is_valid_sk_encoding(sk@) ==> final(self).spec_signature() is None,
    {
        let msg = self.to_vec();
        self.signature = sign(msg.as_slice(), sk.as_slice());
    }
}

} // verus!
