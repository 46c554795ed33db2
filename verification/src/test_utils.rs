//! Generators for demonstration and testing: random keypairs, subscription
//! windows and appointments.  Nothing here carries protocol meaning; the
//! generated values are well formed and that is all that is promised.

use vstd::prelude::*;
use crate::appointment::Appointment;
use crate::appointment::LOCATOR_LEN;
use crate::cryptography::random_u32;
use crate::receipts::RegistrationReceipt;

verus! {

/// A fresh unsigned registration receipt with a random, strictly widening
/// window whose expiry leaves room for one more block.
pub fn get_random_registration_receipt() -> (r: RegistrationReceipt)
    ensures
        r.wf(),
        r.spec_start() < r.spec_expiry(),
        r.spec_expiry() < u32::MAX,
        r.spec_signature() is None,
{
    let start = random_u32() % 0x100000;
    let duration = random_u32() % 4320 + 1;
    RegistrationReceipt::new(start, start + duration)
}

/// A byte vector of the given length filled with random bytes.
fn random_bytes(n: usize) -> (r: Vec<u8>)
    ensures
        r@.len() == n,
{
    let mut out: Vec<u8> = Vec::new();
    let mut i: usize = 0;
    while i < n
        invariant
            i <= n,
            out@.len() == i,
        decreases n - i,
    {
        out.push((random_u32() % 0x100) as u8);
        i = i + 1;
    }
    out
}

/// A fresh appointment with a random locator and a random payload.
pub fn generate_random_appointment() -> (r: Appointment)
    ensures
        r.wf(),
{
    let locator = random_bytes(LOCATOR_LEN);
    let encrypted_blob = random_bytes(64);
    Appointment::new(locator, encrypted_blob)
}

} // verus!
