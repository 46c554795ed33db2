//! The receipt/appointment verification pipeline.
//!
//! Given the full bundle — the identity pair, the registration receipt, the
//! appointment receipt, the appointment and the user's signature — the
//! pipeline runs three signature-recovery checks, a subscription-window
//! bound check, and a cross-reference of the fetched on-chain transaction
//! against the promised payload, in that order, stopping at the first
//! failure.  The network fetch itself is the caller's: the pipeline takes
//! the fetch's outcome as a value and decides everything from it.

use vstd::prelude::*;
use crate::appointment::Appointment;
use crate::cryptography::recover_pk;
use crate::cryptography::recovered_from;
use crate::cryptography::sig_recovers_to;
use crate::encoding::bytes_eq;
use crate::identity::TowerId;
use crate::identity::UserId;
use crate::receipts::AppointmentReceipt;
use crate::receipts::RegistrationReceipt;

verus! {

/// The ways a verification can fail.  Each is terminal: no later stage runs.
#[derive(Debug, Clone, Copy, PartialEq, Eq, Structural)]
pub enum ReceiptCheckError {
    /// A signature the pipeline must recover a key from does not parse, or
    /// recovery fails, or a receipt was never signed.
    MalformedSignature,
    /// A signature-chain check failed, or the broadcast bytes differ from
    /// the promised payload.
    ReceiptVerificationFailed,
    /// The appointment's start block lies outside the paid-for window.
    AppointmentOutsideSubscription,
    /// The blockchain provider produced no transaction for the derived id.
    TransactionNotResponded,
    /// The provider could not be reached, or timed out: a network-layer
    /// failure, not a statement about the chain.
    ProviderUnavailable,
}

/// What the caller's fetch of the derived transaction came back with.
/// "The provider knows no such transaction" and "the provider could not be
/// asked" are different observations and lead to different verdicts.
#[derive(Debug, Clone, PartialEq, Eq)]
pub enum FetchOutcome {
    /// The provider returned the transaction's canonical serialization.
    Found(Vec<u8>),
    /// The provider answered: no such transaction.
    NotFound,
    /// The provider was unreachable or timed out.
    Unavailable,
}

/// Outcome of the user-signature check: the signer's key recovered from the
/// signature over the appointment's canonical bytes, compared to the user.
pub open spec fn user_check_spec(
    appointment: Appointment,
    user_sig: Seq<u8>,
    user_id: UserId,
) -> Result<bool, ReceiptCheckError> {
    match recovered_from(appointment.msg_spec(), user_sig) {
        Some(k) => Ok(k == user_id.key_bytes()),
        None => Err(ReceiptCheckError::MalformedSignature),
    }
}

/// Outcome of the appointment-receipt check: the key recovered from the
/// tower's countersignature, compared to the tower.  An unsigned receipt or
/// an unparsable signature is malformed.
pub open spec fn receipt_check_spec(
    app_receipt: AppointmentReceipt,
    tower_id: TowerId,
) -> Result<bool, ReceiptCheckError> {
    match app_receipt.spec_signature() {
        Some(s) => match recovered_from(app_receipt.msg_spec(), s) {
            Some(k) => Ok(k == tower_id.key_bytes()),
            None => Err(ReceiptCheckError::MalformedSignature),
        },
        None => Err(ReceiptCheckError::MalformedSignature),
    }
}

/// The appointment's start block lies within the paid-for closed interval.
pub open spec fn window_ok_spec(
    app_receipt: AppointmentReceipt,
    reg_receipt: RegistrationReceipt,
) -> bool {
    reg_receipt.spec_start() <= app_receipt.spec_start_block() <= reg_receipt.spec_expiry()
}

/// Verdict of the signature chain and the window check together: the three
/// recovery checks are a logical AND, any unrecoverable signature is
/// malformed, and only a fully verified chain reaches the window check.
pub open spec fn chain_and_window_spec(
    user_id: UserId,
    tower_id: TowerId,
    reg_receipt: RegistrationReceipt,
    app_receipt: AppointmentReceipt,
    appointment: Appointment,
    user_sig: Seq<u8>,
) -> Result<bool, ReceiptCheckError> {
    match (user_check_spec(appointment, user_sig, user_id), receipt_check_spec(
        app_receipt,
        tower_id,
    )) {
        (Ok(user_ok), Ok(receipt_ok)) => {
            if !(reg_receipt.verifies_for(tower_id) && user_ok && receipt_ok) {
                Err(ReceiptCheckError::ReceiptVerificationFailed)
            } else if !window_ok_spec(app_receipt, reg_receipt) {
                Err(ReceiptCheckError::AppointmentOutsideSubscription)
            } else {
                Ok(true)
            }
        },
        _ => Err(ReceiptCheckError::MalformedSignature),
    }
}

/// Verdict of the blockchain cross-reference, given the fetch's outcome:
/// an absent transaction, a transaction with the wrong bytes, and an
/// unreachable provider are three different failures.
pub open spec fn payload_check_spec(
    appointment: Appointment,
    fetched: FetchOutcome,
) -> Result<bool, ReceiptCheckError> {
    match fetched {
        FetchOutcome::NotFound => Err(ReceiptCheckError::TransactionNotResponded),
        FetchOutcome::Unavailable => Err(ReceiptCheckError::ProviderUnavailable),
        FetchOutcome::Found(tx) => if tx@ == appointment.encrypted_blob@ {
            Ok(true)
        } else {
            Err(ReceiptCheckError::ReceiptVerificationFailed)
        },
    }
}

/// Verdict of the whole pipeline: the signature chain and the window first,
/// the cross-reference only once those hold.
pub open spec fn check_receipts_spec(
    user_id: UserId,
    tower_id: TowerId,
    reg_receipt: RegistrationReceipt,
    app_receipt: AppointmentReceipt,
    appointment: Appointment,
    user_sig: Seq<u8>,
    fetched: FetchOutcome,
) -> Result<bool, ReceiptCheckError> {
    match chain_and_window_spec(
        user_id,
        tower_id,
        reg_receipt,
        app_receipt,
        appointment,
        user_sig,
    ) {
        Ok(_) => payload_check_spec(appointment, fetched),
        Err(e) => Err(e),
    }
}

/// Recovers the signer of `signature` over `message` and compares against
/// the expected identity; recovery of the key *is* the check, so a
/// signature that recovers to any other key — or to none — is rejected.
pub fn verify_identity(message: &Vec<u8>, signature: &Vec<u8>, expected: &UserId) -> (r: bool)
    ensures
        r == sig_recovers_to(message@, signature@, expected.key_bytes()),
{
    match recover_pk(message.as_slice(), signature.as_slice()) {
        None => false,
        Some(k) => bytes_eq(&k, &expected.0),
    }
}

/// Checks that the user's signature over the appointment's canonical bytes
/// recovers to the user's identity; an unrecoverable signature is malformed.
pub fn check_signature(
    appointment: &Appointment,
    signature: &Vec<u8>,
    user_id: &UserId,
) -> (r: Result<bool, ReceiptCheckError>)
    ensures
        r == user_check_spec(*appointment, signature@, *user_id),
{
    let msg = appointment.to_vec();
    match recover_pk(msg.as_slice(), signature.as_slice()) {
        None => Err(ReceiptCheckError::MalformedSignature),
        Some(k) => Ok(bytes_eq(&k, &user_id.0)),
    }
}

/// Checks that the tower's countersignature on the appointment receipt
/// recovers to the tower's identity.
pub fn check_receipt_signature(
    app_receipt: &AppointmentReceipt,
    tower_id: &TowerId,
) -> (r: Result<bool, ReceiptCheckError>)
    ensures
        r == receipt_check_spec(*app_receipt, *tower_id),
{
    match &app_receipt.signature {
        None => Err(ReceiptCheckError::MalformedSignature),
        Some(s) => {
            let msg = app_receipt.to_vec();
            match recover_pk(msg.as_slice(), s.as_slice()) {
                None => Err(ReceiptCheckError::MalformedSignature),
                Some(k) => Ok(bytes_eq(&k, &tower_id.0)),
            }
        },
    }
}

/// Runs the signature chain and the subscription-window check: the part of
/// the pipeline that needs no blockchain data.  `Ok(true)` means the fetch
/// is worth making; every error is the pipeline's verdict as it stands.
pub fn check_receipt_chain(
    user_id: &UserId,
    tower_id: &TowerId,
    reg_receipt: &RegistrationReceipt,
    app_receipt: &AppointmentReceipt,
    appointment: &Appointment,
    user_signature: &Vec<u8>,
) -> (r: Result<bool, ReceiptCheckError>)
    ensures
        r == chain_and_window_spec(
            *user_id,
            *tower_id,
            *reg_receipt,
            *app_receipt,
            *appointment,
            user_signature@,
        ),
{
    // All three chain checks are evaluated; the verdict is their AND.
    let reg_receipt_check = reg_receipt.verify(tower_id);
    let user_signature_check = match check_signature(appointment, user_signature, user_id) {
        Ok(b) => b,
        Err(e) => {
            return Err(e);
        },
    };
    let app_receipt_check = match check_receipt_signature(app_receipt, tower_id) {
        Ok(b) => b,
        Err(e) => {
            return Err(e);
        },
    };
    if !reg_receipt_check || !user_signature_check || !app_receipt_check {
        return Err(ReceiptCheckError::ReceiptVerificationFailed);
    }
    let appointment_in_subscription = app_receipt.start_block() >= reg_receipt.subscription_start()
        && app_receipt.start_block() <= reg_receipt.subscription_expiry();
    if !appointment_in_subscription {
        return Err(ReceiptCheckError::AppointmentOutsideSubscription);
    }
    Ok(true)
}

/// Cross-references the fetch's outcome against the promised payload: no
/// transaction is `TransactionNotResponded`; a transaction whose canonical
/// serialization differs from the blob is `ReceiptVerificationFailed`; an
/// unreachable provider is `ProviderUnavailable`.
pub fn check_appointment(
    appointment: &Appointment,
    fetched_tx: &FetchOutcome,
) -> (r: Result<bool, ReceiptCheckError>)
    ensures
        r == payload_check_spec(*appointment, *fetched_tx),
{
    match fetched_tx {
        FetchOutcome::NotFound => Err(ReceiptCheckError::TransactionNotResponded),
        FetchOutcome::Unavailable => Err(ReceiptCheckError::ProviderUnavailable),
        FetchOutcome::Found(tx) => {
            if bytes_eq(tx, &appointment.encrypted_blob) {
                Ok(true)
            } else {
                Err(ReceiptCheckError::ReceiptVerificationFailed)
            }
        },
    }
}

/// Runs the whole pipeline on a verification bundle and the outcome of the
/// blockchain fetch: signature chain, subscription window, then the
/// cross-reference, stopping at the first failure.
pub fn check_receipts(
    user_id: &UserId,
    tower_id: &TowerId,
    reg_receipt: &RegistrationReceipt,
    app_receipt: &AppointmentReceipt,
    appointment: &Appointment,
    user_signature: &Vec<u8>,
    fetched_tx: &FetchOutcome,
) -> (r: Result<bool, ReceiptCheckError>)
    ensures
        r == check_receipts_spec(
            *user_id,
            *tower_id,
            *reg_receipt,
            *app_receipt,
            *appointment,
            user_signature@,
            *fetched_tx,
        ),
{
    match check_receipt_chain(
        user_id,
        tower_id,
        reg_receipt,
        app_receipt,
        appointment,
        user_signature,
    ) {
        Err(e) => Err(e),
        Ok(_) => check_appointment(appointment, fetched_tx),
    }
}

} // verus!
