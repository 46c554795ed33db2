//! Laws of the verification pipeline, proved once and for all.
//!
//! Each law is stated over the spec-level verdict functions that the
//! executable pipeline is proved to implement, so whatever holds here holds
//! of every run.  Signature-recovery facts enter as hypotheses: "signed by
//! the tower" means, at this layer, that recovery of the signature yields
//! the tower's key — the signing wrapper's contract is what ties honest
//! signing to that hypothesis.

use vstd::prelude::*;
use crate::appointment::Appointment;
use crate::cryptography::recovered_from;
use crate::cryptography::sig_recovers_to;
use crate::identity::deserialize_spec;
use crate::identity::IdentityError;
use crate::identity::TowerId;
use crate::identity::UserId;
use crate::receipts::AppointmentReceipt;
use crate::receipts::RegistrationReceipt;
use crate::tool::chain_and_window_spec;
use crate::tool::check_receipts_spec;
use crate::tool::receipt_check_spec;
use crate::tool::window_ok_spec;
use crate::tool::FetchOutcome;
use crate::tool::ReceiptCheckError;

verus! {

/// A signature that recovers to a key verifies against that identity and
/// against no other: identity verification accepts exactly the signer.
pub proof fn lemma_verify_identity_exact(
    msg: Seq<u8>,
    sig: Seq<u8>,
    signer: UserId,
    other: UserId,
)
    requires
        recovered_from(msg, sig) == Some(signer.key_bytes()),
        other.key_bytes() != signer.key_bytes(),
    ensures
        sig_recovers_to(msg, sig, signer.key_bytes()),
        !sig_recovers_to(msg, sig, other.key_bytes()),
{
}

/// A fully honest bundle verifies: when every signature recovers to the
/// right identity, the start block lies within the subscription window, and
/// the blockchain holds exactly the promised payload, the pipeline's
/// verdict is success.
pub proof fn lemma_honest_bundle_verifies(
    user_id: UserId,
    tower_id: TowerId,
    reg_receipt: RegistrationReceipt,
    app_receipt: AppointmentReceipt,
    appointment: Appointment,
    user_sig: Seq<u8>,
    fetched: FetchOutcome,
)
    requires
        reg_receipt.verifies_for(tower_id),
        recovered_from(appointment.msg_spec(), user_sig) == Some(user_id.key_bytes()),
        receipt_check_spec(app_receipt, tower_id) == Ok::<bool, ReceiptCheckError>(true),
        window_ok_spec(app_receipt, reg_receipt),
        (fetched matches FetchOutcome::Found(tx) && tx@ == appointment.encrypted_blob@),
    ensures
        check_receipts_spec(
            user_id,
            tower_id,
            reg_receipt,
            app_receipt,
            appointment,
            user_sig,
            fetched,
        ) == Ok::<bool, ReceiptCheckError>(true),
{
}

/// One block past the window is outside it: with every signature check
/// passing, a start block of `subscription_expiry + 1` makes the verdict
/// `AppointmentOutsideSubscription`, whatever the blockchain holds.
pub proof fn lemma_one_past_window(
    user_id: UserId,
    tower_id: TowerId,
    reg_receipt: RegistrationReceipt,
    app_receipt: AppointmentReceipt,
    appointment: Appointment,
    user_sig: Seq<u8>,
    fetched: FetchOutcome,
)
    requires
        reg_receipt.verifies_for(tower_id),
        recovered_from(appointment.msg_spec(), user_sig) == Some(user_id.key_bytes()),
        receipt_check_spec(app_receipt, tower_id) == Ok::<bool, ReceiptCheckError>(true),
        reg_receipt.spec_expiry() < u32::MAX,
        app_receipt.spec_start_block() == reg_receipt.spec_expiry() + 1,
    ensures
        check_receipts_spec(
            user_id,
            tower_id,
            reg_receipt,
            app_receipt,
            appointment,
            user_sig,
            fetched,
        ) == Err::<bool, ReceiptCheckError>(ReceiptCheckError::AppointmentOutsideSubscription),
{
}

/// A receipt countersigned by the wrong tower fails the chain: when the
/// appointment receipt's signature recovers to some key other than the
/// expected tower's, the verdict is `ReceiptVerificationFailed`, whatever
/// the window or the blockchain would have said.
pub proof fn lemma_wrong_tower_rejected(
    user_id: UserId,
    tower_id: TowerId,
    reg_receipt: RegistrationReceipt,
    app_receipt: AppointmentReceipt,
    appointment: Appointment,
    user_sig: Seq<u8>,
    fetched: FetchOutcome,
    wrong_key: Seq<u8>,
)
    requires
        recovered_from(appointment.msg_spec(), user_sig) is Some,
        app_receipt.spec_signature() matches Some(s) && recovered_from(
            app_receipt.msg_spec(),
            s,
        ) == Some(wrong_key),
        wrong_key != tower_id.key_bytes(),
    ensures
        check_receipts_spec(
            user_id,
            tower_id,
            reg_receipt,
            app_receipt,
            appointment,
            user_sig,
            fetched,
        ) == Err::<bool, ReceiptCheckError>(ReceiptCheckError::ReceiptVerificationFailed),
{
}

/// The on-chain failure modes stay distinct: once the chain and the window
/// hold, a provider that knows no such transaction yields
/// `TransactionNotResponded`, one that produces different bytes than the
/// promised payload yields `ReceiptVerificationFailed`, and one that could
/// not be reached at all yields `ProviderUnavailable`.
pub proof fn lemma_fetch_outcomes(
    user_id: UserId,
    tower_id: TowerId,
    reg_receipt: RegistrationReceipt,
    app_receipt: AppointmentReceipt,
    appointment: Appointment,
    user_sig: Seq<u8>,
    tx: Vec<u8>,
)
    requires
        chain_and_window_spec(
            user_id,
            tower_id,
            reg_receipt,
            app_receipt,
            appointment,
            user_sig,
        ) == Ok::<bool, ReceiptCheckError>(true),
    ensures
        check_receipts_spec(
            user_id,
            tower_id,
            reg_receipt,
            app_receipt,
            appointment,
            user_sig,
            FetchOutcome::NotFound,
        ) == Err::<bool, ReceiptCheckError>(ReceiptCheckError::TransactionNotResponded),
        tx@ != appointment.encrypted_blob@ ==> check_receipts_spec(
            user_id,
            tower_id,
            reg_receipt,
            app_receipt,
            appointment,
            user_sig,
            FetchOutcome::Found(tx),
        ) == Err::<bool, ReceiptCheckError>(ReceiptCheckError::ReceiptVerificationFailed),
        check_receipts_spec(
            user_id,
            tower_id,
            reg_receipt,
            app_receipt,
            appointment,
            user_sig,
            FetchOutcome::Unavailable,
        ) == Err::<bool, ReceiptCheckError>(ReceiptCheckError::ProviderUnavailable),
{
}

/// The verdict never depends on the fetch until the chain and window hold:
/// a failing earlier stage gives the same terminal error for every fetch
/// outcome, so no blockchain data can rescue or worsen a bad bundle.
pub proof fn lemma_fetch_irrelevant_on_early_failure(
    user_id: UserId,
    tower_id: TowerId,
    reg_receipt: RegistrationReceipt,
    app_receipt: AppointmentReceipt,
    appointment: Appointment,
    user_sig: Seq<u8>,
    f1: FetchOutcome,
    f2: FetchOutcome,
)
    requires
        chain_and_window_spec(
            user_id,
            tower_id,
            reg_receipt,
            app_receipt,
            appointment,
            user_sig,
        ) is Err,
    ensures
        check_receipts_spec(
            user_id,
            tower_id,
            reg_receipt,
            app_receipt,
            appointment,
            user_sig,
            f1,
        ) == check_receipts_spec(
            user_id,
            tower_id,
            reg_receipt,
            app_receipt,
            appointment,
            user_sig,
            f2,
        ),
{
}

/// Idempotence: the verdict is a function of the bundle and the fetched
/// transaction alone, so running the same bundle twice against the same
/// blockchain state yields the same verdict.
pub proof fn lemma_verdict_deterministic(
    user_id: UserId,
    tower_id: TowerId,
    reg_receipt: RegistrationReceipt,
    app_receipt: AppointmentReceipt,
    appointment: Appointment,
    user_sig: Seq<u8>,
    f1: FetchOutcome,
    f2: FetchOutcome,
)
    requires
        f1 == f2,
    ensures
        check_receipts_spec(
            user_id,
            tower_id,
            reg_receipt,
            app_receipt,
            appointment,
            user_sig,
            f1,
        ) == check_receipts_spec(
            user_id,
            tower_id,
            reg_receipt,
            app_receipt,
            appointment,
            user_sig,
            f2,
        ),
{
}

/// Round trip of identities: deserializing what an identity serializes to
/// gives the identity back, and bytes that are not a well-formed compressed
/// key are rejected as `InvalidKeyEncoding`.
pub proof fn lemma_identity_round_trip(id: UserId, malformed: Seq<u8>)
    requires
        id.wf(),
        !(deserialize_spec(malformed) is Ok),
    ensures
        deserialize_spec(id.key_bytes()) == Ok::<Seq<u8>, IdentityError>(id.key_bytes()),
        deserialize_spec(malformed) == Err::<Seq<u8>, IdentityError>(
            IdentityError::InvalidKeyEncoding,
        ),
{
}

} // verus!

