//! End-to-end tests of the verification pipeline, run against real
//! secp256k1 recovery.

use towercheck::appointment::Appointment;
use towercheck::cryptography::get_random_keypair;
use towercheck::cryptography::sign;
use towercheck::identity::TowerId;
use towercheck::identity::UserId;
use towercheck::receipts::AppointmentReceipt;
use towercheck::test_utils::generate_random_appointment;
use towercheck::test_utils::get_random_registration_receipt;
use towercheck::tool::check_receipts;
use towercheck::tool::check_signature;
use towercheck::tool::FetchOutcome;
use towercheck::tool::ReceiptCheckError;

fn signed_bundle() -> (Vec<u8>, UserId, Vec<u8>, TowerId, towercheck::receipts::RegistrationReceipt, Appointment, Vec<u8>) {
    let (user_sk, user_pk) = get_random_keypair();
    let (tower_sk, tower_pk) = get_random_keypair();
    let user_id = UserId(user_pk);
    let tower_id = UserId(tower_pk);
    let mut reg_receipt = get_random_registration_receipt();
    reg_receipt.sign(&tower_sk);
    let appointment = generate_random_appointment();
    let user_signature = sign(&appointment.to_vec(), &user_sk).unwrap();
    (user_sk, user_id, tower_sk, tower_id, reg_receipt, appointment, user_signature)
}

#[test]
fn test_check_receipts_valid() {
    let (_user_sk, user_id, tower_sk, tower_id, reg_receipt, appointment, user_signature) =
        signed_bundle();

    // Ensure the appointment receipt's start block is within the subscription period.
    let start_block = reg_receipt.subscription_start() + 1;

    let mut app_receipt = AppointmentReceipt::new(user_signature.clone(), start_block);
    app_receipt.sign(&tower_sk);

    // The blockchain holds exactly the promised payload.
    let fetched = FetchOutcome::Found(appointment.encrypted_blob.clone());

    let result = check_receipts(
        &user_id,
        &tower_id,
        &reg_receipt,
        &app_receipt,
        &appointment,
        &user_signature,
        &fetched,
    );
    if result.is_err() {
        println!("Error: {:?}", result);
    }
    assert!(result.is_ok());
}

#[test]
fn test_check_receipts_invalid() {
    let (_user_sk, user_id, tower_sk, tower_id, reg_receipt, appointment, user_signature) =
        signed_bundle();

    // A start block that is not within the subscription period.
    let start_block = reg_receipt.subscription_expiry() + 1;

    let mut app_receipt = AppointmentReceipt::new(user_signature.clone(), start_block);
    app_receipt.sign(&tower_sk);

    let fetched = FetchOutcome::Found(appointment.encrypted_blob.clone());

    let result = check_receipts(
        &user_id,
        &tower_id,
        &reg_receipt,
        &app_receipt,
        &appointment,
        &user_signature,
        &fetched,
    );
    if result.is_err() {
        println!("Error: {:?}", result);
    }
    assert!(result.is_err());
}

#[test]
fn test_one_past_window_outside_subscription() {
    let (_user_sk, user_id, tower_sk, tower_id, reg_receipt, appointment, user_signature) =
        signed_bundle();

    // Exactly one block past the window: every signature check passes, and
    // the verdict is the window error, whatever the blockchain holds.
    let start_block = reg_receipt.subscription_expiry() + 1;
    let mut app_receipt = AppointmentReceipt::new(user_signature.clone(), start_block);
    app_receipt.sign(&tower_sk);

    let result = check_receipts(
        &user_id,
        &tower_id,
        &reg_receipt,
        &app_receipt,
        &appointment,
        &user_signature,
        &FetchOutcome::Found(appointment.encrypted_blob.clone()),
    );
    assert_eq!(result, Err(ReceiptCheckError::AppointmentOutsideSubscription));
}

#[test]
fn test_wrong_tower_key_fails_receipt_verification() {
    let (_user_sk, user_id, tower_sk, tower_id, reg_receipt, appointment, user_signature) =
        signed_bundle();
    let (other_sk, _other_pk) = get_random_keypair();
    assert_ne!(tower_sk, other_sk);

    let start_block = reg_receipt.subscription_start() + 1;
    let mut app_receipt = AppointmentReceipt::new(user_signature.clone(), start_block);
    // Countersigned by a different tower's key.
    app_receipt.sign(&other_sk);

    let result = check_receipts(
        &user_id,
        &tower_id,
        &reg_receipt,
        &app_receipt,
        &appointment,
        &user_signature,
        &FetchOutcome::Found(appointment.encrypted_blob.clone()),
    );
    assert_eq!(result, Err(ReceiptCheckError::ReceiptVerificationFailed));
}

#[test]
fn test_no_transaction_not_responded() {
    let (_user_sk, user_id, tower_sk, tower_id, reg_receipt, appointment, user_signature) =
        signed_bundle();

    let start_block = reg_receipt.subscription_start() + 1;
    let mut app_receipt = AppointmentReceipt::new(user_signature.clone(), start_block);
    app_receipt.sign(&tower_sk);

    // The provider found nothing for the derived identifier.
    let result = check_receipts(
        &user_id,
        &tower_id,
        &reg_receipt,
        &app_receipt,
        &appointment,
        &user_signature,
        &FetchOutcome::NotFound,
    );
    assert_eq!(result, Err(ReceiptCheckError::TransactionNotResponded));
}

#[test]
fn test_provider_unavailable_distinct_from_not_found() {
    let (_user_sk, user_id, tower_sk, tower_id, reg_receipt, appointment, user_signature) =
        signed_bundle();

    let start_block = reg_receipt.subscription_start() + 1;
    let mut app_receipt = AppointmentReceipt::new(user_signature.clone(), start_block);
    app_receipt.sign(&tower_sk);

    // The provider could not be asked at all: a network-layer failure, not
    // a statement about the chain.
    let result = check_receipts(
        &user_id,
        &tower_id,
        &reg_receipt,
        &app_receipt,
        &appointment,
        &user_signature,
        &FetchOutcome::Unavailable,
    );
    assert_eq!(result, Err(ReceiptCheckError::ProviderUnavailable));
}

#[test]
fn test_mismatched_transaction_verification_failed() {
    let (_user_sk, user_id, tower_sk, tower_id, reg_receipt, appointment, user_signature) =
        signed_bundle();

    let start_block = reg_receipt.subscription_start() + 1;
    let mut app_receipt = AppointmentReceipt::new(user_signature.clone(), start_block);
    app_receipt.sign(&tower_sk);

    // The provider found a transaction, but not the promised one.
    let mut other_tx = appointment.encrypted_blob.clone();
    other_tx.push(0xff);
    let result = check_receipts(
        &user_id,
        &tower_id,
        &reg_receipt,
        &app_receipt,
        &appointment,
        &user_signature,
        &FetchOutcome::Found(other_tx),
    );
    assert_eq!(result, Err(ReceiptCheckError::ReceiptVerificationFailed));
}

#[test]
fn test_same_bundle_twice_same_verdict() {
    let (_user_sk, user_id, tower_sk, tower_id, reg_receipt, appointment, user_signature) =
        signed_bundle();

    let start_block = reg_receipt.subscription_start() + 1;
    let mut app_receipt = AppointmentReceipt::new(user_signature.clone(), start_block);
    app_receipt.sign(&tower_sk);

    let fetched = FetchOutcome::Found(appointment.encrypted_blob.clone());
    let first = check_receipts(
        &user_id,
        &tower_id,
        &reg_receipt,
        &app_receipt,
        &appointment,
        &user_signature,
        &fetched,
    );
    let second = check_receipts(
        &user_id,
        &tower_id,
        &reg_receipt,
        &app_receipt,
        &appointment,
        &user_signature,
        &fetched,
    );
    assert_eq!(first, second);
    assert_eq!(first, Ok(true));
}

#[test]
fn test_malformed_user_signature() {
    let (_user_sk, user_id, tower_sk, tower_id, reg_receipt, appointment, _sig) = signed_bundle();

    // A signature no key can be recovered from.
    let garbage: Vec<u8> = vec![0u8; 5];
    let start_block = reg_receipt.subscription_start() + 1;
    let mut app_receipt = AppointmentReceipt::new(garbage.clone(), start_block);
    app_receipt.sign(&tower_sk);

    let result = check_receipts(
        &user_id,
        &tower_id,
        &reg_receipt,
        &app_receipt,
        &appointment,
        &garbage,
        &FetchOutcome::Found(appointment.encrypted_blob.clone()),
    );
    assert_eq!(result, Err(ReceiptCheckError::MalformedSignature));
}

#[test]
fn test_unsigned_appointment_receipt_is_malformed() {
    let (_user_sk, user_id, _tower_sk, tower_id, reg_receipt, appointment, user_signature) =
        signed_bundle();

    let start_block = reg_receipt.subscription_start() + 1;
    // The tower never countersigned.
    let app_receipt = AppointmentReceipt::new(user_signature.clone(), start_block);

    let result = check_receipts(
        &user_id,
        &tower_id,
        &reg_receipt,
        &app_receipt,
        &appointment,
        &user_signature,
        &FetchOutcome::Found(appointment.encrypted_blob.clone()),
    );
    assert_eq!(result, Err(ReceiptCheckError::MalformedSignature));
}

#[test]
fn test_check_signature_wrong_user() {
    let (user_sk, user_id, _tower_sk, _tower_id, _reg, appointment, _sig) = signed_bundle();
    let (_other_sk, other_pk) = get_random_keypair();
    let other_id = UserId(other_pk);

    let user_signature = sign(&appointment.to_vec(), &user_sk).unwrap();
    assert_eq!(check_signature(&appointment, &user_signature, &user_id), Ok(true));
    assert_eq!(check_signature(&appointment, &user_signature, &other_id), Ok(false));
}
