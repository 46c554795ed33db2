//! Tests of identities, canonical encodings and single receipts.

use towercheck::appointment::Appointment;
use towercheck::cryptography::get_random_keypair;
use towercheck::cryptography::sign;
use towercheck::identity::IdentityError;
use towercheck::identity::TowerId;
use towercheck::identity::UserId;
use towercheck::receipts::{AppointmentReceipt, RegistrationReceipt};
use towercheck::tool::verify_identity;

#[test]
fn test_identity_round_trip() {
    let (_sk, pk) = get_random_keypair();
    let id = UserId(pk);
    let encoded = id.serialize();
    let decoded = UserId::deserialize(&encoded).unwrap();
    assert_eq!(decoded, id);
    assert!(decoded.matches_id(&id));
}

#[test]
fn test_identity_malformed_bytes_rejected() {
    // Wrong length.
    let short: Vec<u8> = vec![2u8; 10];
    assert_eq!(UserId::deserialize(&short), Err(IdentityError::InvalidKeyEncoding));
    // Right length, not a point on the curve.
    let bogus: Vec<u8> = vec![0u8; 33];
    assert_eq!(UserId::deserialize(&bogus), Err(IdentityError::InvalidKeyEncoding));
}

#[test]
fn test_verify_identity_accepts_signer_rejects_other() {
    let (tower_sk, tower_pk) = get_random_keypair();
    let tower_id = UserId(tower_pk);
    let (_other_sk, other_pk) = get_random_keypair();
    let other_id = UserId(other_pk);

    let mut reg_receipt = RegistrationReceipt::new(100, 200);
    reg_receipt.sign(&tower_sk);
    let msg = reg_receipt.to_vec();
    let signature = reg_receipt.signature.clone().unwrap();

    assert!(verify_identity(&msg, &signature, &tower_id));
    assert!(!verify_identity(&msg, &signature, &other_id));
    assert!(reg_receipt.verify(&tower_id));
    assert!(!reg_receipt.verify(&other_id));
}

#[test]
fn test_registration_receipt_canonical_bytes() {
    let reg_receipt = RegistrationReceipt::new(1, 0x01020304);
    assert_eq!(reg_receipt.to_vec(), vec![0, 0, 0, 1, 1, 2, 3, 4]);
}

#[test]
fn test_appointment_canonical_bytes() {
    let appointment = Appointment::new(vec![7u8; 32], vec![1, 2, 3]);
    let mut expected = vec![7u8; 32];
    expected.extend_from_slice(&[1, 2, 3]);
    assert_eq!(appointment.to_vec(), expected);
    // The derived transaction id is the locator read as a digest.
    assert_eq!(appointment.derived_txid(), vec![7u8; 32]);
}

#[test]
fn test_appointment_receipt_canonical_bytes() {
    let receipt = AppointmentReceipt::new(vec![9u8, 8, 7], 0x0A0B0C0D);
    assert_eq!(receipt.to_vec(), vec![9, 8, 7, 0x0A, 0x0B, 0x0C, 0x0D]);
    assert_eq!(receipt.start_block(), 0x0A0B0C0D);
    assert_eq!(receipt.user_signature(), vec![9, 8, 7]);
    assert!(receipt.signature().is_none());
}

#[test]
fn test_signature_is_not_the_message() {
    // Recovery-based verification only works if signing really transforms
    // the message; a signer that handed its input back would never verify.
    let (sk, pk) = get_random_keypair();
    let id = UserId(pk);
    let msg: Vec<u8> = vec![1, 2, 3, 4, 5];
    let signature = sign(&msg, &sk).unwrap();
    assert_ne!(signature, msg);
    assert_eq!(signature.len(), 65);
    assert!(verify_identity(&msg, &signature, &id));
}

#[test]
fn test_keypair_shapes() {
    let (sk, pk) = get_random_keypair();
    assert_eq!(sk.len(), 32);
    assert_eq!(pk.len(), 33);
}
