//! Recoverable ECDSA signing and public-key recovery.
//!
//! The protocol never carries a public key next to a signature: the signer's
//! key is *recovered* from the signature, and identity verification is
//! equality of the recovered key with an expected one.  The elliptic-curve
//! work is done by secp256k1; its results are named by uninterpreted spec
//! functions, and everything built on top is proved against those names.
//!
//! A signature travels as 65 bytes: one recovery-id byte followed by the
//! 64-byte compact encoding.  A public key travels as its 33-byte compressed
//! encoding; a secret key as 32 bytes.

use vstd::prelude::*;

verus! {

/// The compressed public key derived from a secret key.
/// Key derivation is a function of the secret key alone.
pub uninterp spec fn key_of(sk: Seq<u8>) -> Seq<u8>;

/// The recoverable signature produced over a message by a secret key.
/// RFC6979 nonces make signing a function of message and key alone.
pub uninterp spec fn signature_of(msg: Seq<u8>, sk: Seq<u8>) -> Seq<u8>;

/// The compressed public key recovered from a signature over a message,
/// or `None` when the signature does not parse or recovery fails.
pub uninterp spec fn recovered_from(msg: Seq<u8>, sig: Seq<u8>) -> Option<Seq<u8>>;

/// Whether a byte string is a well-formed public-key encoding.
pub uninterp spec fn is_valid_pk_encoding(data: Seq<u8>) -> bool;

/// Whether a byte string is a well-formed secret key.
pub uninterp spec fn is_valid_sk_encoding(data: Seq<u8>) -> bool;

/// A signature over `msg` recovers exactly to the key `key`.
pub open spec fn sig_recovers_to(msg: Seq<u8>, sig: Seq<u8>, key: Seq<u8>) -> bool {
    recovered_from(msg, sig) == Some(key)
}

/// Relies on secp256k1's `generate_keypair`: a fresh random secret key
/// together with the public key derived from it, both well formed.
/// Nothing is promised about which key comes back.
#[verifier::external_body]
pub fn get_random_keypair() -> (r: (Vec<u8>, Vec<u8>))
    ensures
        r.0@.len() == 32,
        is_valid_sk_encoding(r.0@),
        r.1@.len() == 33,
        r.1@ == key_of(r.0@),
        is_valid_pk_encoding(r.1@),
{
    let secp = bitcoin::secp256k1::Secp256k1::new();
    let (sk, pk) = secp.generate_keypair(&mut bitcoin::secp256k1::rand::thread_rng());
    (sk.secret_bytes().to_vec(), pk.serialize().to_vec())
}

/// Relies on secp256k1's `sign_ecdsa_recoverable` over the double-SHA256
/// digest of the message: deterministic (RFC6979), and `recover_ecdsa` on the
/// produced signature yields the signer's public key.  `SecretKey::from_slice`
/// accepts exactly the well-formed secret keys.
#[verifier::external_body]
pub fn sign(msg: &[u8], sk: &[u8]) -> (r: Option<Vec<u8>>)
    ensures
        r is Some <==> is_valid_sk_encoding(sk@),
        r matches Some(s) ==> {
            &&& s@ == signature_of(msg@, sk@)
            &&& s@.len() == 65
            &&& recovered_from(msg@, s@) == Some(key_of(sk@))
        },
{
    let secret = bitcoin::secp256k1::SecretKey::from_slice(sk).ok()?;
    let digest = <bitcoin::hashes::sha256d::Hash as bitcoin::hashes::Hash>::hash(msg);
    let message = bitcoin::secp256k1::Message::from_digest(
        <bitcoin::hashes::sha256d::Hash as bitcoin::hashes::Hash>::to_byte_array(digest),
    );
    let secp = bitcoin::secp256k1::Secp256k1::new();
    let rsig = secp.sign_ecdsa_recoverable(&message, &secret);
    let (recid, compact) = rsig.serialize_compact();
    let mut out = vec![recid.to_i32() as u8];
    out.extend_from_slice(&compact);
    Some(out)
}

/// Relies on secp256k1's `recover_ecdsa` over the double-SHA256 digest of the
/// message: determines the public key for which the signature is valid, and
/// fails exactly when the signature does not parse or no key can be
/// recovered.  `PublicKey::serialize` yields the 33-byte compressed encoding,
/// which `PublicKey::from_slice` accepts back.
#[verifier::external_body]
pub fn recover_pk(msg: &[u8], sig: &[u8]) -> (r: Option<Vec<u8>>)
    ensures
        r is Some <==> recovered_from(msg@, sig@) is Some,
        r matches Some(k) ==> {
            &&& Some(k@) == recovered_from(msg@, sig@)
            &&& k@.len() == 33
            &&& is_valid_pk_encoding(k@)
        },
{
    if sig.len() != 65 {
        return None;
    }
    let recid = bitcoin::secp256k1::ecdsa::RecoveryId::from_i32(sig[0] as i32).ok()?;
    let rsig =
        bitcoin::secp256k1::ecdsa::RecoverableSignature::from_compact(&sig[1..], recid).ok()?;
    let digest = <bitcoin::hashes::sha256d::Hash as bitcoin::hashes::Hash>::hash(msg);
    let message = bitcoin::secp256k1::Message::from_digest(
        <bitcoin::hashes::sha256d::Hash as bitcoin::hashes::Hash>::to_byte_array(digest),
    );
    let secp = bitcoin::secp256k1::Secp256k1::new();
    let pk = secp.recover_ecdsa(&message, &rsig).ok()?;
    Some(pk.serialize().to_vec())
}

/// Relies on secp256k1's `PublicKey::from_slice`: accepts exactly the
/// well-formed public-key encodings.
#[verifier::external_body]
pub fn is_valid_pk_bytes(data: &[u8]) -> (r: bool)
    ensures
        r == is_valid_pk_encoding(data@),
{
    bitcoin::secp256k1::PublicKey::from_slice(data).is_ok()
}

/// Relies on `rand::random` through secp256k1's re-export: an arbitrary
/// value, nothing promised of it.
#[verifier::external_body]
pub fn random_u32() -> u32 {
    bitcoin::secp256k1::rand::random::<u32>()
}

} // verus!
