//! Watchtower misbehaviour detection.
//!
//! Given a signed registration receipt, a signed appointment and a signed
//! appointment receipt, the library reconstructs the chain of custody
//! between a client and a watchtower and cross-references the claimed
//! on-chain outcome against the serialized transaction the blockchain
//! actually holds.  The caller performs the network fetch; every decision
//! is made here, and every decision is verified.

pub mod appointment;
pub mod cryptography;
pub mod encoding;
pub mod identity;
pub mod laws;
pub mod receipts;
pub mod test_utils;
pub mod tool;
