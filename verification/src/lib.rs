//! A minimal key-custody library for an Ethereum-style account.
//!
//! The library derives an on-chain address from a secp256k1 public key,
//! holds the resulting identity in a [`wallet::Wallet`] record with a
//! verified text codec, and builds value-transfer intents.  Network and
//! file plumbing live outside the library.

use vstd::prelude::*;

pub mod address;
pub mod hex;
pub mod keys;
pub mod tx;
pub mod wallet;

verus! {

/// The failures the library and its callers distinguish.
#[derive(Clone, Copy, Debug, PartialEq, Eq, Structural)]
pub enum WalletError {
    /// Stored secret-key text is not a valid scalar encoding.
    InvalidSecretKeyText,
    /// Stored public-key text is not a valid point encoding.
    InvalidPublicKeyText,
    /// Persisted record text is not a valid wallet encoding.
    MalformedRecord,
    /// The storage location could not be read or written.
    StorageFailure,
}

} // verus!
