//! The signing-key side of the keystore.
//!
//! The OS-level secret store itself is an external collaborator: it holds the
//! secret as Base58 text under a service entry, and the I/O layer reads and
//! writes that entry. What this module owns is everything around it — drawing
//! a fresh 32-byte secret, and converting between the stored text form and
//! the raw key bytes, rejecting anything that is not a 32-byte key.
use vstd::prelude::*;

use rand::RngCore;

use crate::crypto;
use crate::TransferError;

verus! {

/// Handle to the keystore holding this client's signing key.
pub struct Keyring;

impl Keyring {
    /// Relies on rand::rngs::OsRng::fill_bytes: 32 bytes from the operating
    /// system's random generator. Nothing is assumed about their values.
    #[verifier::external_body]
    pub fn generate_secret(&self) -> (r: Vec<u8>)
        ensures
            r@.len() == 32,
    {
        let mut bytes = [0u8; 32];
        rand::rngs::OsRng.fill_bytes(&mut bytes);
        bytes.to_vec()
    }

    /// The stored text form of a secret key.
    pub fn secret_to_base58(&self, secret: &[u8]) -> (r: Vec<u8>)
        ensures
            r@ == crypto::base58_of(secret@),
            crypto::base58_decode_of(r@) == Some(secret@),
    {
        crypto::base58_encode(secret)
    }

    /// Reads a stored secret back from its text form; anything that does not
    /// decode to exactly 32 key bytes is rejected.
    pub fn secret_from_base58(&self, text: &[u8]) -> (r: Result<Vec<u8>, TransferError>)
        ensures
            match r {
                Ok(secret) => crypto::base58_decode_of(text@) == Some(secret@) && secret@.len()
                    == 32,
                Err(e) => {
                    &&& e == TransferError::MalformedInput
                    &&& (crypto::base58_decode_of(text@) matches Some(k) ==> k.len() != 32)
                },
            },
    {
        let secret = match crypto::base58_decode(text) {
            Some(s) => s,
            None => return Err(TransferError::MalformedInput),
        };
        if secret.len() != 32 {
            return Err(TransferError::MalformedInput);
        }
        Ok(secret)
    }
}

} // verus!
