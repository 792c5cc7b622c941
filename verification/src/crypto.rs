//! Ed25519 signing and verification, and Base58 text encoding, as the
//! protocol's trusted primitives.
//!
//! Signatures and keys cross this boundary as plain byte strings: a secret key
//! is 32 bytes, a public key (the identity) is 32 bytes, a signature is 64
//! bytes. Each outside call is named by an uninterpreted function of its
//! arguments, so contracts elsewhere can speak of results exactly without
//! restating the algorithms.
use vstd::prelude::*;

use ed25519_dalek::Signer;

verus! {

/// The Ed25519 signature over `message` under the secret key `secret`.
pub uninterp spec fn signature_of(secret: Seq<u8>, message: Seq<u8>) -> Seq<u8>;

/// The public verification key derived from the secret key `secret`.
pub uninterp spec fn public_key_of(secret: Seq<u8>) -> Seq<u8>;

/// Whether strict Ed25519 verification accepts `signature` over `message`
/// under the public key `identity`; false when `identity` is not a valid key
/// or `signature` is not 64 bytes.
pub uninterp spec fn verify_of(identity: Seq<u8>, message: Seq<u8>, signature: Seq<u8>) -> bool;

/// The Base58 (Bitcoin alphabet) encoding of a byte string.
pub uninterp spec fn base58_of(bytes: Seq<u8>) -> Seq<u8>;

/// A byte of the Bitcoin Base58 alphabet
/// (`123456789ABCDEFGHJKLMNPQRSTUVWXYZabcdefghijkmnopqrstuvwxyz`): an
/// alphanumeric ASCII byte other than `0`, `I`, `O` and `l` — in particular
/// never a path separator, a period, or NUL.
pub open spec fn is_base58_byte(b: u8) -> bool {
    ||| 49 <= b && b <= 57
    ||| 65 <= b && b <= 72
    ||| 74 <= b && b <= 78
    ||| 80 <= b && b <= 90
    ||| 97 <= b && b <= 107
    ||| 109 <= b && b <= 122
}

/// What Base58 decoding yields on a text, `None` on text outside the alphabet.
pub uninterp spec fn base58_decode_of(text: Seq<u8>) -> Option<Seq<u8>>;

/// Relies on ed25519_dalek::SigningKey::from_bytes and Signer::sign: RFC 8032
/// signing is deterministic in the secret key and message, yields 64 bytes,
/// never fails, and verify_strict accepts the result under the matching
/// public key.
#[verifier::external_body]
pub fn ed25519_sign(secret: &[u8], message: &[u8]) -> (r: Vec<u8>)
    requires
        secret@.len() == 32,
    ensures
        r@ == signature_of(secret@, message@),
        r@.len() == 64,
        verify_of(public_key_of(secret@), message@, r@),
{
    let key = ed25519_dalek::SigningKey::from_bytes(secret.try_into().unwrap());
    key.sign(message).to_vec()
}

/// Relies on ed25519_dalek::SigningKey::verifying_key and
/// VerifyingKey::to_bytes: the public key is a function of the secret key
/// alone, 32 bytes.
#[verifier::external_body]
pub fn ed25519_public_key(secret: &[u8]) -> (r: Vec<u8>)
    requires
        secret@.len() == 32,
    ensures
        r@ == public_key_of(secret@),
        r@.len() == 32,
{
    let key = ed25519_dalek::SigningKey::from_bytes(secret.try_into().unwrap());
    key.verifying_key().to_bytes().to_vec()
}

/// Relies on ed25519_dalek::VerifyingKey::try_from, Signature::from_slice and
/// VerifyingKey::verify_strict: strict verification is a deterministic
/// function of key, message and signature bytes; key bytes that are not a
/// valid key, or a signature that is not 64 bytes, never verify.
#[verifier::external_body]
pub fn ed25519_verify(identity: &[u8], message: &[u8], signature: &[u8]) -> (r: bool)
    ensures
        r == verify_of(identity@, message@, signature@),
{
    let key = match ed25519_dalek::VerifyingKey::try_from(identity) {
        Ok(key) => key,
        Err(_) => return false,
    };
    let sig = match ed25519_dalek::Signature::from_slice(signature) {
        Ok(sig) => sig,
        Err(_) => return false,
    };
    key.verify_strict(message, &sig).is_ok()
}

/// Relies on bs58::encode with its default Bitcoin alphabet: the encoding is
/// a function of the input bytes alone, every byte of it lies in that
/// alphabet, and decoding it yields the input back.
#[verifier::external_body]
pub fn base58_encode(bytes: &[u8]) -> (r: Vec<u8>)
    ensures
        r@ == base58_of(bytes@),
        base58_decode_of(r@) == Some(bytes@),
        forall|i: int| 0 <= i < r@.len() ==> is_base58_byte(#[trigger] r@[i]),
{
    bs58::encode(bytes).into_vec()
}

/// Relies on bs58::decode with its default Bitcoin alphabet: decoding is a
/// function of the input text alone and fails exactly on text outside the
/// alphabet.
#[verifier::external_body]
pub fn base58_decode(text: &[u8]) -> (r: Option<Vec<u8>>)
    ensures
        match r {
            Some(v) => base58_decode_of(text@) == Some(v@),
            None => base58_decode_of(text@) is None,
        },
{
    match bs58::decode(text).into_vec() {
        Ok(v) => Some(v),
        Err(_) => None,
    }
}

} // verus!
