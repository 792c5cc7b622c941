//! The client side of a transfer: computing what to send for a push, and
//! cross-checking what came back from a pull.
//!
//! A push signs the content digest up front (the payload signature), then
//! builds and signs a fresh request; everything crosses the transport as
//! named text fields. A pull recomputes the digest over the received bytes,
//! re-derives the signature the caller's own key would have produced, and
//! accepts the transfer only when the server-asserted signature matches
//! byte for byte; only then may the scratch file be promoted.
use vstd::prelude::*;

use crate::crypto;
use crate::hasher::{digest_of, Hasher};
use crate::num;
use crate::request::{canonical_encoding, request_accepted, Identity, SignableRequest};
use crate::storage;
use crate::TransferError;

verus! {

/// The payload signature a push under `secret` asserts for `content`: the
/// caller's signature over the content digest.
pub open spec fn pushed_payload_signature(secret: Seq<u8>, content: Seq<u8>) -> Seq<u8> {
    crypto::signature_of(secret, digest_of(content))
}

/// Whether the client accepts a pull that delivered `received` bytes under a
/// server-asserted payload signature: the signature must equal, byte for
/// byte, the one the caller's own key produces over the received digest.
pub open spec fn pull_accepted(secret: Seq<u8>, received: Seq<u8>, server_signature: Seq<u8>) -> bool {
    server_signature == pushed_payload_signature(secret, received)
}

/// Push followed by pull round-trips: a pull that delivers exactly the pushed
/// bytes together with the payload signature stored at push time passes the
/// client's integrity check, for every key and every content.
pub proof fn lemma_push_pull_round_trip(secret: Seq<u8>, content: Seq<u8>)
    ensures
        pull_accepted(secret, content, pushed_payload_signature(secret, content)),
{
}

/// Everything the transport sends for one push, as named text fields plus the
/// streamed file body.
pub struct PushRequest {
    pub filename: Vec<u8>,
    pub identity_text: Vec<u8>,
    pub time_text: Vec<u8>,
    pub request_signature_text: Vec<u8>,
    pub payload_signature_text: Vec<u8>,
}

/// The request metadata of one pull, as named text fields.
pub struct PullRequest {
    pub filename: Vec<u8>,
    pub identity_text: Vec<u8>,
    pub time_text: Vec<u8>,
    pub request_signature_text: Vec<u8>,
}

/// Prepares a push: signs the content digest, then builds and signs a request
/// stamped `now`. The emitted fields decode back to exactly the signed
/// values, and the request they carry is accepted by a verifier whose clock
/// reads `now`.
pub fn prepare_push(secret: &[u8], filename: Vec<u8>, content: &Hasher, now: u64) -> (r: Result<
    PushRequest,
    TransferError,
>)
    ensures
        match r {
            Ok(p) => {
                &&& secret@.len() == 32
                &&& p.filename@ == filename@
                &&& p.identity_text@ == crypto::base58_of(crypto::public_key_of(secret@))
                &&& crypto::base58_decode_of(p.identity_text@) == Some(
                    crypto::public_key_of(secret@),
                )
                &&& num::all_digits(p.time_text@) && p.time_text@.len() > 0 && num::dec_val(
                    p.time_text@,
                ) == now as int
                &&& p.request_signature_text@ == crypto::base58_of(
                    crypto::signature_of(
                        secret@,
                        canonical_encoding(filename@, crypto::public_key_of(secret@), now),
                    ),
                )
                &&& crypto::base58_decode_of(p.request_signature_text@) == Some(
                    crypto::signature_of(
                        secret@,
                        canonical_encoding(filename@, crypto::public_key_of(secret@), now),
                    ),
                )
                &&& p.payload_signature_text@ == crypto::base58_of(
                    pushed_payload_signature(secret@, content.bytes()),
                )
                &&& crypto::base58_decode_of(p.payload_signature_text@) == Some(
                    pushed_payload_signature(secret@, content.bytes()),
                )
                &&& request_accepted(
                    filename@,
                    crypto::public_key_of(secret@),
                    now,
                    crypto::signature_of(
                        secret@,
                        canonical_encoding(filename@, crypto::public_key_of(secret@), now),
                    ),
                    now,
                )
            },
            Err(e) => e == TransferError::MalformedInput && (secret@.len() != 32
                || filename@.len() > u32::MAX),
        },
{
    if secret.len() != 32 {
        return Err(TransferError::MalformedInput);
    }
    if filename.len() > u32::MAX as usize {
        return Err(TransferError::MalformedInput);
    }
    let digest = content.finalize();
    let payload_signature = crypto::ed25519_sign(secret, digest.as_slice());
    let public_key = crypto::ed25519_public_key(secret);
    let identity_text = crypto::base58_encode(public_key.as_slice());
    let pubkey = match Identity::from_bytes(public_key) {
        Ok(id) => id,
        Err(e) => return Err(e),
    };
    let request = SignableRequest::new(filename, pubkey, now);
    let signed = match request.sign(secret) {
        Ok(signed) => signed,
        Err(e) => return Err(e),
    };
    let request_signature_text = crypto::base58_encode(signed.signature().as_slice());
    let payload_signature_text = crypto::base58_encode(payload_signature.as_slice());
    let time_text = num::u64_to_decimal(now);
    let mut name: Vec<u8> = Vec::new();
    num::push_all(&mut name, signed.request().filename().as_slice());
    proof {
        assert(name@ =~= signed.spec_request().spec_filename());
    }
    Ok(
        PushRequest {
            filename: name,
            identity_text,
            time_text,
            request_signature_text,
            payload_signature_text,
        },
    )
}

/// Prepares a pull: builds and signs a request for `filename` stamped `now`.
pub fn prepare_pull(secret: &[u8], filename: Vec<u8>, now: u64) -> (r: Result<
    PullRequest,
    TransferError,
>)
    ensures
        match r {
            Ok(p) => {
                &&& secret@.len() == 32
                &&& p.filename@ == filename@
                &&& p.identity_text@ == crypto::base58_of(crypto::public_key_of(secret@))
                &&& crypto::base58_decode_of(p.identity_text@) == Some(
                    crypto::public_key_of(secret@),
                )
                &&& num::all_digits(p.time_text@) && p.time_text@.len() > 0 && num::dec_val(
                    p.time_text@,
                ) == now as int
                &&& crypto::base58_decode_of(p.request_signature_text@) == Some(
                    crypto::signature_of(
                        secret@,
                        canonical_encoding(filename@, crypto::public_key_of(secret@), now),
                    ),
                )
                &&& request_accepted(
                    filename@,
                    crypto::public_key_of(secret@),
                    now,
                    crypto::signature_of(
                        secret@,
                        canonical_encoding(filename@, crypto::public_key_of(secret@), now),
                    ),
                    now,
                )
            },
            Err(e) => e == TransferError::MalformedInput && (secret@.len() != 32
                || filename@.len() > u32::MAX),
        },
{
    if secret.len() != 32 {
        return Err(TransferError::MalformedInput);
    }
    if filename.len() > u32::MAX as usize {
        return Err(TransferError::MalformedInput);
    }
    let public_key = crypto::ed25519_public_key(secret);
    let identity_text = crypto::base58_encode(public_key.as_slice());
    let pubkey = match Identity::from_bytes(public_key) {
        Ok(id) => id,
        Err(e) => return Err(e),
    };
    let request = SignableRequest::new(filename, pubkey, now);
    let signed = match request.sign(secret) {
        Ok(signed) => signed,
        Err(e) => return Err(e),
    };
    let request_signature_text = crypto::base58_encode(signed.signature().as_slice());
    let time_text = num::u64_to_decimal(now);
    let mut name: Vec<u8> = Vec::new();
    num::push_all(&mut name, signed.request().filename().as_slice());
    proof {
        assert(name@ =~= signed.spec_request().spec_filename());
    }
    Ok(PullRequest { filename: name, identity_text, time_text, request_signature_text })
}

/// Whether two byte strings are equal.
fn bytes_equal(a: &[u8], b: &[u8]) -> (r: bool)
    ensures
        r == (a@ == b@),
{
    if a.len() != b.len() {
        return false;
    }
    let mut i: usize = 0;
    while i < a.len()
        invariant
            a@.len() == b@.len(),
            i <= a@.len(),
            forall|j: int| 0 <= j < i ==> a@[j] == b@[j],
        decreases a@.len() - i,
    {
        if a[i] != b[i] {
            return false;
        }
        i = i + 1;
    }
    proof {
        assert(a@ =~= b@);
    }
    true
}

/// The client's integrity check after a pull: recomputes the digest over the
/// received bytes, re-derives the signature the caller's own key would
/// produce over it, and compares it byte for byte with the server-asserted
/// one. On any mismatch the transfer is rejected and the scratch data must
/// not be promoted.
pub fn verify_pull(secret: &[u8], received: &Hasher, server_signature_text: &[u8]) -> (r: Result<
    (),
    TransferError,
>)
    ensures
        secret@.len() == 32 ==> (r is Ok <==> (crypto::base58_decode_of(
            server_signature_text@,
        ) matches Some(sg) && pull_accepted(secret@, received.bytes(), sg))),
        match r {
            Ok(()) => {
                &&& secret@.len() == 32
                &&& crypto::base58_decode_of(server_signature_text@) matches Some(sg)
                    && pull_accepted(secret@, received.bytes(), sg)
            },
            Err(e) => {
                &&& secret@.len() == 32 ==> {
                    &&& (e == TransferError::MalformedInput <==> crypto::base58_decode_of(
                        server_signature_text@,
                    ) is None)
                    &&& (e == TransferError::IntegrityFailure <==> (crypto::base58_decode_of(
                        server_signature_text@,
                    ) matches Some(sg) && !pull_accepted(secret@, received.bytes(), sg)))
                }
                &&& secret@.len() != 32 ==> e == TransferError::MalformedInput
            },
        },
{
    if secret.len() != 32 {
        return Err(TransferError::MalformedInput);
    }
    let server_signature = match crypto::base58_decode(server_signature_text) {
        Some(s) => s,
        None => return Err(TransferError::MalformedInput),
    };
    let digest = received.finalize();
    let expected = crypto::ed25519_sign(secret, digest.as_slice());
    if bytes_equal(server_signature.as_slice(), expected.as_slice()) {
        Ok(())
    } else {
        Err(TransferError::IntegrityFailure)
    }
}

/// Where a pulled file may be promoted to: directly under the download
/// directory, guarded by the same sandbox rule as the server's namespace —
/// a name that would land outside the destination is rejected.
pub fn resolve_destination(download_dir: &[u8], filename: &[u8]) -> (r: Result<
    Vec<u8>,
    TransferError,
>)
    ensures
        match r {
            Ok(path) => storage::resource_name_ok(filename@) && path@ == download_dir@ + seq![
                storage::SEPARATOR,
            ] + filename@,
            Err(e) => e == TransferError::SandboxViolation && !storage::resource_name_ok(
                filename@,
            ),
        },
{
    if !storage::resource_name_allowed(filename) {
        return Err(TransferError::SandboxViolation);
    }
    let mut path: Vec<u8> = Vec::new();
    num::push_all(&mut path, download_dir);
    path.push(storage::SEPARATOR);
    num::push_all(&mut path, filename);
    proof {
        assert(path@ =~= download_dir@ + seq![storage::SEPARATOR] + filename@);
    }
    Ok(path)
}

} // verus!
