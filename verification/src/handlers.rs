//! Server-side authorization of inbound transfers.
//!
//! The transport hands the request metadata over as named text fields:
//! resource name, Base58 identity, decimal timestamp, Base58 request
//! signature (uploads also assert a Base58 payload signature). These
//! functions decode the fields, reconstruct the signable request with exactly
//! the asserted time, and run both mandatory checks before any payload byte
//! is touched.
use vstd::prelude::*;

use crate::crypto;
use crate::num;
use crate::request;
use crate::request::{Identity, SignableRequest};
use crate::storage;
use crate::TransferError;

verus! {

/// Whether an identity field decodes to 32 key bytes.
pub open spec fn identity_field_ok(text: Seq<u8>) -> bool {
    crypto::base58_decode_of(text) matches Some(k) && k.len() == 32
}

/// The identity bytes a well-formed identity field carries.
pub open spec fn identity_field(text: Seq<u8>) -> Seq<u8> {
    crypto::base58_decode_of(text)->Some_0
}

/// Whether a timestamp field is decimal text for a 64-bit value.
pub open spec fn time_field_ok(text: Seq<u8>) -> bool {
    text.len() > 0 && num::all_digits(text) && num::dec_val(text) <= u64::MAX as int
}

/// The seconds value a well-formed timestamp field carries.
pub open spec fn time_field(text: Seq<u8>) -> int {
    num::dec_val(text)
}

/// Whether a signature field decodes to 64 signature bytes.
pub open spec fn signature_field_ok(text: Seq<u8>) -> bool {
    crypto::base58_decode_of(text) matches Some(s) && s.len() == 64
}

/// The signature bytes a well-formed signature field carries.
pub open spec fn signature_field(text: Seq<u8>) -> Seq<u8> {
    crypto::base58_decode_of(text)->Some_0
}

/// Whether all three request metadata fields parse.
pub open spec fn request_fields_ok(
    pubkey_text: Seq<u8>,
    time_text: Seq<u8>,
    signature_text: Seq<u8>,
) -> bool {
    identity_field_ok(pubkey_text) && time_field_ok(time_text) && signature_field_ok(
        signature_text,
    )
}

/// Whether the presented fields authorize a transfer at verification time
/// `now`: they all parse, and the reconstructed request is fresh and
/// correctly signed.
pub open spec fn transfer_authorized(
    filename: Seq<u8>,
    pubkey_text: Seq<u8>,
    time_text: Seq<u8>,
    signature_text: Seq<u8>,
    now: u64,
) -> bool {
    &&& request_fields_ok(pubkey_text, time_text, signature_text)
    &&& request::request_accepted(
        filename,
        identity_field(pubkey_text),
        time_field(time_text) as u64,
        signature_field(signature_text),
        now,
    )
}

/// Decodes the request metadata fields, reconstructs the request with the
/// exact asserted time, and checks freshness and signature. Unparseable
/// fields are malformed input; a stale or wrongly signed request is an
/// authentication failure. No payload byte is read before this passes.
pub fn authorize_transfer(
    filename: &[u8],
    pubkey_text: &[u8],
    time_text: &[u8],
    signature_text: &[u8],
    now: u64,
) -> (r: Result<SignableRequest, TransferError>)
    ensures
        match r {
            Ok(req) => {
                &&& transfer_authorized(
                    filename@,
                    pubkey_text@,
                    time_text@,
                    signature_text@,
                    now,
                )
                &&& req.wf()
                &&& req.spec_filename() == filename@
                &&& req.spec_pubkey() == identity_field(pubkey_text@)
                &&& req.spec_time() as int == time_field(time_text@)
            },
            Err(e) => {
                &&& !transfer_authorized(
                    filename@,
                    pubkey_text@,
                    time_text@,
                    signature_text@,
                    now,
                )
                &&& (e == TransferError::MalformedInput <==> !request_fields_ok(
                    pubkey_text@,
                    time_text@,
                    signature_text@,
                ))
                &&& (e == TransferError::AuthenticationFailure <==> request_fields_ok(
                    pubkey_text@,
                    time_text@,
                    signature_text@,
                ))
            },
        },
{
    let key_bytes = match crypto::base58_decode(pubkey_text) {
        Some(k) => k,
        None => return Err(TransferError::MalformedInput),
    };
    let pubkey = match Identity::from_bytes(key_bytes) {
        Ok(id) => id,
        Err(e) => return Err(e),
    };
    let time = match num::parse_u64_decimal(time_text) {
        Some(t) => t,
        None => return Err(TransferError::MalformedInput),
    };
    let signature = match crypto::base58_decode(signature_text) {
        Some(s) => s,
        None => return Err(TransferError::MalformedInput),
    };
    if signature.len() != 64 {
        return Err(TransferError::MalformedInput);
    }
    let mut name: Vec<u8> = Vec::new();
    num::push_all(&mut name, filename);
    proof {
        assert(name@ =~= filename@);
    }
    let req = SignableRequest::with_time(name, pubkey, time);
    match req.check_signature(signature.as_slice(), now) {
        Ok(()) => Ok(req),
        Err(e) => Err(e),
    }
}

/// Everything the I/O layer needs to serve a download: the verified request
/// and where the payload and its signature live. A missing file at either
/// path is a not-found error; the signature bytes travel back as a named
/// response field, the payload as the streamed body.
pub struct DownloadPlan {
    pub request: SignableRequest,
    pub payload_path: Vec<u8>,
    pub signature_path: Vec<u8>,
}

/// Authorizes a download and resolves the artifact's paths. The resolved
/// paths lie in the namespace of the identity that signed the request, so a
/// download can never reach another identity's files.
pub fn authorize_download(
    storage_root: &[u8],
    filename: &[u8],
    pubkey_text: &[u8],
    time_text: &[u8],
    signature_text: &[u8],
    now: u64,
) -> (r: Result<DownloadPlan, TransferError>)
    ensures
        match r {
            Ok(plan) => {
                &&& transfer_authorized(
                    filename@,
                    pubkey_text@,
                    time_text@,
                    signature_text@,
                    now,
                )
                &&& storage::resource_name_ok(filename@)
                &&& plan.request.wf()
                &&& plan.request.spec_filename() == filename@
                &&& plan.request.spec_pubkey() == identity_field(pubkey_text@)
                &&& plan.payload_path@ == storage::payload_path_spec(
                    storage_root@,
                    identity_field(pubkey_text@),
                    filename@,
                )
                &&& plan.signature_path@ == storage::signature_path_spec(plan.payload_path@)
            },
            Err(e) => {
                &&& !(transfer_authorized(
                    filename@,
                    pubkey_text@,
                    time_text@,
                    signature_text@,
                    now,
                ) && storage::resource_name_ok(filename@))
                &&& (e == TransferError::MalformedInput <==> !request_fields_ok(
                    pubkey_text@,
                    time_text@,
                    signature_text@,
                ))
                &&& (e == TransferError::AuthenticationFailure <==> request_fields_ok(
                    pubkey_text@,
                    time_text@,
                    signature_text@,
                ) && !transfer_authorized(
                    filename@,
                    pubkey_text@,
                    time_text@,
                    signature_text@,
                    now,
                ))
                &&& (e == TransferError::SandboxViolation <==> transfer_authorized(
                    filename@,
                    pubkey_text@,
                    time_text@,
                    signature_text@,
                    now,
                ) && !storage::resource_name_ok(filename@))
            },
        },
{
    let req = match authorize_transfer(filename, pubkey_text, time_text, signature_text, now) {
        Ok(req) => req,
        Err(e) => return Err(e),
    };
    match storage::get_file_paths(storage_root, req.pubkey(), req.filename().as_slice()) {
        Ok((payload_path, signature_path)) => Ok(
            DownloadPlan { request: req, payload_path, signature_path },
        ),
        Err(e) => Err(e),
    }
}

/// Classifies the artifact lookup of an authorized download: the payload and
/// its signature file must both exist; a missing payload or signature file is
/// a not-found error, never anything else.
pub fn classify_artifact_lookup(payload_exists: bool, signature_exists: bool) -> (r: Result<
    (),
    TransferError,
>)
    ensures
        r is Ok <==> payload_exists && signature_exists,
        r is Err ==> r == Err::<(), TransferError>(TransferError::NotFound),
{
    if payload_exists && signature_exists {
        Ok(())
    } else {
        Err(TransferError::NotFound)
    }
}

/// An authorized upload: the verified request and the payload signature the
/// client asserted, ready to start the pipeline once the I/O layer has a
/// temporary file open.
pub struct UploadAuth {
    pub request: SignableRequest,
    pub payload_signature: Vec<u8>,
}

/// Authorizes an upload: decodes all asserted fields (including the payload
/// signature) and checks the request before any body byte is read, so
/// unauthenticated requests cost no payload I/O. Path resolution happens at
/// commit time, in the pipeline.
pub fn authorize_upload(
    filename: &[u8],
    pubkey_text: &[u8],
    time_text: &[u8],
    signature_text: &[u8],
    payload_signature_text: &[u8],
    now: u64,
) -> (r: Result<UploadAuth, TransferError>)
    ensures
        match r {
            Ok(auth) => {
                &&& transfer_authorized(
                    filename@,
                    pubkey_text@,
                    time_text@,
                    signature_text@,
                    now,
                )
                &&& signature_field_ok(payload_signature_text@)
                &&& auth.request.wf()
                &&& auth.request.spec_filename() == filename@
                &&& auth.request.spec_pubkey() == identity_field(pubkey_text@)
                &&& auth.request.spec_time() as int == time_field(time_text@)
                &&& auth.payload_signature@ == signature_field(payload_signature_text@)
            },
            Err(e) => {
                &&& !(transfer_authorized(
                    filename@,
                    pubkey_text@,
                    time_text@,
                    signature_text@,
                    now,
                ) && signature_field_ok(payload_signature_text@))
                &&& (e == TransferError::MalformedInput <==> !(request_fields_ok(
                    pubkey_text@,
                    time_text@,
                    signature_text@,
                ) && signature_field_ok(payload_signature_text@)))
                &&& (e == TransferError::AuthenticationFailure <==> request_fields_ok(
                    pubkey_text@,
                    time_text@,
                    signature_text@,
                ) && signature_field_ok(payload_signature_text@) && !transfer_authorized(
                    filename@,
                    pubkey_text@,
                    time_text@,
                    signature_text@,
                    now,
                ))
            },
        },
{
    let payload_signature = match crypto::base58_decode(payload_signature_text) {
        Some(s) => s,
        None => return Err(TransferError::MalformedInput),
    };
    if payload_signature.len() != 64 {
        return Err(TransferError::MalformedInput);
    }
    let req = match authorize_transfer(filename, pubkey_text, time_text, signature_text, now) {
        Ok(req) => req,
        Err(e) => return Err(e),
    };
    Ok(UploadAuth { request: req, payload_signature })
}

} // verus!
