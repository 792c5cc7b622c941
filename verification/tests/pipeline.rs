use cloud::client::prepare_push;
use cloud::crypto::base58_encode;
use cloud::handlers::{authorize_download, authorize_upload};
use cloud::hasher::Hasher;
use cloud::pipeline::{UploadPipeline, UploadState};
use cloud::TransferError;

const NOW: u64 = 1_700_000_000;
const ROOT: &[u8] = b"/srv/storage";
const SECRET: [u8; 32] = [1u8; 32];

fn hasher_over(content: &[u8]) -> Hasher {
    let mut hasher = Hasher::new();
    hasher.update(content);
    hasher
}

fn push_fields(filename: &[u8], content: &[u8]) -> cloud::client::PushRequest {
    prepare_push(&SECRET, filename.to_vec(), &hasher_over(content), NOW).unwrap()
}

#[test]
fn upload_streams_verifies_and_commits() {
    let push = push_fields(b"notes.txt", b"hello");
    let auth = authorize_upload(
        &push.filename,
        &push.identity_text,
        &push.time_text,
        &push.request_signature_text,
        &push.payload_signature_text,
        NOW,
    )
    .unwrap();
    let mut pipeline = UploadPipeline::begin(auth.request, auth.payload_signature);
    assert_eq!(pipeline.state(), UploadState::Receiving);
    pipeline.append_chunk(b"hel");
    pipeline.append_chunk(b"lo");
    let plan = pipeline.finish(ROOT).unwrap();
    assert_eq!(pipeline.state(), UploadState::Committing);

    let mut expected = ROOT.to_vec();
    expected.push(b'/');
    expected.extend_from_slice(&base58_encode(&cloud::crypto::ed25519_public_key(&SECRET)));
    expected.extend_from_slice(b"/notes.txt");
    assert_eq!(plan.payload_path, expected);
    assert!(plan.signature_path.ends_with(b"/notes.sig"));

    pipeline.committed();
    assert_eq!(pipeline.state(), UploadState::Done);
    assert!(!pipeline.temp_present());
}

#[test]
fn mismatched_payload_signature_rejected_and_nothing_committed() {
    // The asserted signature was computed over different content than what
    // actually streamed in.
    let push = push_fields(b"notes.txt", b"hello");
    let auth = authorize_upload(
        &push.filename,
        &push.identity_text,
        &push.time_text,
        &push.request_signature_text,
        &push.payload_signature_text,
        NOW,
    )
    .unwrap();
    let mut pipeline = UploadPipeline::begin(auth.request, auth.payload_signature);
    pipeline.append_chunk(b"tampered content");
    assert_eq!(
        pipeline.finish(ROOT).map(|_| ()),
        Err(TransferError::IntegrityFailure)
    );
    assert_eq!(pipeline.state(), UploadState::Failed);
    pipeline.cleanup();
    assert!(!pipeline.temp_present());
    assert_eq!(pipeline.state(), UploadState::Failed);
}

#[test]
fn interrupted_upload_cleans_up() {
    let push = push_fields(b"notes.txt", b"hello");
    let auth = authorize_upload(
        &push.filename,
        &push.identity_text,
        &push.time_text,
        &push.request_signature_text,
        &push.payload_signature_text,
        NOW,
    )
    .unwrap();
    let mut pipeline = UploadPipeline::begin(auth.request, auth.payload_signature);
    pipeline.append_chunk(b"hel");
    // The stream errors out here; no commit plan is ever issued.
    pipeline.abort();
    assert_eq!(pipeline.state(), UploadState::Failed);
    assert!(pipeline.temp_present());
    pipeline.cleanup();
    assert!(!pipeline.temp_present());
}

#[test]
fn traversal_name_fails_at_commit_resolution() {
    let push = push_fields(b"../escape", b"hello");
    let auth = authorize_upload(
        &push.filename,
        &push.identity_text,
        &push.time_text,
        &push.request_signature_text,
        &push.payload_signature_text,
        NOW,
    )
    .unwrap();
    let mut pipeline = UploadPipeline::begin(auth.request, auth.payload_signature);
    pipeline.append_chunk(b"hello");
    assert_eq!(
        pipeline.finish(ROOT).map(|_| ()),
        Err(TransferError::SandboxViolation)
    );
    assert_eq!(pipeline.state(), UploadState::Failed);
}

#[test]
fn stale_or_tampered_request_blocks_upload_before_any_byte() {
    let push = push_fields(b"notes.txt", b"hello");
    // Too old.
    assert_eq!(
        authorize_upload(
            &push.filename,
            &push.identity_text,
            &push.time_text,
            &push.request_signature_text,
            &push.payload_signature_text,
            NOW + 61,
        )
        .map(|_| ()),
        Err(TransferError::AuthenticationFailure)
    );
    // Redirected at another resource.
    assert_eq!(
        authorize_upload(
            b"other.txt",
            &push.identity_text,
            &push.time_text,
            &push.request_signature_text,
            &push.payload_signature_text,
            NOW,
        )
        .map(|_| ()),
        Err(TransferError::AuthenticationFailure)
    );
    // Unparseable fields.
    assert_eq!(
        authorize_upload(
            &push.filename,
            b"not base58 0OIl",
            &push.time_text,
            &push.request_signature_text,
            &push.payload_signature_text,
            NOW,
        )
        .map(|_| ()),
        Err(TransferError::MalformedInput)
    );
    assert_eq!(
        authorize_upload(
            &push.filename,
            &push.identity_text,
            b"yesterday",
            &push.request_signature_text,
            &push.payload_signature_text,
            NOW,
        )
        .map(|_| ()),
        Err(TransferError::MalformedInput)
    );
}

#[test]
fn download_resolves_the_requesting_identitys_artifact() {
    let push = push_fields(b"notes.txt", b"hello");
    let plan = authorize_download(
        ROOT,
        &push.filename,
        &push.identity_text,
        &push.time_text,
        &push.request_signature_text,
        NOW,
    )
    .unwrap();
    let mut expected = ROOT.to_vec();
    expected.push(b'/');
    expected.extend_from_slice(&base58_encode(&cloud::crypto::ed25519_public_key(&SECRET)));
    expected.extend_from_slice(b"/notes.txt");
    assert_eq!(plan.payload_path, expected);
    assert!(plan.signature_path.ends_with(b"/notes.sig"));
}

#[test]
fn download_with_traversal_name_rejected_for_any_identity() {
    for secret in [[1u8; 32], [9u8; 32]] {
        let request =
            cloud::client::prepare_pull(&secret, b"../../etc/passwd".to_vec(), NOW).unwrap();
        assert_eq!(
            authorize_download(
                ROOT,
                &request.filename,
                &request.identity_text,
                &request.time_text,
                &request.request_signature_text,
                NOW,
            )
            .map(|_| ()),
            Err(TransferError::SandboxViolation)
        );
    }
}
