use cloud::crypto::{ed25519_public_key, ed25519_sign};
use cloud::request::{Identity, SignableRequest, MAX_CLIENT_TIME_DIFF};
use cloud::TransferError;

const NOW: u64 = 1_700_000_000;

fn identity_of(secret: &[u8]) -> Identity {
    Identity::from_bytes(ed25519_public_key(secret)).unwrap()
}

#[test]
fn fresh_signed_request_is_accepted() {
    let secret = [1u8; 32];
    let request = SignableRequest::new(b"notes.txt".to_vec(), identity_of(&secret), NOW);
    let signed = request.sign(&secret).unwrap();
    assert!(signed
        .request()
        .check_signature(signed.signature(), NOW)
        .is_ok());
}

#[test]
fn freshness_window_boundary() {
    let secret = [1u8; 32];
    let request = SignableRequest::new(b"notes.txt".to_vec(), identity_of(&secret), NOW);
    let signed = request.sign(&secret).unwrap();
    let at = |now: u64| signed.request().check_signature(signed.signature(), now);
    assert!(at(NOW + MAX_CLIENT_TIME_DIFF).is_ok());
    assert!(at(NOW - MAX_CLIENT_TIME_DIFF).is_ok());
    assert_eq!(
        at(NOW + MAX_CLIENT_TIME_DIFF + 1),
        Err(TransferError::AuthenticationFailure)
    );
    assert_eq!(
        at(NOW - MAX_CLIENT_TIME_DIFF - 1),
        Err(TransferError::AuthenticationFailure)
    );
}

#[test]
fn stale_request_rejected_despite_valid_signature() {
    let secret = [1u8; 32];
    let request = SignableRequest::new(b"notes.txt".to_vec(), identity_of(&secret), NOW);
    let signed = request.sign(&secret).unwrap();
    // The signature itself still verifies; only the window has passed.
    assert_eq!(
        signed.request().check_signature(signed.signature(), NOW + 3600),
        Err(TransferError::AuthenticationFailure)
    );
}

#[test]
fn signature_over_different_fields_rejected() {
    let secret = [1u8; 32];
    let signed = SignableRequest::new(b"a.txt".to_vec(), identity_of(&secret), NOW)
        .sign(&secret)
        .unwrap();

    // Same signature presented for a different resource name.
    let other_name = SignableRequest::new(b"b.txt".to_vec(), identity_of(&secret), NOW);
    assert_eq!(
        other_name.check_signature(signed.signature(), NOW),
        Err(TransferError::AuthenticationFailure)
    );

    // ... for a different identity.
    let other_secret = [2u8; 32];
    let other_key = SignableRequest::new(b"a.txt".to_vec(), identity_of(&other_secret), NOW);
    assert_eq!(
        other_key.check_signature(signed.signature(), NOW),
        Err(TransferError::AuthenticationFailure)
    );

    // ... for a different timestamp, still inside the window.
    let other_time = SignableRequest::new(b"a.txt".to_vec(), identity_of(&secret), NOW + 1);
    assert_eq!(
        other_time.check_signature(signed.signature(), NOW),
        Err(TransferError::AuthenticationFailure)
    );
}

#[test]
fn tampered_signature_bytes_rejected() {
    let secret = [1u8; 32];
    let signed = SignableRequest::new(b"a.txt".to_vec(), identity_of(&secret), NOW)
        .sign(&secret)
        .unwrap();
    let mut bad = signed.signature().clone();
    bad[0] ^= 1;
    assert_eq!(
        signed.request().check_signature(&bad, NOW),
        Err(TransferError::AuthenticationFailure)
    );
}

#[test]
fn signing_requires_a_whole_key() {
    let request = SignableRequest::new(b"a.txt".to_vec(), identity_of(&[1u8; 32]), NOW);
    assert_eq!(
        request.sign(&[1u8; 31]).map(|_| ()),
        Err(TransferError::MalformedInput)
    );
}

#[test]
fn identity_must_be_32_bytes() {
    assert!(Identity::from_bytes(vec![0u8; 31]).is_err());
    assert!(Identity::from_bytes(vec![0u8; 33]).is_err());
    assert!(Identity::from_bytes(vec![0u8; 32]).is_ok());
}

#[test]
fn deterministic_signatures() {
    // The client-side pull check compares a recomputed signature byte for
    // byte, which assumes the scheme is deterministic.
    let secret = [5u8; 32];
    let a = ed25519_sign(&secret, b"same message");
    let b = ed25519_sign(&secret, b"same message");
    assert_eq!(a, b);
    assert_eq!(a.len(), 64);
}

#[test]
fn accessors_return_the_request_fields() {
    let id = identity_of(&[1u8; 32]);
    let id_bytes = id.as_bytes().clone();
    let request = SignableRequest::with_time(b"n".to_vec(), id, 42);
    assert_eq!(request.filename(), &b"n".to_vec());
    assert_eq!(request.pubkey().as_bytes(), &id_bytes);
    assert_eq!(request.time(), 42);
}
