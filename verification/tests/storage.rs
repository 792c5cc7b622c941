use cloud::crypto::base58_encode;
use cloud::request::Identity;
use cloud::storage::get_file_paths;
use cloud::TransferError;

const ROOT: &[u8] = b"/srv/storage";

fn identity() -> Identity {
    Identity::from_bytes(vec![7u8; 32]).unwrap()
}

#[test]
fn payload_lives_in_the_identity_namespace() {
    let (payload, signature) = get_file_paths(ROOT, &identity(), b"notes.txt").unwrap();
    let mut expected = ROOT.to_vec();
    expected.push(b'/');
    expected.extend_from_slice(&base58_encode(&[7u8; 32]));
    expected.push(b'/');
    expected.extend_from_slice(b"notes.txt");
    assert_eq!(payload, expected);
    let mut expected_sig = expected[..expected.len() - 3].to_vec();
    expected_sig.extend_from_slice(b"sig");
    assert_eq!(signature, expected_sig);
}

#[test]
fn signature_path_extension_rules() {
    let sig_for = |name: &[u8]| {
        let (payload, signature) = get_file_paths(ROOT, &identity(), name).unwrap();
        let dir_len = payload.len() - name.len();
        signature[dir_len..].to_vec()
    };
    assert_eq!(sig_for(b"notes.txt"), b"notes.sig".to_vec());
    assert_eq!(sig_for(b"notes"), b"notes.sig".to_vec());
    assert_eq!(sig_for(b".bashrc"), b".bashrc.sig".to_vec());
    assert_eq!(sig_for(b"a.b.c"), b"a.b.sig".to_vec());
    assert_eq!(sig_for(b"dir/file.txt"), b"dir/file.sig".to_vec());
    assert_eq!(sig_for(b"dir.d/file"), b"dir.d/file.sig".to_vec());
}

#[test]
fn escaping_names_always_rejected() {
    for name in [
        b"..".as_slice(),
        b"../escape",
        b"a/../../b",
        b"../a/b",
        b"deep/a/../../../../etc/passwd",
        b"x/./../../y",
        b"/etc/passwd",
        b"",
    ] {
        for id_byte in [7u8, 8u8] {
            let id = Identity::from_bytes(vec![id_byte; 32]).unwrap();
            assert_eq!(
                get_file_paths(ROOT, &id, name).map(|_| ()),
                Err(TransferError::SandboxViolation),
                "name {:?} must be rejected",
                name
            );
        }
    }
}

#[test]
fn non_escaping_names_are_accepted() {
    // Normalization stays inside the namespace directory: these resolve to a
    // descendant (or the directory itself) and are allowed, as are dots that
    // are merely part of a segment.
    for name in [
        b"a/../b".as_slice(),
        b"a/..",
        b"a/b/../../c",
        b"./a",
        b"a//b",
        b"..a",
        b"a..",
        b"a..b",
        b"a/..b/c",
        b"...",
        b"a.b",
    ] {
        assert!(
            get_file_paths(ROOT, &identity(), name).is_ok(),
            "name {:?} must be accepted",
            name
        );
    }
}

#[test]
fn distinct_identities_get_distinct_namespaces() {
    let a = Identity::from_bytes(vec![7u8; 32]).unwrap();
    let b = Identity::from_bytes(vec![8u8; 32]).unwrap();
    let (payload_a, _) = get_file_paths(ROOT, &a, b"notes.txt").unwrap();
    let (payload_b, _) = get_file_paths(ROOT, &b, b"notes.txt").unwrap();
    assert_ne!(payload_a, payload_b);
}
