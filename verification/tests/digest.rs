use image_check::Digest;

#[test]
fn digest_with_algorithm() {
    let digest = Digest::from_str("sha256:abc123");
    assert_eq!(digest.algorithm, Some("sha256".to_string()));
    assert_eq!(digest.hex, "abc123");
}

#[test]
fn digest_without_algorithm() {
    let digest = Digest::from_str("abc123");
    assert_eq!(digest.algorithm, None);
    assert_eq!(digest.hex, "abc123");
}

#[test]
fn digest_equality_ignores_a_missing_algorithm() {
    assert_eq!(Digest::from_str("sha256:abc123"), Digest::from_str("abc123"));
    assert_eq!(Digest::from_str("abc123"), Digest::from_str("sha256:abc123"));
}

#[test]
fn digest_equality_ignores_another_algorithm() {
    assert_eq!(Digest::from_str("sha256:abc123"), Digest::from_str("sha512:abc123"));
    assert_eq!(Digest::from_str("nginx@sha256:abc123"), Digest::from_str("sha256:abc123"));
}

#[test]
fn digests_with_other_payloads_differ() {
    assert_ne!(Digest::from_str("sha256:abc123"), Digest::from_str("sha256:def456"));
    assert_ne!(Digest::from_str("abc123"), Digest::from_str("ABC123"));
    assert_ne!(Digest::from_str("sha256:abc123"), Digest::from_str("sha256"));
}

#[test]
fn digest_payload_ends_at_a_second_colon() {
    let digest = Digest::from_str("sha256:abc:def");
    assert_eq!(digest.algorithm, Some("sha256".to_string()));
    assert_eq!(digest.hex, "abc");
}

#[test]
fn digest_of_empty_text() {
    let digest = Digest::from_str("");
    assert_eq!(digest.algorithm, None);
    assert_eq!(digest.hex, "");
    let digest = Digest::from_str("sha256:");
    assert_eq!(digest.algorithm, Some("sha256".to_string()));
    assert_eq!(digest.hex, "");
}
