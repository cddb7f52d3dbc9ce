use modo::session::fingerprint::compute_fingerprint;
use sha2::Digest;

#[test]
fn fingerprint_is_sha256_hex() {
    let fp = compute_fingerprint("test", "en", "gzip");
    assert_eq!(fp.len(), 64);
    assert!(fp.chars().all(|c| c.is_ascii_hexdigit()));
}

#[test]
fn fingerprint_deterministic() {
    let a = compute_fingerprint("Mozilla/5.0", "en-US", "gzip");
    let b = compute_fingerprint("Mozilla/5.0", "en-US", "gzip");
    assert_eq!(a, b);
}

#[test]
fn fingerprint_varies_on_input_change() {
    let a = compute_fingerprint("Mozilla/5.0", "en-US", "gzip");
    let b = compute_fingerprint("Mozilla/5.0", "fr-FR", "gzip");
    assert_ne!(a, b);
}

#[test]
fn fingerprint_separator_prevents_collision() {
    let a = compute_fingerprint("ab", "cd", "ef");
    let b = compute_fingerprint("abc", "de", "f");
    assert_ne!(a, b);
}

#[test]
fn fingerprint_known_digest() {
    // SHA-256 of "a\0b\0c".
    let expected: String = sha2::Sha256::digest(b"a\x00b\x00c")
        .iter()
        .map(|b| format!("{b:02x}"))
        .collect();
    assert_eq!(compute_fingerprint("a", "b", "c"), expected);
    assert!(compute_fingerprint("A", "B", "C").chars().all(|c| !c.is_ascii_uppercase()));
}

#[test]
fn hex_encoding() {
    assert_eq!(modo::session::fingerprint::hex_encode(&[1, 2, 255]), "0102ff");
    assert_eq!(modo::session::fingerprint::hex_encode(&[]), "");
}
