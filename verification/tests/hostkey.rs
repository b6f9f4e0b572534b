use arylterm::config::HostKeyPolicy;
use arylterm::hostkey::{accepts_unseen, check_fingerprint, check_server_key};
use russh::keys::{HashAlg, PublicKey};

const KEY: &str =
    "ssh-ed25519 AAAAC3NzaC1lZDI1NTE5AAAAILM+rvN+ot98qgEN796jTiQfZfG1KaT0PtFDJ/XFSqti user@example.com";
const FINGERPRINT: &str = "SHA256:UCUiLr7Pjs9wFFJMDByLgc3NrtdU344OgUM45wZPcIQ";

const OTHER_KEY: &str =
    "ecdsa-sha2-nistp256 AAAAE2VjZHNhLXNoYTItbmlzdHAyNTYAAAAIbmlzdHAyNTYAAABBBHwf2HMM5TRXvo2SQJjsNkiDD5KqiiNjrGVv3UUh+mMT5RHxiRtOnlqvjhQtBq0VpmpCV/PwUdhOig4vkbqAcEc= user@example.com";
const OTHER_FINGERPRINT: &str = "SHA256:JQ6FV0rf7qqJHZqIj4zNH8eV0oB8KLKh9Pph3FTD98g";
const FINGERPRINT_OF_NOTHING: &str = "SHA256:47DEQpj8HBSa+/TImW+5JCeuQeRkm5NMpJWZG3hSuFU";

/// A byte string behind its length, as in the wire encoding.
fn string(bytes: &[u8]) -> Vec<u8> {
    let mut encoded = (bytes.len() as u32).to_be_bytes().to_vec();
    encoded.extend_from_slice(bytes);
    encoded
}

/// A certificate of an algorithm that has no name before the `-cert` suffix.
fn nameless_certificate() -> Vec<u8> {
    let mut signature = string(b"ssh-ed25519");
    signature.extend(string(&[7; 64]));
    let mut encoded = string(b"-cert-v01@x");
    encoded.extend(string(&[1; 32]));
    encoded.extend(string(b"opaque key"));
    encoded.extend(9u64.to_be_bytes());
    encoded.extend(2u32.to_be_bytes());
    encoded.extend(string(b"host"));
    encoded.extend(string(b""));
    encoded.extend(0u64.to_be_bytes());
    encoded.extend(u64::MAX.to_be_bytes());
    encoded.extend(string(b""));
    encoded.extend(string(b""));
    encoded.extend(string(b""));
    encoded.extend(string(&blob()));
    encoded.extend(string(&signature));
    encoded
}

fn blob() -> Vec<u8> {
    PublicKey::from_openssh(KEY).unwrap().to_bytes().unwrap()
}

#[test]
fn accepts_the_expected_key() {
    let policy = HostKeyPolicy::FingerprintSha256(FINGERPRINT.to_string());
    assert!(check_server_key(&policy, &blob()));
}

#[test]
fn rejects_another_key() {
    let policy = HostKeyPolicy::FingerprintSha256(FINGERPRINT.to_string());
    let mut other = blob();
    let last = other.len() - 1;
    other[last] ^= 1;
    assert!(!check_server_key(&policy, &other));
}

#[test]
fn rejects_a_near_fingerprint() {
    let policy = HostKeyPolicy::FingerprintSha256(FINGERPRINT.to_lowercase());
    assert!(!check_server_key(&policy, &blob()));
    let policy = HostKeyPolicy::FingerprintSha256(FINGERPRINT[7..].to_string());
    assert!(!check_server_key(&policy, &blob()));
}

#[test]
fn rejects_what_is_no_key() {
    let policy = HostKeyPolicy::FingerprintSha256(FINGERPRINT.to_string());
    assert!(!check_server_key(&policy, b"no key at all"));
    assert!(!check_server_key(&policy, b""));
}

#[test]
fn accept_any_accepts_any() {
    assert!(check_server_key(&HostKeyPolicy::InsecureAcceptAny, &blob()));
    assert!(check_server_key(&HostKeyPolicy::InsecureAcceptAny, b"no key at all"));
}

#[test]
fn decides_on_any_bytes() {
    let certificate = nameless_certificate();
    let policy = HostKeyPolicy::FingerprintSha256(FINGERPRINT.to_string());
    assert!(!check_server_key(&policy, &certificate));
    assert!(check_server_key(&HostKeyPolicy::InsecureAcceptAny, &certificate));
    let policy = HostKeyPolicy::FingerprintSha256(FINGERPRINT_OF_NOTHING.to_string());
    assert!(check_server_key(&policy, b""));
    assert!(!check_server_key(&policy, &certificate));
}

#[test]
fn fingerprint_of_the_encoding_is_that_of_the_key() {
    for (line, fingerprint) in [(KEY, FINGERPRINT), (OTHER_KEY, OTHER_FINGERPRINT)] {
        let key = PublicKey::from_openssh(line).unwrap();
        assert_eq!(key.fingerprint(HashAlg::Sha256).to_string(), fingerprint);
        let policy = HostKeyPolicy::FingerprintSha256(fingerprint.to_string());
        assert!(check_server_key(&policy, &key.to_bytes().unwrap()));
    }
    let policy = HostKeyPolicy::FingerprintSha256(OTHER_FINGERPRINT.to_string());
    assert!(!check_server_key(&policy, &blob()));
}

#[test]
fn only_accept_any_needs_no_key() {
    assert!(accepts_unseen(&HostKeyPolicy::InsecureAcceptAny));
    assert!(!accepts_unseen(&HostKeyPolicy::FingerprintSha256(FINGERPRINT.to_string())));
    assert!(!accepts_unseen(&HostKeyPolicy::FingerprintSha256(String::new())));
}

#[test]
fn policy_on_known_fingerprints() {
    let policy = HostKeyPolicy::FingerprintSha256("SHA256:a".to_string());
    assert!(check_fingerprint(&policy, "SHA256:a"));
    assert!(!check_fingerprint(&policy, "SHA256:b"));
    assert!(!check_fingerprint(&policy, ""));
    assert!(check_fingerprint(&HostKeyPolicy::InsecureAcceptAny, ""));
}
