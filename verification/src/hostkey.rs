//! Whether a server's host key is trusted.
use crate::config::{HostKeyPolicy, HostKeyPolicyView};
use crate::text::same_text;
use russh::keys::ssh_key::Fingerprint;
use russh::keys::HashAlg;
use vstd::prelude::*;

verus! {

/// The SHA-256 fingerprint, as text, of a public key in its wire encoding.
pub uninterp spec fn key_fingerprint(blob: Seq<u8>) -> Seq<char>;

/// The fingerprint of a key: `HashAlg::digest` with SHA-256 over the key's wire
/// encoding, written out as text by `Fingerprint`. It is a function of those
/// bytes alone, is there for any bytes, and its text begins with the name of
/// the hash and a colon; what follows them, the contract leaves to the name.
#[verifier::external_body]
fn sha256_fingerprint(blob: &[u8]) -> (fingerprint: String)
    ensures
        fingerprint@ == key_fingerprint(blob@),
        "SHA256:"@.is_prefix_of(fingerprint@),
{
    let mut hash = [0u8; 32];
    hash.copy_from_slice(&HashAlg::Sha256.digest(blob));
    Fingerprint::Sha256(hash).to_string()
}

/// The policy's rule: accept any key, or only one with the expected fingerprint.
pub open spec fn trusted(policy: HostKeyPolicyView, fingerprint: Seq<char>) -> bool {
    match policy {
        HostKeyPolicyView::InsecureAcceptAny => true,
        HostKeyPolicyView::FingerprintSha256(expected) => fingerprint == expected,
    }
}

/// Whether the policy accepts any key, so that none has to be looked at.
pub fn accepts_unseen(policy: &HostKeyPolicy) -> (unseen: bool)
    ensures
        unseen == (policy@ is InsecureAcceptAny),
        unseen ==> forall|fingerprint: Seq<char>| trusted(policy@, fingerprint),
{
    match policy {
        HostKeyPolicy::InsecureAcceptAny => true,
        HostKeyPolicy::FingerprintSha256(_) => false,
    }
}

/// Applies the policy to a key whose fingerprint is known.
pub fn check_fingerprint(policy: &HostKeyPolicy, actual: &str) -> (accepted: bool)
    ensures
        accepted == trusted(policy@, actual@),
{
    match policy {
        HostKeyPolicy::InsecureAcceptAny => true,
        HostKeyPolicy::FingerprintSha256(expected) => same_text(actual, expected.as_str()),
    }
}

/// Decides on the host key that a server presents, given in its wire encoding.
/// An expected fingerprint has to be written with the name of its hash: one
/// without it is that of no key.
pub fn check_server_key(policy: &HostKeyPolicy, blob: &[u8]) -> (accepted: bool)
    ensures
        accepted == trusted(policy@, key_fingerprint(blob@)),
        policy@ matches HostKeyPolicyView::FingerprintSha256(expected) ==> accepted
            ==> "SHA256:"@.is_prefix_of(expected),
{
    if accepts_unseen(policy) {
        return true;
    }
    check_fingerprint(policy, sha256_fingerprint(blob).as_str())
}

/// A fingerprint policy accepts keys of one fingerprint only.
pub proof fn law_fingerprint_policy_pins_the_key(
    expected: Seq<char>,
    key: Seq<char>,
    other: Seq<char>,
)
    ensures
        trusted(HostKeyPolicyView::FingerprintSha256(expected), expected),
        trusted(HostKeyPolicyView::FingerprintSha256(expected), key) && trusted(
            HostKeyPolicyView::FingerprintSha256(expected),
            other,
        ) ==> key == other,
{
}

/// A policy accepts any key exactly where it is the one that says so, whatever
/// the key; a fingerprint policy accepts a key exactly by its fingerprint.
pub proof fn law_policy_decides_by_the_fingerprint(
    policy: HostKeyPolicyView,
    fingerprint: Seq<char>,
)
    ensures
        trusted(policy, fingerprint) <==> policy == HostKeyPolicyView::InsecureAcceptAny || policy
            == HostKeyPolicyView::FingerprintSha256(fingerprint),
{
}

} // verus!
