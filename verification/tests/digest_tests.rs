use account_service::crypto::legacy_digest;
use sha1::{Digest, Sha1};

fn digest_of(username: &str, password: &str) -> String {
    legacy_digest(&username.as_bytes().to_vec(), &password.as_bytes().to_vec())
}

#[test]
fn legacy_digest_case_folds_before_concatenation() {
    assert_eq!(digest_of("ALICE", "Secret1"), digest_of("alice", "SECRET1"));
    assert_eq!(digest_of("Alice", "secret1"), digest_of("aLiCe", "SeCrEt1"));
}

#[test]
fn legacy_digest_concrete_alice() {
    // sha1("ALICE:SECRET1"), lower-case hex.
    assert_eq!(
        digest_of("ALICE", "Secret1"),
        "bce27ab0a2cc18154d7e56fedd4974921521045d"
    );
}

#[test]
fn legacy_digest_differs_from_unfolded_hash() {
    // Hashing without folding the password's case first gives another digest:
    // the scheme folds both halves before concatenation.
    let unfolded = hex::encode(Sha1::digest("ALICE:secret1".as_bytes()));
    assert_eq!(unfolded, "85d4ccc61fdb6edd36fa12245fabe8731503ae6c");
    assert_ne!(digest_of("ALICE", "Secret1"), unfolded);
}

#[test]
fn legacy_digest_matches_independent_sha1() {
    let expected = hex::encode(Sha1::digest("HERO:PASS123".as_bytes()));
    assert_eq!(expected, "7640a2ec8d75508d49f18c0b89cd6c39236ddffa");
    assert_eq!(digest_of("Hero", "pass123"), expected);
    assert_eq!(digest_of("HERO", "PASS123"), expected);
}

#[test]
fn legacy_digest_empty_credentials() {
    let expected = hex::encode(Sha1::digest(":".as_bytes()));
    assert_eq!(digest_of("", ""), expected);
}
