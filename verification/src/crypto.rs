//! Credential hashing for the account service.
//!
//! Two independent schemes, never to be confused:
//! - the dashboard login credential is protected by a slow salted hash
//!   (bcrypt, cost-parameterized);
//! - the game server uses a legacy scheme for bit-exact interoperability with
//!   its authentication table: uppercase the username and password,
//!   concatenate as `USERNAME:PASSWORD`, and take a single unsalted SHA-1
//!   digest, hex-encoded lower-case.

use vstd::prelude::*;
use crate::text::{upper_bytes, to_upper_bytes, is_alnum_bytes};
use sha1::{Digest, Sha1};
use rand::Rng;

verus! {

/// The SHA-1 digest of a byte string, named but not defined here: the digest
/// depends on its input alone, and callers only need that two equal inputs
/// give equal digests.
pub uninterp spec fn sha1_of(data: Seq<u8>) -> Seq<u8>;

/// Relies on `sha1::Sha1` (via the `Digest` trait): the digest is a function
/// of the input bytes alone and is 20 bytes long.
#[verifier::external_body]
fn sha1_digest(data: &Vec<u8>) -> (r: Vec<u8>)
    ensures
        r@ == sha1_of(data@),
        r@.len() == 20,
{
    let mut hasher = Sha1::new();
    hasher.update(data.as_slice());
    hasher.finalize().to_vec()
}

/// The lower-case hex digit for a value below 16.
pub open spec fn hex_digit(n: u8) -> char
    recommends
        n < 16,
{
    if n < 10 {
        (n + 48) as char
    } else {
        (n + 87) as char
    }
}

/// Lower-case hex encoding: two digits for each byte, high nibble first.
pub open spec fn hex_of(b: Seq<u8>) -> Seq<char> {
    Seq::new(
        b.len() * 2,
        |i: int| if i % 2 == 0 {
            hex_digit(b[i / 2] / 16)
        } else {
            hex_digit((b[i / 2] % 16) as u8)
        },
    )
}

/// Relies on `hex::encode`: lower-case hex, two digits per byte, high nibble
/// first.
#[verifier::external_body]
fn hex_encode(b: &Vec<u8>) -> (r: String)
    ensures
        r@ == hex_of(b@),
{
    hex::encode(b.as_slice())
}

/// The legacy game-server credential digest over the raw (not yet folded)
/// username and password bytes: SHA-1 of `UPPER(username):UPPER(password)`,
/// hex-encoded lower-case.
pub open spec fn spec_legacy_digest(username: Seq<u8>, password: Seq<u8>) -> Seq<char> {
    hex_of(sha1_of(upper_bytes(username) + seq![58u8] + upper_bytes(password)))
}

/// Computes the legacy game-server digest of a raw username and password.
pub fn legacy_digest(username: &Vec<u8>, password: &Vec<u8>) -> (r: String)
    ensures
        r@ == spec_legacy_digest(username@, password@),
{
    let mut data = to_upper_bytes(username);
    data.push(58);
    let mut upper_pw = to_upper_bytes(password);
    data.append(&mut upper_pw);
    proof {
        assert(data@ =~= upper_bytes(username@) + seq![58u8] + upper_bytes(password@));
    }
    let digest = sha1_digest(&data);
    hex_encode(&digest)
}

/// The legacy digest folds case before concatenation: credentials that agree
/// after upper-casing give the same digest.
pub proof fn lemma_legacy_digest_case_fold(u1: Seq<u8>, p1: Seq<u8>, u2: Seq<u8>, p2: Seq<u8>)
    requires
        upper_bytes(u1) == upper_bytes(u2),
        upper_bytes(p1) == upper_bytes(p2),
    ensures
        spec_legacy_digest(u1, p1) == spec_legacy_digest(u2, p2),
{
}

/// Relies on `rand::distributions::Alphanumeric`: every sampled byte is an
/// ASCII letter or digit. Nothing relates two calls: the samples are random.
#[verifier::external_body]
pub(crate) fn random_alphanumeric(len: usize) -> (r: Vec<u8>)
    ensures
        r@.len() == len,
        is_alnum_bytes(r@),
{
    rand::thread_rng().sample_iter(&rand::distributions::Alphanumeric).take(len).collect()
}

/// Whether a dashboard password matches a stored bcrypt hash: the outcome of
/// `bcrypt::verify`, which depends on the password and the hash alone
/// (a malformed hash or an internal error counts as no match).
pub uninterp spec fn bcrypt_matches(password: Seq<char>, hash: Seq<char>) -> bool;

/// Relies on `bcrypt::hash` with `bcrypt::DEFAULT_COST`: on success the
/// returned salted hash verifies against the hashed password.
#[verifier::external_body]
pub(crate) fn bcrypt_hash(password: &String) -> (r: Option<String>)
    ensures
        r matches Some(h) ==> bcrypt_matches(password@, h@),
{
    bcrypt::hash(password.as_str(), bcrypt::DEFAULT_COST).ok()
}

/// Relies on `bcrypt::verify`: constant-effort verification of a password
/// against a stored hash; a verification error is treated as no match.
#[verifier::external_body]
pub(crate) fn bcrypt_verify(password: &String, hash: &String) -> (r: bool)
    ensures
        r == bcrypt_matches(password@, hash@),
{
    bcrypt::verify(password.as_str(), hash.as_str()).unwrap_or(false)
}

} // verus!
