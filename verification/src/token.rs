//! Stateless session tokens: a signed, time-limited claim set
//! {subject, expiry-epoch-seconds, role}, carried as a bearer credential.
//!
//! Signing and signature verification are done by `jsonwebtoken` (HS256 with
//! a symmetric key supplied out of band) behind the two trusted wrappers
//! below; expiry is checked by verified code against a caller-supplied clock
//! reading, so an expired claim set is rejected no matter what the wrapper
//! returns.

use vstd::prelude::*;

verus! {

/// A decoded claim set.
pub struct Claims {
    pub sub: String,
    pub exp: u64,
    pub role: String,
}

/// The signed token for a claim set under a signing key, named but not
/// defined here: with a fixed header and claim layout the token is a function
/// of the claims and the key alone.
pub uninterp spec fn token_of(sub: Seq<char>, exp: u64, role: Seq<char>, key: Seq<u8>) -> Seq<char>;

/// What signature verification makes of a token under a key: the claim set
/// (subject, expiry, role) it carries, or nothing when the token is malformed
/// or its signature does not check out under that key. A function of the
/// token and the key alone (expiry plays no part in it).
pub uninterp spec fn claims_of(token: Seq<char>, key: Seq<u8>) -> Option<(Seq<char>, u64, Seq<char>)>;

/// Relies on `jsonwebtoken::encode` with the default (HS256) header: the
/// token is a deterministic signature-bearing encoding of the claim set, and
/// the HS256 path of `encode` cannot fail (the claim layout serializes
/// infallibly and HMAC signing is total), so this wrapper is total.
#[verifier::external_body]
pub(crate) fn issue_token(sub: &String, exp: u64, role: &String, key: &Vec<u8>) -> (r: String)
    ensures
        r@ == token_of(sub@, exp, role@, key@),
{
    let mut claims = serde_json::Map::new();
    claims.insert("sub".to_string(), serde_json::Value::String(sub.clone()));
    claims.insert("exp".to_string(), serde_json::Value::from(exp));
    claims.insert("role".to_string(), serde_json::Value::String(role.clone()));
    jsonwebtoken::encode(
        &jsonwebtoken::Header::default(),
        &serde_json::Value::Object(claims),
        &jsonwebtoken::EncodingKey::from_secret(key.as_slice()),
    )
        .unwrap_or_default()
}

/// Relies on `jsonwebtoken::decode`: signature verification is deterministic
/// in the token and the key (named `claims_of`), and a token issued for a
/// claim set under the same key passes it and decodes to exactly that claim
/// set. Expiry is deliberately not checked here; verified callers compare the
/// decoded expiry against their clock reading.
#[verifier::external_body]
pub(crate) fn decode_token(token: &String, key: &Vec<u8>) -> (r: Option<Claims>)
    ensures
        r matches Some(c) ==> claims_of(token@, key@) == Some((c.sub@, c.exp, c.role@)),
        r is None ==> claims_of(token@, key@) is None,
        r matches Some(c) ==> forall|s: Seq<char>, e: u64, ro: Seq<char>|
            token@ == #[trigger] token_of(s, e, ro, key@) ==> c.sub@ == s && c.exp == e
                && c.role@ == ro,
        r is None ==> forall|s: Seq<char>, e: u64, ro: Seq<char>|
            token@ != #[trigger] token_of(s, e, ro, key@),
{
    let mut validation = jsonwebtoken::Validation::new(jsonwebtoken::Algorithm::HS256);
    validation.validate_exp = false;
    validation.required_spec_claims.clear();
    let data = jsonwebtoken::decode::<serde_json::Value>(
        token.as_str(),
        &jsonwebtoken::DecodingKey::from_secret(key.as_slice()),
        &validation,
    ).ok()?;
    let sub = data.claims.get("sub")?.as_str()?.to_string();
    let exp = data.claims.get("exp")?.as_u64()?;
    let role = data.claims.get("role")?.as_str()?.to_string();
    Some(Claims { sub, exp, role })
}

} // verus!
