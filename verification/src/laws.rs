//! Service-level laws: properties that relate several transitions of the
//! account service, proved once and for all over the abstract state.
//! Single-call properties (an expired token is rejected, a non-admin write
//! is refused and changes nothing) are stated directly in the `ensures` of
//! the endpoint they concern.

use vstd::prelude::*;
use crate::models::CreateUserRequestView;
use crate::models::MeOutcome;
use crate::models::ServerConfigView;
use crate::crypto::bcrypt_matches;
use crate::service::{
    ServiceView, email_taken, game_username_taken, login_auth_ok, password_choice_ok,
    signup_username, spec_signup_ok, spec_config_or_default, put_config, me_result_ok, sanitized,
};
use crate::text::{dec_chars, lemma_parse_of_rendered};

verus! {

/// A signup with a fresh email and a fresh derived game username stores the
/// new account so that a login with the same email and the password actually
/// used authenticates.
pub proof fn lemma_signup_then_login(
    v: ServiceView,
    req: CreateUserRequestView,
    pw: Seq<char>,
    hash: Seq<char>,
    now: u64,
)
    requires
        v.wf(),
        !email_taken(v, req.email),
        !game_username_taken(v, signup_username(req)),
        password_choice_ok(req, pw),
        bcrypt_matches(pw, hash),
    ensures
        login_auth_ok(spec_signup_ok(v, req, pw, hash, now), req.email, pw),
{
    let v2 = spec_signup_ok(v, req, pw, hash, now);
    let i = v.users.len() as int;
    assert(v2.users[i].email == req.email);
    assert(bcrypt_matches(pw, v2.users[i].password_hash));
}

/// After any signup, the email it used is taken: a second signup with the
/// same email hits the conflict, whatever its other fields hold.
pub proof fn lemma_signup_twice_email_conflict(
    v: ServiceView,
    req1: CreateUserRequestView,
    pw: Seq<char>,
    hash: Seq<char>,
    now: u64,
    req2: CreateUserRequestView,
)
    requires
        req2.email == req1.email,
    ensures
        email_taken(spec_signup_ok(v, req1, pw, hash, now), req2.email),
{
    let v2 = spec_signup_ok(v, req1, pw, hash, now);
    let i = v.users.len() as int;
    assert(v2.users[i].email == req2.email);
}

/// After a signup that inserted its game-account row, the derived game
/// username is taken: the availability check reports it, and a further
/// signup deriving the same username hits the conflict.
pub proof fn lemma_signup_takes_username(
    v: ServiceView,
    req: CreateUserRequestView,
    pw: Seq<char>,
    hash: Seq<char>,
    now: u64,
)
    requires
        v.game_accounts.len() < u32::MAX,
    ensures
        game_username_taken(spec_signup_ok(v, req, pw, hash, now), signup_username(req)),
{
    let v2 = spec_signup_ok(v, req, pw, hash, now);
    let j = v.game_accounts.len() as int;
    assert(v2.game_accounts[j].username == signup_username(req));
}

/// Reading the configuration right after a write reflects every field
/// exactly as written.
pub proof fn lemma_config_round_trip(v: ServiceView, c: ServerConfigView)
    ensures
        spec_config_or_default(put_config(v, c)) == c,
{
}

/// A session token issued for an existing account resolves back to that
/// account: introspection with an unexpired token whose subject is the
/// account's identity key answers exactly that account's sanitized profile.
pub proof fn lemma_issued_token_resolves(v: ServiceView, i: int, e: u64, now: u64, r: MeOutcome)
    requires
        0 <= i < v.users.len(),
        i <= u64::MAX,
        e > now,
        me_result_ok(v, dec_chars(i as nat), e, now, r),
    ensures
        r matches MeOutcome::Found(resp) && sanitized(resp, v.users[i], i),
{
    lemma_parse_of_rendered(i as u64);
    assert(i as u64 as nat == i as nat);
}

} // verus!
