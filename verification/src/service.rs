//! The account service: one state value modelling the two backing stores and
//! the configuration singleton, with the request handlers as verified
//! transitions over it.
//!
//! The credential store is the sequence of [`User`] records (a user's
//! identity key is its position), the game-account store is the sequence of
//! [`GameAccount`] rows (likewise keyed by position), and the configuration
//! store holds at most one [`ServerConfig`]. Clock readings are passed in by
//! the caller; randomness, hashing and token signing come through the trusted
//! wrappers of [`crate::crypto`] and [`crate::token`].

use vstd::prelude::*;
use vstd::string::StringExecFns;
use crate::models::{
    User, UserView, GameAccount, GameAccountView, Character, CharacterView, ServerConfig,
    ServerConfigView, Role, role_str, role_string, opt_str_view, clone_opt_string,
    CreateUserRequest, CreateUserRequestView, LoginRequest, LoginGameRequest, GoogleProfile,
    GoogleProfileView, ProfileUpdate, ProfileUpdateView, UserResponse, LoginResponse,
    GameLoginResponse, SignupOutcome, LoginOutcome, MeOutcome, ProfileOutcome, ConfigOutcome,
    GameLoginOutcome, WelcomeNote,
};
use crate::text::{
    upper_bytes, to_upper_bytes, bytes_eq, str_bytes, string_bytes, dec_chars, ascii_chars,
    is_ascii_bytes, is_alnum_bytes, is_alnum_chars, is_alnum_byte, lemma_upper_alnum, alnum_only,
    local_part, email_local_part,
    filter_alnum, concat_bytes, u64_to_dec, parse_u64, spec_parse_u64, bytes_to_string,
    lemma_dec_bytes_digits, lemma_ascii_bytes_roundtrip, lemma_alnum_bytes_chars,
};
use crate::crypto::{
    spec_legacy_digest, legacy_digest, bcrypt_matches, bcrypt_hash, bcrypt_verify,
    random_alphanumeric,
};
use crate::token::{Claims, token_of, claims_of, issue_token, decode_token};

verus! {

/// The abstract state of the account service.
#[verifier::ext_equal]
pub struct ServiceView {
    pub users: Seq<UserView>,
    pub game_accounts: Seq<GameAccountView>,
    pub characters: Seq<CharacterView>,
    pub config: Option<ServerConfigView>,
    pub signing_key: Seq<u8>,
    pub admin_email: Seq<char>,
}

impl ServiceView {
    /// Well-formedness: no two users share an email, no two game accounts
    /// share a username.
    pub open spec fn wf(self) -> bool {
        &&& forall|i: int, j: int|
            0 <= i < j < self.users.len() ==> self.users[i].email != self.users[j].email
        &&& forall|i: int, j: int|
            0 <= i < j < self.game_accounts.len() ==> self.game_accounts[i].username
                != self.game_accounts[j].username
    }
}

/// Whether some user already holds an email address.
pub open spec fn email_taken(v: ServiceView, email: Seq<char>) -> bool {
    exists|i: int| 0 <= i < v.users.len() && #[trigger] v.users[i].email == email
}

/// Whether some game account already holds a (case-folded) username.
pub open spec fn game_username_taken(v: ServiceView, username: Seq<u8>) -> bool {
    exists|j: int|
        0 <= j < v.game_accounts.len() && #[trigger] v.game_accounts[j].username == username
}

/// Whether an email/password pair authenticates against the credential store.
pub open spec fn login_auth_ok(v: ServiceView, email: Seq<char>, password: Seq<char>) -> bool {
    exists|i: int|
        0 <= i < v.users.len() && #[trigger] v.users[i].email == email && bcrypt_matches(
            password,
            v.users[i].password_hash,
        )
}

/// The profile fields a caller may see of a user record — everything but the
/// avatar (stated separately) and never the password hash.
pub open spec fn profile_fields_ok(resp: UserResponse, u: UserView, id: int) -> bool {
    &&& resp.id@ == dec_chars(id as nat)
    &&& resp.name@ == u.nickname
    &&& resp.nickname@ == u.nickname
    &&& resp.email@ == u.email
    &&& opt_str_view(resp.first_name) == Some(u.first_name)
    &&& opt_str_view(resp.last_name) == Some(u.last_name)
    &&& resp.is_admin == (u.role is Admin)
    &&& resp.game_id == u.game_id
}

/// The sanitized view of a user record: its profile fields and its stored
/// avatar.
pub open spec fn sanitized(resp: UserResponse, u: UserView, id: int) -> bool {
    profile_fields_ok(resp, u, id) && opt_str_view(resp.avatar_url) == u.avatar_url
}

/// The profile returned by the identity-provider login: the stored record,
/// but with the provider's picture as the avatar.
pub open spec fn google_sanitized(
    resp: UserResponse,
    u: UserView,
    id: int,
    picture: Option<Seq<char>>,
) -> bool {
    profile_fields_ok(resp, u, id) && opt_str_view(resp.avatar_url) == picture
}

/// What session introspection answers for a token whose claim set is
/// (`s`, `e`, some role) at clock reading `now`.
pub open spec fn me_result_ok(v: ServiceView, s: Seq<char>, e: u64, now: u64, r: MeOutcome) -> bool {
    if e <= now {
        r is Unauthorized
    } else {
        match spec_parse_u64(str_bytes(s)) {
            None => r is BadRequest,
            Some(id) => if id < v.users.len() {
                r matches MeOutcome::Found(resp) && sanitized(resp, v.users[id as int], id as int)
            } else {
                r is NotFound
            },
        }
    }
}

/// What a configuration write answers for a token with expiry `e` and role
/// `ro` at clock reading `now`.
pub open spec fn config_result_ok(e: u64, ro: Seq<char>, now: u64, r: ConfigOutcome) -> bool {
    if e <= now {
        r is Unauthorized
    } else if ro != "admin"@ {
        r is Forbidden
    } else {
        r is Updated
    }
}

/// Whether a raw game-client username/password pair matches a game account:
/// the row keyed by the folded username must hold the legacy digest of the
/// pair.
pub open spec fn game_login_ok(v: ServiceView, username: Seq<char>, password: Seq<char>) -> bool {
    exists|j: int|
        0 <= j < v.game_accounts.len() && #[trigger] v.game_accounts[j].username == upper_bytes(
            str_bytes(username),
        ) && v.game_accounts[j].digest == spec_legacy_digest(
            str_bytes(username),
            str_bytes(password),
        )
}

/// The served configuration: the stored singleton, or the defaults when none
/// was ever written.
pub open spec fn spec_config_or_default(v: ServiceView) -> ServerConfigView {
    match v.config {
        Some(c) => c,
        None => spec_default_config(),
    }
}

/// The hard-coded default configuration, served before any write. The realm
/// name and address double as the seed values a deployment announces to game
/// clients, so no separate realm-list setup step exists: until an
/// administrator writes the singleton, reads serve exactly these values.
pub open spec fn spec_default_config() -> ServerConfigView {
    ServerConfigView {
        name: "Aethelgard"@,
        realm_address: "game.aethelgard-wow.com:8085"@,
        expansion: "WotLK"@,
        rate_experience: 1u32,
        rate_drop: 1u32,
        rate_gold: 1u32,
        rate_reputation: 1u32,
        motd: None,
    }
}

/// Overwriting the configuration singleton: every field is replaced, the rest
/// of the state is untouched.
pub open spec fn put_config(v: ServiceView, c: ServerConfigView) -> ServiceView {
    ServiceView { config: Some(c), ..v }
}

/// The password a signup actually uses: the supplied one, or a generated
/// 10-character alphanumeric one when none was supplied.
pub open spec fn password_choice_ok(req: CreateUserRequestView, pw: Seq<char>) -> bool {
    match req.password {
        Some(p) => pw == p,
        None => pw.len() == 10 && is_alnum_chars(pw),
    }
}

/// The welcome message owed when the password `pw` was generated for a game
/// account named `username`: none when the caller supplied the password,
/// else the address, the username (exact where it is ASCII) and the
/// generated plaintext password.
pub open spec fn welcome_note_ok(
    supplied: bool,
    note: Option<WelcomeNote>,
    email: Seq<char>,
    username: Seq<u8>,
    pw: Seq<char>,
) -> bool {
    if supplied {
        note is None
    } else {
        note matches Some(n) && n.email@ == email && n.password@ == pw && (is_ascii_bytes(username)
            ==> n.game_username@ == ascii_chars(username))
    }
}

/// The game username a signup derives: the nickname, case-folded upper.
pub open spec fn signup_username(req: CreateUserRequestView) -> Seq<u8> {
    upper_bytes(str_bytes(req.nickname))
}

/// The game-account row a signup inserts.
pub open spec fn signup_game_row(req: CreateUserRequestView, pw: Seq<char>) -> GameAccountView {
    GameAccountView {
        username: signup_username(req),
        digest: spec_legacy_digest(str_bytes(req.nickname), str_bytes(pw)),
        email: req.email,
        expansion: 2,
    }
}

/// The state after the game-account step of a signup: the row is inserted
/// unless the relational store is at capacity (then the signup proceeds
/// without a linked game account).
pub open spec fn spec_signup_game_step(
    v: ServiceView,
    req: CreateUserRequestView,
    pw: Seq<char>,
) -> ServiceView {
    if v.game_accounts.len() < u32::MAX {
        ServiceView { game_accounts: v.game_accounts.push(signup_game_row(req, pw)), ..v }
    } else {
        v
    }
}

/// The state after a successful signup: the game-account step, then the new
/// user record with role `user` and the hash of the password used.
pub open spec fn spec_signup_ok(
    v: ServiceView,
    req: CreateUserRequestView,
    pw: Seq<char>,
    hash: Seq<char>,
    now: u64,
) -> ServiceView {
    let v1 = spec_signup_game_step(v, req, pw);
    let game_id: Option<u32> = if v.game_accounts.len() < u32::MAX {
        Some(v.game_accounts.len() as u32)
    } else {
        None
    };
    ServiceView {
        users: v.users.push(
            UserView {
                nickname: req.nickname,
                first_name: req.first_name,
                last_name: req.last_name,
                email: req.email,
                password_hash: hash,
                role: Role::User,
                game_id,
                avatar_url: req.avatar_url,
                created_at: now,
            },
        ),
        ..v1
    }
}

/// A signup with a fresh email and a fresh game username preserves the store
/// invariants.
pub proof fn lemma_signup_ok_wf(
    v: ServiceView,
    req: CreateUserRequestView,
    pw: Seq<char>,
    hash: Seq<char>,
    now: u64,
)
    requires
        v.wf(),
        !email_taken(v, req.email),
        !game_username_taken(v, signup_username(req)),
    ensures
        spec_signup_ok(v, req, pw, hash, now).wf(),
{
    let v2 = spec_signup_ok(v, req, pw, hash, now);
    assert forall|i: int, j: int| 0 <= i < j < v2.users.len() implies v2.users[i].email
        != v2.users[j].email by {
        if j < v.users.len() {
        } else {
            assert(v2.users[i] == v.users[i]);
        }
    }
    assert forall|i: int, j: int| 0 <= i < j < v2.game_accounts.len() implies v2.game_accounts[
        i
    ].username != v2.game_accounts[j].username by {
        if j < v.game_accounts.len() {
        } else {
            assert(v2.game_accounts[i] == v.game_accounts[i]);
        }
    }
}

/// The base of a game username synthesized from an email address: the local
/// part, reduced to its ASCII letters and digits.
pub open spec fn google_base_name(email: Seq<char>) -> Seq<u8> {
    alnum_only(local_part(str_bytes(email)))
}

/// The game username synthesized for a provider-provisioned account: the
/// base name plus a random 4-character suffix, case-folded upper.
pub open spec fn google_username(email: Seq<char>, suffix: Seq<u8>) -> Seq<u8> {
    upper_bytes(google_base_name(email) + suffix)
}

/// The state after provisioning a new user from a validated identity-provider
/// profile: a game-account row is inserted when the synthesized username is
/// free and the store has capacity (else the user is left unlinked), and the
/// user record carries an empty password hash — the user authenticates only
/// via the provider. The administrator role is granted exactly to the
/// configured admin email.
pub open spec fn spec_google_provision(
    v: ServiceView,
    info: GoogleProfileView,
    suffix: Seq<u8>,
    pw: Seq<char>,
    now: u64,
) -> ServiceView {
    let uname = google_username(info.email, suffix);
    let digest = spec_legacy_digest(google_base_name(info.email) + suffix, str_bytes(pw));
    let can_link = !game_username_taken(v, uname) && v.game_accounts.len() < u32::MAX;
    let row = GameAccountView { username: uname, digest, email: info.email, expansion: 2 };
    ServiceView {
        users: v.users.push(
            UserView {
                nickname: match info.name {
                    Some(n) => n,
                    None => ascii_chars(google_base_name(info.email)),
                },
                first_name: match info.given_name {
                    Some(g) => g,
                    None => "User"@,
                },
                last_name: match info.family_name {
                    Some(f) => f,
                    None => Seq::<char>::empty(),
                },
                email: info.email,
                password_hash: Seq::<char>::empty(),
                role: if info.email == v.admin_email {
                    Role::Admin
                } else {
                    Role::User
                },
                game_id: if can_link {
                    Some(v.game_accounts.len() as u32)
                } else {
                    None
                },
                avatar_url: info.picture,
                created_at: now,
            },
        ),
        game_accounts: if can_link {
            v.game_accounts.push(row)
        } else {
            v.game_accounts
        },
        ..v
    }
}

/// The admin promotion applied on every identity-provider login of an
/// existing user: the configured admin email is forced to the administrator
/// role, every other record is left as it is.
pub open spec fn promote_admin(v: ServiceView, i: int) -> ServiceView {
    if v.users[i].email == v.admin_email {
        ServiceView {
            users: v.users.update(i, UserView { role: Role::Admin, ..v.users[i] }),
            ..v
        }
    } else {
        v
    }
}

/// Promotion changes no email and no game account, so it preserves the store
/// invariants.
pub proof fn lemma_promote_admin_wf(v: ServiceView, i: int)
    requires
        v.wf(),
        0 <= i < v.users.len(),
    ensures
        promote_admin(v, i).wf(),
{
    let v2 = promote_admin(v, i);
    assert forall|a: int, b: int| 0 <= a < b < v2.users.len() implies v2.users[a].email
        != v2.users[b].email by {
        assert(v2.users[a].email == v.users[a].email);
        assert(v2.users[b].email == v.users[b].email);
    }
}

/// Provisioning a user for a fresh email preserves the store invariants.
pub proof fn lemma_google_provision_wf(
    v: ServiceView,
    info: GoogleProfileView,
    suffix: Seq<u8>,
    pw: Seq<char>,
    now: u64,
)
    requires
        v.wf(),
        !email_taken(v, info.email),
    ensures
        spec_google_provision(v, info, suffix, pw, now).wf(),
{
    let v2 = spec_google_provision(v, info, suffix, pw, now);
    assert forall|i: int, j: int| 0 <= i < j < v2.users.len() implies v2.users[i].email
        != v2.users[j].email by {
        if j < v.users.len() {
        } else {
            assert(v2.users[i] == v.users[i]);
        }
    }
    assert forall|i: int, j: int| 0 <= i < j < v2.game_accounts.len() implies v2.game_accounts[
        i
    ].username != v2.game_accounts[j].username by {
        if j < v.game_accounts.len() {
        } else {
            assert(v2.game_accounts[i] == v.game_accounts[i]);
        }
    }
}

/// The game-account step alone (a signup that later failed) preserves the
/// store invariants.
pub proof fn lemma_signup_game_step_wf(v: ServiceView, req: CreateUserRequestView, pw: Seq<char>)
    requires
        v.wf(),
        !game_username_taken(v, signup_username(req)),
    ensures
        spec_signup_game_step(v, req, pw).wf(),
{
    let v2 = spec_signup_game_step(v, req, pw);
    assert forall|i: int, j: int| 0 <= i < j < v2.game_accounts.len() implies v2.game_accounts[
        i
    ].username != v2.game_accounts[j].username by {
        if j < v.game_accounts.len() {
        } else {
            assert(v2.game_accounts[i] == v.game_accounts[i]);
        }
    }
}

/// A supplied field overrides, an absent one falls back to the stored value.
pub open spec fn opt_or(upd: Option<Seq<char>>, cur: Seq<char>) -> Seq<char> {
    match upd {
        Some(x) => x,
        None => cur,
    }
}

/// Whether a profile update asks for an email that already belongs to a
/// different account.
pub open spec fn profile_email_conflict(v: ServiceView, id: int, upd: ProfileUpdateView) -> bool {
    match upd.email {
        Some(e) => e != v.users[id].email && email_taken(v, e),
        None => false,
    }
}

/// The state after a profile update: the supplied fields of the user record
/// override, the others are kept; when the email changed and a game account
/// is linked, the new email is propagated to the game-account row.
pub open spec fn spec_apply_update(v: ServiceView, id: int, upd: ProfileUpdateView) -> ServiceView {
    let u = v.users[id];
    let new_email = opt_or(upd.email, u.email);
    let u2 = UserView {
        nickname: opt_or(upd.nickname, u.nickname),
        first_name: opt_or(upd.first_name, u.first_name),
        last_name: opt_or(upd.last_name, u.last_name),
        email: new_email,
        avatar_url: match upd.avatar_url {
            Some(a) => Some(a),
            None => u.avatar_url,
        },
        ..u
    };
    let email_changed = match upd.email {
        Some(e) => e != u.email,
        None => false,
    };
    let game_accounts = if email_changed && (u.game_id matches Some(g) && (g as int)
        < v.game_accounts.len()) {
        v.game_accounts.update(
            u.game_id.unwrap() as int,
            GameAccountView { email: new_email, ..v.game_accounts[u.game_id.unwrap() as int] },
        )
    } else {
        v.game_accounts
    };
    ServiceView { users: v.users.update(id, u2), game_accounts, ..v }
}

/// What a profile update answers, and how the state changes, for a token
/// whose subject is `s`.
pub open spec fn profile_result_ok(
    v: ServiceView,
    s: Seq<char>,
    upd: ProfileUpdateView,
    v2: ServiceView,
    r: ProfileOutcome,
) -> bool {
    match spec_parse_u64(str_bytes(s)) {
        None => r is BadRequest,
        Some(id) => if id >= v.users.len() {
            r is NotFound
        } else if profile_email_conflict(v, id as int, upd) {
            r is EmailConflict
        } else {
            r matches ProfileOutcome::Updated(resp) && v2 == spec_apply_update(v, id as int, upd)
                && sanitized(resp, spec_apply_update(v, id as int, upd).users[id as int], id as int)
        },
    }
}

/// A conflict-free profile update preserves the store invariants.
pub proof fn lemma_apply_update_wf(v: ServiceView, id: int, upd: ProfileUpdateView)
    requires
        v.wf(),
        0 <= id < v.users.len(),
        !profile_email_conflict(v, id, upd),
    ensures
        spec_apply_update(v, id, upd).wf(),
{
    let v2 = spec_apply_update(v, id, upd);
    assert forall|a: int, b: int| 0 <= a < b < v2.users.len() implies v2.users[a].email
        != v2.users[b].email by {
        if a != id && b != id {
            assert(v2.users[a].email == v.users[a].email);
            assert(v2.users[b].email == v.users[b].email);
        } else {
            let other = if a == id {
                b
            } else {
                a
            };
            assert(v2.users[other].email == v.users[other].email);
            match upd.email {
                Some(e) => {
                    if e != v.users[id].email {
                        assert(!email_taken(v, e));
                        assert(v.users[other].email != e);
                    }
                },
                None => {},
            }
        }
    }
    assert forall|a: int, b: int| 0 <= a < b < v2.game_accounts.len() implies v2.game_accounts[
        a
    ].username != v2.game_accounts[b].username by {
        assert(v2.game_accounts[a].username == v.game_accounts[a].username);
        assert(v2.game_accounts[b].username == v.game_accounts[b].username);
    }
}

/// The account service over its in-memory stores.
pub struct AccountService {
    pub users: Vec<User>,
    pub game_accounts: Vec<GameAccount>,
    pub characters: Vec<Character>,
    pub config: Option<ServerConfig>,
    pub signing_key: Vec<u8>,
    pub admin_email: String,
}

impl View for AccountService {
    type V = ServiceView;

    open spec fn view(&self) -> ServiceView {
        ServiceView {
            users: self.users@.map_values(|u: User| u@),
            game_accounts: self.game_accounts@.map_values(|g: GameAccount| g@),
            characters: self.characters@.map_values(|c: Character| c@),
            config: match self.config {
                Some(c) => Some(c@),
                None => None,
            },
            signing_key: self.signing_key@,
            admin_email: self.admin_email@,
        }
    }
}

impl AccountService {
    /// A fresh service: empty stores, no configuration written yet, the
    /// signing key and the admin allow-list entry fixed at construction.
    pub fn new(signing_key: Vec<u8>, admin_email: String) -> (s: AccountService)
        ensures
            s@.wf(),
            s@.users.len() == 0,
            s@.game_accounts.len() == 0,
            s@.characters.len() == 0,
            s@.config is None,
            s@.signing_key == signing_key@,
            s@.admin_email == admin_email@,
    {
        let s = AccountService {
            users: Vec::new(),
            game_accounts: Vec::new(),
            characters: Vec::new(),
            config: None,
            signing_key,
            admin_email,
        };
        proof {
            assert(s@.users =~= Seq::<UserView>::empty());
            assert(s@.game_accounts =~= Seq::<GameAccountView>::empty());
            assert(s@.characters =~= Seq::<CharacterView>::empty());
        }
        s
    }

    /// The index of the user holding an email, if any.
    fn find_user_by_email(&self, email: &String) -> (r: Option<usize>)
        ensures
            match r {
                Some(i) => 0 <= i < self@.users.len() && self@.users[i as int].email == email@,
                None => !email_taken(self@, email@),
            },
    {
        let mut i: usize = 0;
        while i < self.users.len()
            invariant
                i <= self.users.len(),
                self@.users.len() == self.users.len(),
                forall|k: int| 0 <= k < i ==> #[trigger] self@.users[k].email != email@,
            decreases self.users.len() - i,
        {
            if self.users[i].email == *email {
                return Some(i);
            }
            i = i + 1;
        }
        None
    }

    /// The index of the game account holding a username, if any.
    fn find_game_by_username(&self, username: &Vec<u8>) -> (r: Option<usize>)
        ensures
            match r {
                Some(j) => 0 <= j < self@.game_accounts.len() && self@.game_accounts[
                    j as int
                ].username == username@,
                None => !game_username_taken(self@, username@),
            },
    {
        let mut j: usize = 0;
        while j < self.game_accounts.len()
            invariant
                j <= self.game_accounts.len(),
                self@.game_accounts.len() == self.game_accounts.len(),
                forall|k: int| 0 <= k < j ==> #[trigger] self@.game_accounts[k].username != username@,
            decreases self.game_accounts.len() - j,
        {
            if bytes_eq(&self.game_accounts[j].username, username) {
                return Some(j);
            }
            j = j + 1;
        }
        None
    }

    /// Verifies a bearer token: its signature must check out against the
    /// service's signing key and its expiry must lie strictly after `now`.
    fn authenticate(&self, token: &String, now: u64) -> (r: Option<Claims>)
        ensures
            r matches Some(c) ==> c.exp > now && (forall|s: Seq<char>, e: u64, ro: Seq<char>|
                token@ == #[trigger] token_of(s, e, ro, self@.signing_key) ==> c.sub@ == s
                    && c.exp == e && c.role@ == ro),
            r is None ==> (forall|s: Seq<char>, e: u64, ro: Seq<char>|
                token@ == #[trigger] token_of(s, e, ro, self@.signing_key) ==> e <= now),
            (match claims_of(token@, self@.signing_key) {
                None => r is None,
                Some(cl) => if cl.1 <= now {
                    r is None
                } else {
                    r matches Some(c) && c.sub@ == cl.0 && c.exp == cl.1 && c.role@ == cl.2
                },
            }),
    {
        match decode_token(token, &self.signing_key) {
            Some(c) => if c.exp > now {
                Some(c)
            } else {
                None
            },
            None => None,
        }
    }

    /// Session introspection: resolves a bearer token to the sanitized
    /// profile of its subject.
    pub fn me(&self, token: Option<&String>, now: u64) -> (r: MeOutcome)
        ensures
            r is MissingToken <==> token is None,
            (match token {
                Some(t) => forall|s: Seq<char>, e: u64, ro: Seq<char>|
                    t@ == #[trigger] token_of(s, e, ro, self@.signing_key) ==> me_result_ok(
                        self@,
                        s,
                        e,
                        now,
                        r,
                    ),
                None => true,
            }),
            (match token {
                Some(t) => match claims_of(t@, self@.signing_key) {
                    None => r is Unauthorized,
                    Some(cl) => me_result_ok(self@, cl.0, cl.1, now, r),
                },
                None => true,
            }),
            r matches MeOutcome::Found(resp) ==> exists|i: int|
                0 <= i < self@.users.len() && sanitized(resp, #[trigger] self@.users[i], i),
    {
        let t = match token {
            Some(t) => t,
            None => {
                return MeOutcome::MissingToken;
            },
        };
        let claims = match self.authenticate(t, now) {
            Some(c) => c,
            None => {
                return MeOutcome::Unauthorized;
            },
        };
        let sub_bytes = string_bytes(&claims.sub);
        let id = match parse_u64(&sub_bytes) {
            Some(id) => id,
            None => {
                return MeOutcome::BadRequest;
            },
        };
        if id < self.users.len() as u64 {
            let resp = make_profile_response(
                &self.users[id as usize],
                id,
                &self.users[id as usize].avatar_url,
            );
            proof {
                assert(sanitized(resp, self@.users[id as int], id as int));
            }
            MeOutcome::Found(resp)
        } else {
            MeOutcome::NotFound
        }
    }

    /// Password login: looks the user up by email, verifies the password
    /// against the stored hash, and issues a 24-hour session token carrying
    /// the identity key and role.
    pub fn login(&self, req: &LoginRequest, now: u64) -> (r: LoginOutcome)
        requires
            self@.wf(),
            now + 86400 <= u64::MAX,
        ensures
            r is InvalidCredentials <==> !login_auth_ok(self@, req.email@, req.password@),
            login_auth_ok(self@, req.email@, req.password@) ==> r matches LoginOutcome::Success(_),
            r matches LoginOutcome::Success(resp) ==> exists|i: int|
                0 <= i < self@.users.len() && #[trigger] self@.users[i].email == req.email@
                    && bcrypt_matches(req.password@, self@.users[i].password_hash) && sanitized(
                    resp.user,
                    self@.users[i],
                    i,
                ) && resp.token@ == token_of(
                    dec_chars(i as nat),
                    (now + 86400) as u64,
                    role_str(self@.users[i].role),
                    self@.signing_key,
                ),
    {
        let i = match self.find_user_by_email(&req.email) {
            Some(i) => i,
            None => {
                return LoginOutcome::InvalidCredentials;
            },
        };
        if !bcrypt_verify(&req.password, &self.users[i].password_hash) {
            proof {
                if login_auth_ok(self@, req.email@, req.password@) {
                    let i2 = choose|i2: int|
                        0 <= i2 < self@.users.len() && #[trigger] self@.users[i2].email
                            == req.email@ && bcrypt_matches(
                            req.password@,
                            self@.users[i2].password_hash,
                        );
                    assert(i2 == i);
                }
            }
            return LoginOutcome::InvalidCredentials;
        }
        let role_s = role_string(self.users[i].role);
        let id_bytes = u64_to_dec(i as u64);
        proof {
            lemma_dec_bytes_digits(i as nat);
        }
        let sub = bytes_to_string(&id_bytes);
        let token = issue_token(&sub, now + 86400, &role_s, &self.signing_key);
        let user = make_profile_response(&self.users[i], i as u64, &self.users[i].avatar_url);
        LoginOutcome::Success(LoginResponse { token, user })
    }

    /// Game-client login: matches the raw credentials against the
    /// game-account store by folded username and legacy digest, and issues a
    /// 7-day token keyed on the row with the role fixed to `user`. This path
    /// never touches the credential store.
    pub fn login_game(&self, req: &LoginGameRequest, now: u64) -> (r: GameLoginOutcome)
        requires
            self@.wf(),
            now + 604800 <= u64::MAX,
        ensures
            r is InvalidCredentials <==> !game_login_ok(self@, req.username@, req.password@),
            game_login_ok(self@, req.username@, req.password@) ==> r matches
                GameLoginOutcome::Success(_),
            r matches GameLoginOutcome::Success(resp) ==> exists|j: int|
                0 <= j < self@.game_accounts.len() && #[trigger] self@.game_accounts[j].username
                    == upper_bytes(str_bytes(req.username@)) && self@.game_accounts[j].digest
                    == spec_legacy_digest(str_bytes(req.username@), str_bytes(req.password@))
                    && resp.token@ == token_of(
                    dec_chars(j as nat),
                    (now + 604800) as u64,
                    "user"@,
                    self@.signing_key,
                ) && resp.id@ == dec_chars(j as nat) && resp.is_admin == false && (is_ascii_bytes(
                    self@.game_accounts[j].username,
                ) ==> resp.name@ == ascii_chars(self@.game_accounts[j].username)),
    {
        let uname_bytes = string_bytes(&req.username);
        let folded = to_upper_bytes(&uname_bytes);
        let j = match self.find_game_by_username(&folded) {
            Some(j) => j,
            None => {
                return GameLoginOutcome::InvalidCredentials;
            },
        };
        let pw_bytes = string_bytes(&req.password);
        let digest = legacy_digest(&uname_bytes, &pw_bytes);
        if !(self.game_accounts[j].digest == digest) {
            proof {
                if game_login_ok(self@, req.username@, req.password@) {
                    let j2 = choose|j2: int|
                        0 <= j2 < self@.game_accounts.len()
                            && #[trigger] self@.game_accounts[j2].username == upper_bytes(
                            str_bytes(req.username@),
                        ) && self@.game_accounts[j2].digest == spec_legacy_digest(
                            str_bytes(req.username@),
                            str_bytes(req.password@),
                        );
                    assert(j2 == j);
                }
            }
            return GameLoginOutcome::InvalidCredentials;
        }
        let role_s = role_string(Role::User);
        let id_bytes = u64_to_dec(j as u64);
        proof {
            lemma_dec_bytes_digits(j as nat);
        }
        let sub = bytes_to_string(&id_bytes);
        let token = issue_token(&sub, now + 604800, &role_s, &self.signing_key);
        let name = bytes_to_string(&self.game_accounts[j].username);
        GameLoginOutcome::Success(GameLoginResponse { token, id: sub, name, is_admin: false })
    }

    /// Identity-provider login, after the token was validated against the
    /// provider's introspection endpoint: reuses the account holding the
    /// validated email (force-promoting the configured admin email to the
    /// administrator role on every login), or provisions a new account with a
    /// synthesized game username, a generated game password and an empty
    /// dashboard password hash; then issues a 24-hour session token. When an
    /// account was provisioned, the second component carries the welcome
    /// message with the generated game credentials, for the caller to deliver
    /// best effort.
    pub fn login_google(&mut self, info: &GoogleProfile, now: u64) -> (r: (
        LoginOutcome,
        Option<WelcomeNote>,
    ))
        requires
            old(self)@.wf(),
            now + 86400 <= u64::MAX,
        ensures
            final(self)@.wf(),
            r.0 matches LoginOutcome::Success(_),
            email_taken(old(self)@, info.email@) ==> r.1 is None && (exists|i: int|
                0 <= i < old(self)@.users.len() && #[trigger] old(self)@.users[i].email
                    == info.email@ && final(self)@ == promote_admin(old(self)@, i) && (r.0 matches
                LoginOutcome::Success(resp) ==> google_sanitized(
                    resp.user,
                    final(self)@.users[i],
                    i,
                    info@.picture,
                ) && resp.token@ == token_of(
                    dec_chars(i as nat),
                    (now + 86400) as u64,
                    role_str(final(self)@.users[i].role),
                    old(self)@.signing_key,
                ))),
            !email_taken(old(self)@, info.email@) ==> exists|suffix: Seq<u8>, pw: Seq<char>|
                suffix.len() == 4 && is_alnum_bytes(suffix) && pw.len() == 10 && is_alnum_chars(pw)
                    && #[trigger] spec_google_provision(old(self)@, info@, suffix, pw, now)
                    == final(self)@ && welcome_note_ok(
                    false,
                    r.1,
                    info.email@,
                    google_username(info.email@, suffix),
                    pw,
                ) && (r.0 matches LoginOutcome::Success(resp) ==> google_sanitized(
                    resp.user,
                    final(self)@.users[old(self)@.users.len() as int],
                    old(self)@.users.len() as int,
                    info@.picture,
                ) && resp.token@ == token_of(
                    dec_chars(old(self)@.users.len() as nat),
                    (now + 86400) as u64,
                    role_str(final(self)@.users[old(self)@.users.len() as int].role),
                    old(self)@.signing_key,
                )),
    {
        let i: usize;
        let welcome: Option<WelcomeNote>;
        match self.find_user_by_email(&info.email) {
            Some(idx) => {
                i = idx;
                welcome = None;
                if self.users[i].email == self.admin_email {
                    let u = &mut self.users[i];
                    u.role = Role::Admin;
                }
                proof {
                    assert(self@ =~= promote_admin(old(self)@, i as int));
                    lemma_promote_admin_wf(old(self)@, i as int);
                }
            },
            None => {
                let email_bytes = string_bytes(&info.email);
                let lp = email_local_part(&email_bytes);
                let base = filter_alnum(&lp);
                let suffix = random_alphanumeric(4);
                let ghost g_suffix = suffix@;
                let raw_name = concat_bytes(&base, &suffix);
                let uname = to_upper_bytes(&raw_name);
                let pw_vec = random_alphanumeric(10);
                proof {
                    lemma_alnum_bytes_chars(pw_vec@);
                    lemma_ascii_bytes_roundtrip(pw_vec@);
                }
                let password = bytes_to_string(&pw_vec);
                let ghost g_pw = password@;
                let pw_bytes = string_bytes(&password);
                let digest = legacy_digest(&raw_name, &pw_bytes);
                proof {
                    assert forall|k: int| 0 <= k < raw_name@.len() implies is_alnum_byte(
                        #[trigger] raw_name@[k],
                    ) by {
                        if k < base@.len() {
                            assert(is_alnum_byte(base@[k]));
                        } else {
                            assert(is_alnum_byte(suffix@[k - base@.len()]));
                        }
                    }
                    lemma_upper_alnum(raw_name@);
                    lemma_alnum_bytes_chars(uname@);
                }
                welcome = Some(
                    WelcomeNote {
                        email: info.email.clone(),
                        game_username: bytes_to_string(&uname),
                        password: password.clone(),
                    },
                );
                let game_id: Option<u32>;
                let taken = self.find_game_by_username(&uname).is_some();
                if !taken && self.game_accounts.len() < (u32::MAX as usize) {
                    let gid = self.game_accounts.len() as u32;
                    self.game_accounts.push(
                        GameAccount {
                            username: uname,
                            digest,
                            email: info.email.clone(),
                            expansion: 2,
                        },
                    );
                    game_id = Some(gid);
                } else {
                    game_id = None;
                }
                let nickname: String = match &info.name {
                    Some(n) => n.clone(),
                    None => {
                        proof {
                            lemma_alnum_bytes_chars(base@);
                        }
                        bytes_to_string(&base)
                    },
                };
                let first_name: String = match &info.given_name {
                    Some(g) => g.clone(),
                    None => String::from_str("User"),
                };
                let last_name: String = match &info.family_name {
                    Some(f) => f.clone(),
                    None => String::new(),
                };
                let role = if info.email == self.admin_email {
                    Role::Admin
                } else {
                    Role::User
                };
                i = self.users.len();
                self.users.push(
                    User {
                        nickname,
                        first_name,
                        last_name,
                        email: info.email.clone(),
                        password_hash: String::new(),
                        role,
                        game_id,
                        avatar_url: clone_opt_string(&info.picture),
                        created_at: now,
                    },
                );
                proof {
                    lemma_alnum_bytes_chars(g_suffix);
                    assert(self@.game_accounts =~= spec_google_provision(
                        old(self)@,
                        info@,
                        g_suffix,
                        g_pw,
                        now,
                    ).game_accounts);
                    assert(self@.users =~= spec_google_provision(
                        old(self)@,
                        info@,
                        g_suffix,
                        g_pw,
                        now,
                    ).users);
                    assert(self@ =~= spec_google_provision(old(self)@, info@, g_suffix, g_pw, now));
                    lemma_google_provision_wf(old(self)@, info@, g_suffix, g_pw, now);
                }
            },
        }
        let role_s = role_string(self.users[i].role);
        let id_bytes = u64_to_dec(i as u64);
        proof {
            lemma_dec_bytes_digits(i as nat);
        }
        let sub = bytes_to_string(&id_bytes);
        let token = issue_token(&sub, now + 86400, &role_s, &self.signing_key);
        let user = make_profile_response(&self.users[i], i as u64, &info.picture);
        (LoginOutcome::Success(LoginResponse { token, user }), welcome)
    }

    /// Profile update: requires a valid session token, rejects an email that
    /// belongs to another account, overrides exactly the supplied fields, and
    /// propagates an email change to the linked game-account row. Responds
    /// with the merged, sanitized profile.
    pub fn update_profile(
        &mut self,
        token: Option<&String>,
        upd: &ProfileUpdate,
        now: u64,
    ) -> (r: ProfileOutcome)
        requires
            old(self)@.wf(),
        ensures
            final(self)@.wf(),
            r is MissingToken <==> token is None,
            !(r matches ProfileOutcome::Updated(_)) ==> final(self)@ == old(self)@,
            (match token {
                Some(t) => forall|s: Seq<char>, e: u64, ro: Seq<char>|
                    t@ == #[trigger] token_of(s, e, ro, old(self)@.signing_key) ==> if e <= now {
                        r is Unauthorized
                    } else {
                        profile_result_ok(old(self)@, s, upd@, final(self)@, r)
                    },
                None => true,
            }),
            (match token {
                Some(t) => match claims_of(t@, old(self)@.signing_key) {
                    None => r is Unauthorized,
                    Some(cl) => if cl.1 <= now {
                        r is Unauthorized
                    } else {
                        profile_result_ok(old(self)@, cl.0, upd@, final(self)@, r)
                    },
                },
                None => true,
            }),
            r matches ProfileOutcome::Updated(resp) ==> exists|id: int|
                0 <= id < old(self)@.users.len() && #[trigger] spec_apply_update(
                    old(self)@,
                    id,
                    upd@,
                ) == final(self)@ && sanitized(resp, final(self)@.users[id], id),
    {
        let t = match token {
            Some(t) => t,
            None => {
                return ProfileOutcome::MissingToken;
            },
        };
        let claims = match self.authenticate(t, now) {
            Some(c) => c,
            None => {
                return ProfileOutcome::Unauthorized;
            },
        };
        let sub_bytes = string_bytes(&claims.sub);
        let id64 = match parse_u64(&sub_bytes) {
            Some(x) => x,
            None => {
                return ProfileOutcome::BadRequest;
            },
        };
        if id64 >= self.users.len() as u64 {
            return ProfileOutcome::NotFound;
        }
        let i = id64 as usize;
        if let Some(e) = &upd.email {
            if !(self.users[i].email == *e) {
                if self.find_user_by_email(e).is_some() {
                    return ProfileOutcome::EmailConflict;
                }
            }
        }
        let email_changed: bool = match &upd.email {
            Some(e) => !(self.users[i].email == *e),
            None => false,
        };
        {
            let u = &mut self.users[i];
            if let Some(x) = &upd.nickname {
                u.nickname = x.clone();
            }
            if let Some(x) = &upd.first_name {
                u.first_name = x.clone();
            }
            if let Some(x) = &upd.last_name {
                u.last_name = x.clone();
            }
            if let Some(x) = &upd.avatar_url {
                u.avatar_url = Some(x.clone());
            }
            if let Some(x) = &upd.email {
                u.email = x.clone();
            }
        }
        if email_changed {
            if let Some(g) = self.users[i].game_id {
                let gi = g as usize;
                if gi < self.game_accounts.len() {
                    let new_email = self.users[i].email.clone();
                    let ga = &mut self.game_accounts[gi];
                    ga.email = new_email;
                }
            }
        }
        proof {
            assert(self@.users =~= spec_apply_update(old(self)@, i as int, upd@).users);
            assert(self@.game_accounts =~= spec_apply_update(
                old(self)@,
                i as int,
                upd@,
            ).game_accounts);
            assert(self@ =~= spec_apply_update(old(self)@, i as int, upd@));
            lemma_apply_update_wf(old(self)@, i as int, upd@);
        }
        let resp = make_profile_response(&self.users[i], id64, &self.users[i].avatar_url);
        ProfileOutcome::Updated(resp)
    }

    /// Overwrites the configuration singleton. Only a token whose role is the
    /// administrator role may write; every field of the stored document is
    /// replaced unconditionally (last writer wins).
    pub fn update_server_config(
        &mut self,
        token: Option<&String>,
        cfg: &ServerConfig,
        now: u64,
    ) -> (r: ConfigOutcome)
        ensures
            old(self)@.wf() ==> final(self)@.wf(),
            r is MissingToken <==> token is None,
            !(r is Updated) ==> final(self)@ == old(self)@,
            r is Updated ==> final(self)@ == put_config(old(self)@, cfg@),
            (match token {
                Some(t) => forall|s: Seq<char>, e: u64, ro: Seq<char>|
                    t@ == #[trigger] token_of(s, e, ro, old(self)@.signing_key)
                        ==> config_result_ok(e, ro, now, r),
                None => true,
            }),
            (match token {
                Some(t) => match claims_of(t@, old(self)@.signing_key) {
                    None => r is Unauthorized,
                    Some(cl) => config_result_ok(cl.1, cl.2, now, r),
                },
                None => true,
            }),
    {
        let t = match token {
            Some(t) => t,
            None => {
                return ConfigOutcome::MissingToken;
            },
        };
        let claims = match self.authenticate(t, now) {
            Some(c) => c,
            None => {
                return ConfigOutcome::Unauthorized;
            },
        };
        let admin_name = role_string(Role::Admin);
        if claims.role == admin_name {
            self.config = Some(cfg.clone());
            proof {
                assert(self@ =~= put_config(old(self)@, cfg@));
            }
            ConfigOutcome::Updated
        } else {
            ConfigOutcome::Forbidden
        }
    }

    /// Signup: rejects a taken email, then a taken derived game username,
    /// then inserts the game-account row (best effort), hashes the password
    /// actually used, and persists the new user with role `user`. When the
    /// password was generated, the second component carries the welcome
    /// message owed to the new address, for the caller to deliver best
    /// effort.
    pub fn signup(&mut self, req: &CreateUserRequest, now: u64) -> (r: (
        SignupOutcome,
        Option<WelcomeNote>,
    ))
        requires
            old(self)@.wf(),
        ensures
            final(self)@.wf(),
            r.0 is EmailConflict <==> email_taken(old(self)@, req.email@),
            r.0 is UsernameConflict <==> (!email_taken(old(self)@, req.email@)
                && game_username_taken(old(self)@, signup_username(req@))),
            (r.0 is EmailConflict || r.0 is UsernameConflict) ==> final(self)@ == old(self)@
                && r.1 is None,
            r.0 is Created ==> exists|pw: Seq<char>, h: Seq<char>|
                password_choice_ok(req@, pw) && bcrypt_matches(pw, h) && final(self)@
                    == spec_signup_ok(old(self)@, req@, pw, h, now) && welcome_note_ok(
                    req@.password is Some,
                    r.1,
                    req.email@,
                    signup_username(req@),
                    pw,
                ),
            r.0 is Failure ==> exists|pw: Seq<char>|
                password_choice_ok(req@, pw) && final(self)@ == spec_signup_game_step(
                    old(self)@,
                    req@,
                    pw,
                ) && welcome_note_ok(
                    req@.password is Some,
                    r.1,
                    req.email@,
                    signup_username(req@),
                    pw,
                ),
    {
        if self.find_user_by_email(&req.email).is_some() {
            return (SignupOutcome::EmailConflict, None);
        }
        let nickname_bytes = string_bytes(&req.nickname);
        let game_username = to_upper_bytes(&nickname_bytes);
        if self.find_game_by_username(&game_username).is_some() {
            return (SignupOutcome::UsernameConflict, None);
        }
        let generated = req.password.is_none();
        let password: String = match &req.password {
            Some(p) => p.clone(),
            None => {
                let pw_bytes = random_alphanumeric(10);
                proof {
                    lemma_alnum_bytes_chars(pw_bytes@);
                    lemma_ascii_bytes_roundtrip(pw_bytes@);
                }
                bytes_to_string(&pw_bytes)
            },
        };
        let ghost g_pw = password@;
        proof {
            assert(password_choice_ok(req@, g_pw));
        }
        let welcome: Option<WelcomeNote> = if generated {
            Some(
                WelcomeNote {
                    email: req.email.clone(),
                    game_username: bytes_to_string(&game_username),
                    password: password.clone(),
                },
            )
        } else {
            None
        };
        proof {
            assert(welcome_note_ok(
                req@.password is Some,
                welcome,
                req.email@,
                signup_username(req@),
                g_pw,
            ));
        }
        let pw_bytes = string_bytes(&password);
        let digest = legacy_digest(&nickname_bytes, &pw_bytes);
        let ghost pre = self@;
        let game_id: Option<u32>;
        if self.game_accounts.len() < (u32::MAX as usize) {
            let gid = self.game_accounts.len() as u32;
            self.game_accounts.push(
                GameAccount {
                    username: game_username,
                    digest,
                    email: req.email.clone(),
                    expansion: 2,
                },
            );
            game_id = Some(gid);
        } else {
            game_id = None;
        }
        proof {
            assert(self@.game_accounts =~= spec_signup_game_step(pre, req@, g_pw).game_accounts);
            assert(self@ =~= spec_signup_game_step(pre, req@, g_pw));
        }
        let hash = match bcrypt_hash(&password) {
            Some(h) => h,
            None => {
                proof {
                    lemma_signup_game_step_wf(pre, req@, g_pw);
                }
                return (SignupOutcome::Failure, welcome);
            },
        };
        let ghost g_hash = hash@;
        self.users.push(
            User {
                nickname: req.nickname.clone(),
                first_name: req.first_name.clone(),
                last_name: req.last_name.clone(),
                email: req.email.clone(),
                password_hash: hash,
                role: Role::User,
                game_id,
                avatar_url: clone_opt_string(&req.avatar_url),
                created_at: now,
            },
        );
        proof {
            assert(self@.users =~= spec_signup_ok(pre, req@, g_pw, g_hash, now).users);
            assert(self@ =~= spec_signup_ok(pre, req@, g_pw, g_hash, now));
            lemma_signup_ok_wf(pre, req@, g_pw, g_hash, now);
        }
        (SignupOutcome::Created, welcome)
    }

    /// Whether a candidate game username (case-folded upper) is already taken.
    /// Read-only, no side effects.
    pub fn check_username(&self, username: &String) -> (r: bool)
        ensures
            r == game_username_taken(self@, upper_bytes(str_bytes(username@))),
    {
        let bytes = string_bytes(username);
        let folded = to_upper_bytes(&bytes);
        self.find_game_by_username(&folded).is_some()
    }

    /// The configuration singleton, or the hard-coded defaults when none is
    /// persisted.
    pub fn get_server_config(&self) -> (r: ServerConfig)
        ensures
            r@ == spec_config_or_default(self@),
    {
        match &self.config {
            Some(c) => c.clone(),
            None => default_server_config(),
        }
    }

    /// Appends one character row; stands in for the game server writing to
    /// its own store.
    pub fn add_character(&mut self, c: Character)
        ensures
            final(self)@ == (ServiceView { characters: old(self)@.characters.push(c@), ..old(self)@ }),
    {
        let ghost pre = self@;
        self.characters.push(c);
        proof {
            assert(self@.characters =~= pre.characters.push(c@));
            assert(self@ =~= (ServiceView { characters: pre.characters.push(c@), ..pre }));
        }
    }

    /// Up to ten arbitrary character rows, in store order; a connectivity
    /// diagnostic, not access-controlled.
    pub fn list_characters(&self) -> (r: Vec<Character>)
        ensures
            r@.len() == if self@.characters.len() < 10 {
                self@.characters.len() as int
            } else {
                10
            },
            forall|k: int| 0 <= k < r@.len() ==> #[trigger] r@[k]@ == self@.characters[k],
    {
        let limit: usize = if self.characters.len() < 10 {
            self.characters.len()
        } else {
            10
        };
        let mut r: Vec<Character> = Vec::new();
        let mut i: usize = 0;
        while i < limit
            invariant
                i <= limit <= self.characters.len(),
                self@.characters.len() == self.characters.len(),
                r@.len() == i,
                forall|k: int| 0 <= k < i ==> #[trigger] r@[k]@ == self@.characters[k],
            decreases limit - i,
        {
            r.push(self.characters[i].clone());
            i = i + 1;
        }
        r
    }
}

/// Builds the sanitized profile of a user record under a given identity key,
/// with the avatar taken from `avatar` (the stored one, or the identity
/// provider's picture).
fn make_profile_response(u: &User, id: u64, avatar: &Option<String>) -> (r: UserResponse)
    ensures
        profile_fields_ok(r, u@, id as int),
        opt_str_view(r.avatar_url) == opt_str_view(*avatar),
{
    let id_bytes = u64_to_dec(id);
    proof {
        lemma_dec_bytes_digits(id as nat);
    }
    let id_str = bytes_to_string(&id_bytes);
    UserResponse {
        id: id_str,
        name: u.nickname.clone(),
        nickname: u.nickname.clone(),
        email: u.email.clone(),
        first_name: Some(u.first_name.clone()),
        last_name: Some(u.last_name.clone()),
        avatar_url: clone_opt_string(avatar),
        is_admin: u.role == Role::Admin,
        game_id: u.game_id,
    }
}

/// The hard-coded default configuration document.
pub fn default_server_config() -> (r: ServerConfig)
    ensures
        r@ == spec_default_config(),
{
    ServerConfig {
        name: String::from_str("Aethelgard"),
        realm_address: String::from_str("game.aethelgard-wow.com:8085"),
        expansion: String::from_str("WotLK"),
        rate_experience: 1,
        rate_drop: 1,
        rate_gold: 1,
        rate_reputation: 1,
        motd: None,
    }
}

} // verus!
