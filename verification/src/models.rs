//! Data model of the account service: stored records (dashboard users, game
//! accounts, characters, the server-configuration singleton), request and
//! response shapes, and the abstract views the contracts are stated over.

use vstd::prelude::*;
use vstd::string::StringExecFns;

verus! {

/// A dashboard user's role.
#[derive(Clone, Copy, PartialEq, Eq, Structural, Debug)]
pub enum Role {
    User,
    Admin,
}

/// The role name carried inside a session token.
pub open spec fn role_str(r: Role) -> Seq<char> {
    if r is Admin {
        "admin"@
    } else {
        "user"@
    }
}

pub fn role_string(r: Role) -> (s: String)
    ensures
        s@ == role_str(r),
{
    match r {
        Role::Admin => String::from_str("admin"),
        Role::User => String::from_str("user"),
    }
}

/// The view of an optional string.
pub open spec fn opt_str_view(o: Option<String>) -> Option<Seq<char>> {
    match o {
        Some(s) => Some(s@),
        None => None,
    }
}

/// One dashboard user record, owned by the credential store. The identity
/// key of a user is its position in the store.
pub struct User {
    pub nickname: String,
    pub first_name: String,
    pub last_name: String,
    pub email: String,
    pub password_hash: String,
    pub role: Role,
    pub game_id: Option<u32>,
    pub avatar_url: Option<String>,
    pub created_at: u64,
}

#[verifier::ext_equal]
pub struct UserView {
    pub nickname: Seq<char>,
    pub first_name: Seq<char>,
    pub last_name: Seq<char>,
    pub email: Seq<char>,
    pub password_hash: Seq<char>,
    pub role: Role,
    pub game_id: Option<u32>,
    pub avatar_url: Option<Seq<char>>,
    pub created_at: u64,
}

impl View for User {
    type V = UserView;

    open spec fn view(&self) -> UserView {
        UserView {
            nickname: self.nickname@,
            first_name: self.first_name@,
            last_name: self.last_name@,
            email: self.email@,
            password_hash: self.password_hash@,
            role: self.role,
            game_id: self.game_id,
            avatar_url: opt_str_view(self.avatar_url),
            created_at: self.created_at,
        }
    }
}

/// One game-account row, owned by the relational store. The row id is its
/// position in the store; usernames are kept case-normalized to upper case.
pub struct GameAccount {
    pub username: Vec<u8>,
    pub digest: String,
    pub email: String,
    pub expansion: u8,
}

#[verifier::ext_equal]
pub struct GameAccountView {
    pub username: Seq<u8>,
    pub digest: Seq<char>,
    pub email: Seq<char>,
    pub expansion: u8,
}

impl View for GameAccount {
    type V = GameAccountView;

    open spec fn view(&self) -> GameAccountView {
        GameAccountView {
            username: self.username@,
            digest: self.digest@,
            email: self.email@,
            expansion: self.expansion,
        }
    }
}

/// One character row from the relational store (read-only in this scope).
pub struct Character {
    pub name: String,
    pub race: u8,
    pub class: u8,
    pub level: u8,
}

#[verifier::ext_equal]
pub struct CharacterView {
    pub name: Seq<char>,
    pub race: u8,
    pub class: u8,
    pub level: u8,
}

impl View for Character {
    type V = CharacterView;

    open spec fn view(&self) -> CharacterView {
        CharacterView { name: self.name@, race: self.race, class: self.class, level: self.level }
    }
}

impl Clone for Character {
    fn clone(&self) -> (r: Self)
        ensures
            r@ == self@,
    {
        Character {
            name: self.name.clone(),
            race: self.race,
            class: self.class,
            level: self.level,
        }
    }
}

/// The server-configuration singleton: name, realm address, expansion label,
/// four numeric rate multipliers, optional message of the day.
pub struct ServerConfig {
    pub name: String,
    pub realm_address: String,
    pub expansion: String,
    pub rate_experience: u32,
    pub rate_drop: u32,
    pub rate_gold: u32,
    pub rate_reputation: u32,
    pub motd: Option<String>,
}

#[verifier::ext_equal]
pub struct ServerConfigView {
    pub name: Seq<char>,
    pub realm_address: Seq<char>,
    pub expansion: Seq<char>,
    pub rate_experience: u32,
    pub rate_drop: u32,
    pub rate_gold: u32,
    pub rate_reputation: u32,
    pub motd: Option<Seq<char>>,
}

impl View for ServerConfig {
    type V = ServerConfigView;

    open spec fn view(&self) -> ServerConfigView {
        ServerConfigView {
            name: self.name@,
            realm_address: self.realm_address@,
            expansion: self.expansion@,
            rate_experience: self.rate_experience,
            rate_drop: self.rate_drop,
            rate_gold: self.rate_gold,
            rate_reputation: self.rate_reputation,
            motd: opt_str_view(self.motd),
        }
    }
}

pub(crate) fn clone_opt_string(o: &Option<String>) -> (r: Option<String>)
    ensures
        opt_str_view(r) == opt_str_view(*o),
{
    match o {
        Some(s) => Some(s.clone()),
        None => None,
    }
}

impl Clone for ServerConfig {
    fn clone(&self) -> (r: Self)
        ensures
            r@ == self@,
    {
        ServerConfig {
            name: self.name.clone(),
            realm_address: self.realm_address.clone(),
            expansion: self.expansion.clone(),
            rate_experience: self.rate_experience,
            rate_drop: self.rate_drop,
            rate_gold: self.rate_gold,
            rate_reputation: self.rate_reputation,
            motd: clone_opt_string(&self.motd),
        }
    }
}

/// Signup input: profile fields, an optional password (one is generated when
/// absent) and an optional avatar URL.
pub struct CreateUserRequest {
    pub nickname: String,
    pub first_name: String,
    pub last_name: String,
    pub email: String,
    pub password: Option<String>,
    pub avatar_url: Option<String>,
}

#[verifier::ext_equal]
pub struct CreateUserRequestView {
    pub nickname: Seq<char>,
    pub first_name: Seq<char>,
    pub last_name: Seq<char>,
    pub email: Seq<char>,
    pub password: Option<Seq<char>>,
    pub avatar_url: Option<Seq<char>>,
}

impl View for CreateUserRequest {
    type V = CreateUserRequestView;

    open spec fn view(&self) -> CreateUserRequestView {
        CreateUserRequestView {
            nickname: self.nickname@,
            first_name: self.first_name@,
            last_name: self.last_name@,
            email: self.email@,
            password: opt_str_view(self.password),
            avatar_url: opt_str_view(self.avatar_url),
        }
    }
}

/// Password-login input.
pub struct LoginRequest {
    pub email: String,
    pub password: String,
}

/// Game-client login input: raw username and password exactly as the game
/// client would send them.
pub struct LoginGameRequest {
    pub username: String,
    pub password: String,
}

/// OAuth-assisted login input: the external identity token, validated against
/// the identity provider's introspection endpoint outside this library.
pub struct GoogleLoginRequest {
    pub token: String,
}

/// The fields extracted from a validated identity-provider response.
pub struct GoogleProfile {
    pub email: String,
    pub name: Option<String>,
    pub picture: Option<String>,
    pub given_name: Option<String>,
    pub family_name: Option<String>,
}

#[verifier::ext_equal]
pub struct GoogleProfileView {
    pub email: Seq<char>,
    pub name: Option<Seq<char>>,
    pub picture: Option<Seq<char>>,
    pub given_name: Option<Seq<char>>,
    pub family_name: Option<Seq<char>>,
}

impl View for GoogleProfile {
    type V = GoogleProfileView;

    open spec fn view(&self) -> GoogleProfileView {
        GoogleProfileView {
            email: self.email@,
            name: opt_str_view(self.name),
            picture: opt_str_view(self.picture),
            given_name: opt_str_view(self.given_name),
            family_name: opt_str_view(self.family_name),
        }
    }
}

/// Profile-update input: any subset of the mutable profile fields.
pub struct ProfileUpdate {
    pub email: Option<String>,
    pub first_name: Option<String>,
    pub last_name: Option<String>,
    pub avatar_url: Option<String>,
    pub nickname: Option<String>,
}

#[verifier::ext_equal]
pub struct ProfileUpdateView {
    pub email: Option<Seq<char>>,
    pub first_name: Option<Seq<char>>,
    pub last_name: Option<Seq<char>>,
    pub avatar_url: Option<Seq<char>>,
    pub nickname: Option<Seq<char>>,
}

impl View for ProfileUpdate {
    type V = ProfileUpdateView;

    open spec fn view(&self) -> ProfileUpdateView {
        ProfileUpdateView {
            email: opt_str_view(self.email),
            first_name: opt_str_view(self.first_name),
            last_name: opt_str_view(self.last_name),
            avatar_url: opt_str_view(self.avatar_url),
            nickname: opt_str_view(self.nickname),
        }
    }
}

/// A sanitized profile view: everything a caller may see of a user record,
/// never the password hash.
pub struct UserResponse {
    pub id: String,
    pub name: String,
    pub nickname: String,
    pub email: String,
    pub first_name: Option<String>,
    pub last_name: Option<String>,
    pub avatar_url: Option<String>,
    pub is_admin: bool,
    pub game_id: Option<u32>,
}

/// A successful dashboard login: the session token and the sanitized profile.
pub struct LoginResponse {
    pub token: String,
    pub user: UserResponse,
}

/// A successful game-client login: the session token and the minimal
/// game-account identity.
pub struct GameLoginResponse {
    pub token: String,
    pub id: String,
    pub name: String,
    pub is_admin: bool,
}

/// The outcome of a signup attempt.
pub enum SignupOutcome {
    /// The account was created.
    Created,
    /// The email already belongs to a user.
    EmailConflict,
    /// The derived game username already belongs to a game account.
    UsernameConflict,
    /// A dependency failed after the conflict checks (password hashing).
    Failure,
}

impl SignupOutcome {
    /// The HTTP status this outcome maps to.
    pub open spec fn spec_status(self) -> u16 {
        match self {
            SignupOutcome::Created => 201,
            SignupOutcome::EmailConflict => 409,
            SignupOutcome::UsernameConflict => 409,
            SignupOutcome::Failure => 500,
        }
    }

    pub fn status(&self) -> (r: u16)
        ensures
            r == self.spec_status(),
    {
        match self {
            SignupOutcome::Created => 201,
            SignupOutcome::EmailConflict => 409,
            SignupOutcome::UsernameConflict => 409,
            SignupOutcome::Failure => 500,
        }
    }
}

/// The outcome of a dashboard login (by password or by the identity
/// provider).
pub enum LoginOutcome {
    /// Authenticated: the session token and the sanitized profile.
    Success(LoginResponse),
    /// Unknown email, or the password does not verify.
    InvalidCredentials,
}

impl LoginOutcome {
    pub open spec fn spec_status(self) -> u16 {
        match self {
            LoginOutcome::Success(_) => 200,
            LoginOutcome::InvalidCredentials => 401,
        }
    }

    pub fn status(&self) -> (r: u16)
        ensures
            r == self.spec_status(),
    {
        match self {
            LoginOutcome::Success(_) => 200,
            LoginOutcome::InvalidCredentials => 401,
        }
    }
}

/// The account-welcome message owed after a signup that generated the
/// password: the address to notify and the generated game credentials in
/// plaintext. Delivery is best effort and outside this library; losing the
/// message never fails the request that produced it.
pub struct WelcomeNote {
    pub email: String,
    pub game_username: String,
    pub password: String,
}

/// The outcome of session introspection.
pub enum MeOutcome {
    /// The sanitized profile of the token's subject.
    Found(UserResponse),
    /// No bearer token was presented.
    MissingToken,
    /// The token failed signature or expiry verification.
    Unauthorized,
    /// The token's subject is not a well-formed identity key.
    BadRequest,
    /// The referenced account no longer exists.
    NotFound,
}

impl MeOutcome {
    pub open spec fn spec_status(self) -> u16 {
        match self {
            MeOutcome::Found(_) => 200,
            MeOutcome::MissingToken => 401,
            MeOutcome::Unauthorized => 401,
            MeOutcome::BadRequest => 400,
            MeOutcome::NotFound => 404,
        }
    }

    pub fn status(&self) -> (r: u16)
        ensures
            r == self.spec_status(),
    {
        match self {
            MeOutcome::Found(_) => 200,
            MeOutcome::MissingToken => 401,
            MeOutcome::Unauthorized => 401,
            MeOutcome::BadRequest => 400,
            MeOutcome::NotFound => 404,
        }
    }
}

/// The outcome of a profile update.
pub enum ProfileOutcome {
    /// The merged, sanitized profile after the update.
    Updated(UserResponse),
    /// No bearer token was presented.
    MissingToken,
    /// The token failed signature or expiry verification.
    Unauthorized,
    /// The token's subject is not a well-formed identity key.
    BadRequest,
    /// The referenced account no longer exists.
    NotFound,
    /// The new email already belongs to another account.
    EmailConflict,
}

impl ProfileOutcome {
    pub open spec fn spec_status(self) -> u16 {
        match self {
            ProfileOutcome::Updated(_) => 200,
            ProfileOutcome::MissingToken => 401,
            ProfileOutcome::Unauthorized => 401,
            ProfileOutcome::BadRequest => 400,
            ProfileOutcome::NotFound => 404,
            ProfileOutcome::EmailConflict => 409,
        }
    }

    pub fn status(&self) -> (r: u16)
        ensures
            r == self.spec_status(),
    {
        match self {
            ProfileOutcome::Updated(_) => 200,
            ProfileOutcome::MissingToken => 401,
            ProfileOutcome::Unauthorized => 401,
            ProfileOutcome::BadRequest => 400,
            ProfileOutcome::NotFound => 404,
            ProfileOutcome::EmailConflict => 409,
        }
    }
}

/// The outcome of a configuration write.
pub enum ConfigOutcome {
    /// The singleton now holds exactly the written document.
    Updated,
    /// No bearer token was presented.
    MissingToken,
    /// The token failed signature or expiry verification.
    Unauthorized,
    /// The token's role is not the administrator role.
    Forbidden,
}

impl ConfigOutcome {
    pub open spec fn spec_status(self) -> u16 {
        match self {
            ConfigOutcome::Updated => 200,
            ConfigOutcome::MissingToken => 401,
            ConfigOutcome::Unauthorized => 401,
            ConfigOutcome::Forbidden => 403,
        }
    }

    pub fn status(&self) -> (r: u16)
        ensures
            r == self.spec_status(),
    {
        match self {
            ConfigOutcome::Updated => 200,
            ConfigOutcome::MissingToken => 401,
            ConfigOutcome::Unauthorized => 401,
            ConfigOutcome::Forbidden => 403,
        }
    }
}

/// The outcome of a game-client login.
pub enum GameLoginOutcome {
    /// Matched: the 7-day session token and the game-account identity.
    Success(GameLoginResponse),
    /// No game account matches the username and credential digest.
    InvalidCredentials,
}

impl GameLoginOutcome {
    pub open spec fn spec_status(self) -> u16 {
        match self {
            GameLoginOutcome::Success(_) => 200,
            GameLoginOutcome::InvalidCredentials => 401,
        }
    }

    pub fn status(&self) -> (r: u16)
        ensures
            r == self.spec_status(),
    {
        match self {
            GameLoginOutcome::Success(_) => 200,
            GameLoginOutcome::InvalidCredentials => 401,
        }
    }
}

} // verus!
