use account_service::models::{
    Character, ConfigOutcome, CreateUserRequest, GameLoginOutcome, GameLoginResponse,
    GoogleProfile, LoginGameRequest, LoginOutcome, LoginRequest, LoginResponse, MeOutcome,
    ProfileOutcome, ProfileUpdate, ServerConfig, SignupOutcome, UserResponse,
};
use account_service::service::AccountService;

const DAY: u64 = 86400;

fn svc() -> AccountService {
    AccountService::new(b"test-signing-key".to_vec(), "root@x.com".to_string())
}

fn signup_req(nickname: &str, email: &str, password: Option<&str>) -> CreateUserRequest {
    CreateUserRequest {
        nickname: nickname.to_string(),
        first_name: "First".to_string(),
        last_name: "Last".to_string(),
        email: email.to_string(),
        password: password.map(|p| p.to_string()),
        avatar_url: None,
    }
}

fn login_ok(s: &AccountService, email: &str, password: &str, now: u64) -> LoginResponse {
    match s.login(
        &LoginRequest { email: email.to_string(), password: password.to_string() },
        now,
    ) {
        LoginOutcome::Success(r) => r,
        _ => panic!("expected a successful login"),
    }
}

fn me_ok(s: &AccountService, token: &String, now: u64) -> UserResponse {
    match s.me(Some(token), now) {
        MeOutcome::Found(r) => r,
        _ => panic!("expected the profile"),
    }
}

fn game_login_ok(s: &AccountService, username: &str, password: &str, now: u64) -> GameLoginResponse {
    match s.login_game(
        &LoginGameRequest { username: username.to_string(), password: password.to_string() },
        now,
    ) {
        GameLoginOutcome::Success(r) => r,
        _ => panic!("expected a successful game login"),
    }
}

fn google_profile(email: &str) -> GoogleProfile {
    GoogleProfile {
        email: email.to_string(),
        name: None,
        picture: None,
        given_name: None,
        family_name: None,
    }
}

fn empty_update() -> ProfileUpdate {
    ProfileUpdate { email: None, first_name: None, last_name: None, avatar_url: None, nickname: None }
}

#[test]
fn signup_fresh_creates_and_login_succeeds() {
    let mut s = svc();
    let (r, welcome) = s.signup(&signup_req("Hero", "h@x.com", Some("pass123")), 7);
    assert!(matches!(r, SignupOutcome::Created));
    assert_eq!(r.status(), 201);
    // The password was supplied, so no welcome message is owed.
    assert!(welcome.is_none());
    let resp = login_ok(&s, "h@x.com", "pass123", 10);
    assert!(!resp.token.is_empty());
    assert_eq!(resp.user.id, "0");
    assert_eq!(resp.user.email, "h@x.com");
    assert_eq!(resp.user.name, "Hero");
    assert_eq!(resp.user.nickname, "Hero");
    assert_eq!(resp.user.first_name.as_deref(), Some("First"));
    assert_eq!(resp.user.last_name.as_deref(), Some("Last"));
    assert!(!resp.user.is_admin);
    assert_eq!(resp.user.game_id, Some(0));
}

#[test]
fn signup_duplicate_email_conflicts() {
    let mut s = svc();
    assert!(matches!(
        s.signup(&signup_req("Hero", "h@x.com", Some("pass123")), 0).0,
        SignupOutcome::Created
    ));
    let second = s.signup(&signup_req("Other", "h@x.com", Some("different")), 1).0;
    assert!(matches!(second, SignupOutcome::EmailConflict));
    assert_eq!(second.status(), 409);
    let third = s.signup(&signup_req("Third", "h@x.com", None), 2).0;
    assert!(matches!(third, SignupOutcome::EmailConflict));
}

#[test]
fn signup_duplicate_game_username_conflicts() {
    let mut s = svc();
    assert!(matches!(
        s.signup(&signup_req("Hero", "h@x.com", Some("pass123")), 0).0,
        SignupOutcome::Created
    ));
    // "hero" folds to the same game username as "Hero".
    let second = s.signup(&signup_req("hero", "other@x.com", Some("pass123")), 1).0;
    assert!(matches!(second, SignupOutcome::UsernameConflict));
    assert_eq!(second.status(), 409);
}

#[test]
fn signup_generates_password_when_absent() {
    let mut s = svc();
    let (r, welcome) = s.signup(&signup_req("Gen", "gen@x.com", None), 0);
    assert!(matches!(r, SignupOutcome::Created));
    // The welcome message carries the generated game credentials.
    let note = welcome.expect("a generated password owes a welcome message");
    assert_eq!(note.email, "gen@x.com");
    assert_eq!(note.game_username, "GEN");
    assert_eq!(note.password.len(), 10);
    assert!(note.password.chars().all(|c| c.is_ascii_alphanumeric()));
    // The generated password is the account's dashboard credential.
    let resp = login_ok(&s, "gen@x.com", &note.password, 0);
    assert_eq!(resp.user.email, "gen@x.com");
    // A login with a wrong password is still rejected.
    assert!(matches!(
        s.login(
            &LoginRequest { email: "gen@x.com".to_string(), password: "guess".to_string() },
            0
        ),
        LoginOutcome::InvalidCredentials
    ));
    assert!(s.check_username(&"GEN".to_string()));
}

#[test]
fn signup_stores_avatar() {
    let mut s = svc();
    let mut req = signup_req("Ava", "ava@x.com", Some("pw"));
    req.avatar_url = Some("https://pics.example/ava.png".to_string());
    assert!(matches!(s.signup(&req, 0).0, SignupOutcome::Created));
    let resp = login_ok(&s, "ava@x.com", "pw", 0);
    assert_eq!(resp.user.avatar_url.as_deref(), Some("https://pics.example/ava.png"));
}

#[test]
fn check_username_is_case_folded() {
    let mut s = svc();
    assert!(!s.check_username(&"hero".to_string()));
    assert!(matches!(
        s.signup(&signup_req("Hero", "h@x.com", Some("pass123")), 0).0,
        SignupOutcome::Created
    ));
    assert!(s.check_username(&"hero".to_string()));
    assert!(s.check_username(&"HERO".to_string()));
    assert!(s.check_username(&"HeRo".to_string()));
    assert!(!s.check_username(&"Hera".to_string()));
}

#[test]
fn login_rejects_bad_credentials() {
    let mut s = svc();
    assert!(matches!(
        s.signup(&signup_req("Hero", "h@x.com", Some("pass123")), 0).0,
        SignupOutcome::Created
    ));
    let wrong_pw = s.login(
        &LoginRequest { email: "h@x.com".to_string(), password: "pass124".to_string() },
        0,
    );
    assert!(matches!(wrong_pw, LoginOutcome::InvalidCredentials));
    assert_eq!(wrong_pw.status(), 401);
    let unknown = s.login(
        &LoginRequest { email: "nobody@x.com".to_string(), password: "pass123".to_string() },
        0,
    );
    assert!(matches!(unknown, LoginOutcome::InvalidCredentials));
}

#[test]
fn me_round_trip() {
    let mut s = svc();
    assert!(matches!(
        s.signup(&signup_req("Hero", "h@x.com", Some("pass123")), 0).0,
        SignupOutcome::Created
    ));
    let resp = login_ok(&s, "h@x.com", "pass123", 0);
    let who = me_ok(&s, &resp.token, 100);
    assert_eq!(who.id, "0");
    assert_eq!(who.email, "h@x.com");
    assert_eq!(who.nickname, "Hero");
    assert!(!who.is_admin);
}

#[test]
fn me_rejects_missing_and_invalid_tokens() {
    let s = svc();
    let missing = s.me(None, 0);
    assert!(matches!(missing, MeOutcome::MissingToken));
    assert_eq!(missing.status(), 401);
    let garbage = "not.a.token".to_string();
    assert!(matches!(s.me(Some(&garbage), 0), MeOutcome::Unauthorized));
}

#[test]
fn token_from_another_key_is_rejected() {
    let mut a = svc();
    let mut b = AccountService::new(b"another-key".to_vec(), "root@x.com".to_string());
    assert!(matches!(
        a.signup(&signup_req("Hero", "h@x.com", Some("pass123")), 0).0,
        SignupOutcome::Created
    ));
    assert!(matches!(
        b.signup(&signup_req("Hero", "h@x.com", Some("pass123")), 0).0,
        SignupOutcome::Created
    ));
    let resp = login_ok(&a, "h@x.com", "pass123", 0);
    assert!(matches!(b.me(Some(&resp.token), 0), MeOutcome::Unauthorized));
}

#[test]
fn expired_token_is_rejected_by_every_authenticated_endpoint() {
    let mut s = svc();
    assert!(matches!(
        s.signup(&signup_req("Hero", "h@x.com", Some("pass123")), 0).0,
        SignupOutcome::Created
    ));
    // Issued at time 0, the session token expires one day later.
    let token = login_ok(&s, "h@x.com", "pass123", 0).token;
    assert!(matches!(s.me(Some(&token), DAY - 1), MeOutcome::Found(_)));
    let me_expired = s.me(Some(&token), DAY);
    assert!(matches!(me_expired, MeOutcome::Unauthorized));
    assert_eq!(me_expired.status(), 401);
    assert!(matches!(
        s.update_profile(Some(&token), &empty_update(), DAY),
        ProfileOutcome::Unauthorized
    ));
    let cfg = s.get_server_config();
    assert!(matches!(
        s.update_server_config(Some(&token), &cfg, DAY),
        ConfigOutcome::Unauthorized
    ));
}

#[test]
fn config_defaults_before_any_write() {
    let s = svc();
    let cfg = s.get_server_config();
    assert_eq!(cfg.name, "Aethelgard");
    assert_eq!(cfg.realm_address, "game.aethelgard-wow.com:8085");
    assert_eq!(cfg.expansion, "WotLK");
    assert_eq!(cfg.rate_experience, 1);
    assert_eq!(cfg.rate_drop, 1);
    assert_eq!(cfg.rate_gold, 1);
    assert_eq!(cfg.rate_reputation, 1);
    assert!(cfg.motd.is_none());
}

fn custom_config() -> ServerConfig {
    ServerConfig {
        name: "Midgard".to_string(),
        realm_address: "play.midgard.example:8085".to_string(),
        expansion: "TBC".to_string(),
        rate_experience: 3,
        rate_drop: 2,
        rate_gold: 5,
        rate_reputation: 7,
        motd: Some("welcome home".to_string()),
    }
}

#[test]
fn config_write_needs_admin_and_leaves_state_alone_otherwise() {
    let mut s = svc();
    assert!(matches!(
        s.signup(&signup_req("Hero", "h@x.com", Some("pass123")), 0).0,
        SignupOutcome::Created
    ));
    let user_token = login_ok(&s, "h@x.com", "pass123", 0).token;
    let refused = s.update_server_config(Some(&user_token), &custom_config(), 1);
    assert!(matches!(refused, ConfigOutcome::Forbidden));
    assert_eq!(refused.status(), 403);
    // The persisted configuration is unchanged: reads still serve defaults.
    assert_eq!(s.get_server_config().name, "Aethelgard");
    assert!(matches!(
        s.update_server_config(None, &custom_config(), 1),
        ConfigOutcome::MissingToken
    ));
    assert_eq!(s.get_server_config().rate_gold, 1);
}

#[test]
fn config_round_trips_after_admin_write() {
    let mut s = svc();
    // The configured admin email gets the administrator role on provider login.
    let admin = match s.login_google(&google_profile("root@x.com"), 0).0 {
        LoginOutcome::Success(r) => r,
        _ => panic!("expected a successful provider login"),
    };
    assert!(admin.user.is_admin);
    let wrote = s.update_server_config(Some(&admin.token), &custom_config(), 1);
    assert!(matches!(wrote, ConfigOutcome::Updated));
    assert_eq!(wrote.status(), 200);
    let cfg = s.get_server_config();
    assert_eq!(cfg.name, "Midgard");
    assert_eq!(cfg.realm_address, "play.midgard.example:8085");
    assert_eq!(cfg.expansion, "TBC");
    assert_eq!(cfg.rate_experience, 3);
    assert_eq!(cfg.rate_drop, 2);
    assert_eq!(cfg.rate_gold, 5);
    assert_eq!(cfg.rate_reputation, 7);
    assert_eq!(cfg.motd.as_deref(), Some("welcome home"));
}

#[test]
fn google_login_promotes_the_configured_admin() {
    let mut s = svc();
    // The admin email first signs up normally and is an ordinary user.
    assert!(matches!(
        s.signup(&signup_req("Root", "root@x.com", Some("pass123")), 0).0,
        SignupOutcome::Created
    ));
    assert!(!login_ok(&s, "root@x.com", "pass123", 0).user.is_admin);
    // A provider login force-promotes that account.
    let promoted = match s.login_google(&google_profile("root@x.com"), 0).0 {
        LoginOutcome::Success(r) => r,
        _ => panic!("expected a successful provider login"),
    };
    assert!(promoted.user.is_admin);
    assert_eq!(promoted.user.id, "0");
    // The promotion is persisted: a plain login sees it too.
    assert!(login_ok(&s, "root@x.com", "pass123", 1).user.is_admin);
}

#[test]
fn google_login_provisions_new_users() {
    let mut s = svc();
    let profile = GoogleProfile {
        email: "bobby.tables@y.com".to_string(),
        name: Some("Bobby".to_string()),
        picture: Some("https://pics.example/bobby.png".to_string()),
        given_name: Some("Bob".to_string()),
        family_name: Some("Tables".to_string()),
    };
    let (outcome, welcome) = s.login_google(&profile, 5);
    let resp = match outcome {
        LoginOutcome::Success(r) => r,
        _ => panic!("expected a successful provider login"),
    };
    assert_eq!(resp.user.id, "0");
    assert_eq!(resp.user.nickname, "Bobby");
    assert_eq!(resp.user.first_name.as_deref(), Some("Bob"));
    assert_eq!(resp.user.last_name.as_deref(), Some("Tables"));
    assert_eq!(resp.user.avatar_url.as_deref(), Some("https://pics.example/bobby.png"));
    assert!(!resp.user.is_admin);
    assert_eq!(resp.user.game_id, Some(0));
    // The welcome message carries the synthesized game credentials, and the
    // game client can log in with them right away.
    let note = welcome.expect("provisioning owes a welcome message");
    assert_eq!(note.email, "bobby.tables@y.com");
    assert!(note.game_username.starts_with("BOBBYTABLES"));
    assert_eq!(note.game_username.len(), "BOBBYTABLES".len() + 4);
    assert_eq!(note.password.len(), 10);
    let game = game_login_ok(&s, &note.game_username, &note.password, 6);
    assert_eq!(game.id, "0");
    // A second provider login reuses the account instead of provisioning.
    let again = match s.login_google(&profile, 6).0 {
        LoginOutcome::Success(r) => r,
        _ => panic!("expected a successful provider login"),
    };
    assert_eq!(again.user.id, "0");
    // The password hash is empty: no password authenticates.
    assert!(matches!(
        s.login(
            &LoginRequest { email: "bobby.tables@y.com".to_string(), password: "".to_string() },
            6
        ),
        LoginOutcome::InvalidCredentials
    ));
}

#[test]
fn game_login_matches_folded_username_and_digest() {
    let mut s = svc();
    assert!(matches!(
        s.signup(&signup_req("Hero", "h@x.com", Some("pass123")), 0).0,
        SignupOutcome::Created
    ));
    let resp = game_login_ok(&s, "hero", "pass123", 0);
    assert_eq!(resp.id, "0");
    assert_eq!(resp.name, "HERO");
    assert!(!resp.is_admin);
    assert!(!resp.token.is_empty());
    let wrong = s.login_game(
        &LoginGameRequest { username: "hero".to_string(), password: "pass124".to_string() },
        0,
    );
    assert!(matches!(wrong, GameLoginOutcome::InvalidCredentials));
    assert_eq!(wrong.status(), 401);
    assert!(matches!(
        s.login_game(
            &LoginGameRequest { username: "nobody".to_string(), password: "pass123".to_string() },
            0
        ),
        GameLoginOutcome::InvalidCredentials
    ));
}

#[test]
fn profile_update_merges_supplied_fields() {
    let mut s = svc();
    assert!(matches!(
        s.signup(&signup_req("Hero", "h@x.com", Some("pass123")), 0).0,
        SignupOutcome::Created
    ));
    let token = login_ok(&s, "h@x.com", "pass123", 0).token;
    let upd = ProfileUpdate {
        email: None,
        first_name: Some("Harald".to_string()),
        last_name: None,
        avatar_url: Some("https://pics.example/h.png".to_string()),
        nickname: Some("Herox".to_string()),
    };
    let merged = match s.update_profile(Some(&token), &upd, 1) {
        ProfileOutcome::Updated(r) => r,
        _ => panic!("expected an updated profile"),
    };
    assert_eq!(merged.first_name.as_deref(), Some("Harald"));
    assert_eq!(merged.last_name.as_deref(), Some("Last"));
    assert_eq!(merged.nickname, "Herox");
    assert_eq!(merged.email, "h@x.com");
    assert_eq!(merged.avatar_url.as_deref(), Some("https://pics.example/h.png"));
    // Persisted: introspection sees the same record.
    let who = me_ok(&s, &token, 2);
    assert_eq!(who.first_name.as_deref(), Some("Harald"));
    assert_eq!(who.nickname, "Herox");
}

#[test]
fn profile_update_email_change_and_conflict() {
    let mut s = svc();
    assert!(matches!(
        s.signup(&signup_req("Hero", "h@x.com", Some("pass123")), 0).0,
        SignupOutcome::Created
    ));
    assert!(matches!(
        s.signup(&signup_req("Rival", "r@x.com", Some("pass456")), 0).0,
        SignupOutcome::Created
    ));
    let token = login_ok(&s, "h@x.com", "pass123", 0).token;
    // Taking another account's email is a conflict and changes nothing.
    let mut upd = empty_update();
    upd.email = Some("r@x.com".to_string());
    let refused = s.update_profile(Some(&token), &upd, 1);
    assert!(matches!(refused, ProfileOutcome::EmailConflict));
    assert_eq!(refused.status(), 409);
    assert_eq!(me_ok(&s, &token, 1).email, "h@x.com");
    // A fresh email goes through, and the next login uses it.
    upd.email = Some("new@x.com".to_string());
    assert!(matches!(s.update_profile(Some(&token), &upd, 1), ProfileOutcome::Updated(_)));
    assert_eq!(me_ok(&s, &token, 1).email, "new@x.com");
    assert!(matches!(
        s.login(
            &LoginRequest { email: "h@x.com".to_string(), password: "pass123".to_string() },
            1
        ),
        LoginOutcome::InvalidCredentials
    ));
    let resp = login_ok(&s, "new@x.com", "pass123", 1);
    assert_eq!(resp.user.email, "new@x.com");
}

#[test]
fn list_characters_caps_at_ten() {
    let mut s = svc();
    assert!(s.list_characters().is_empty());
    let mut i: u8 = 0;
    while i < 12 {
        s.add_character(Character {
            name: format!("char{}", i),
            race: i,
            class: 1,
            level: 10 + i,
        });
        i += 1;
    }
    let listed = s.list_characters();
    assert_eq!(listed.len(), 10);
    assert_eq!(listed[0].name, "char0");
    assert_eq!(listed[9].name, "char9");
    assert_eq!(listed[3].race, 3);
    assert_eq!(listed[3].level, 13);
}
