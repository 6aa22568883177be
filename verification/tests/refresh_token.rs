use auth_core::jwt::jwt_validation;
use auth_core::models::user::{LoginUser, NewUserRequest};
use auth_core::repository::refresh_token::TokenStore;
use auth_core::repository::user::UserStore;
use auth_core::routes::login::login;
use auth_core::routes::refresh_token::refresh_token;
use auth_core::routes::register::register_user;
use auth_core::routes::users::authenticate;
use auth_core::util::authorization::from_request;
use auth_core::util::cookies::CookieJar;
use auth_core::util::globals::{GlobalConfig, JWTConfig};
use auth_core::util::response::{Error, Response, TokenResponse};

fn config() -> GlobalConfig {
    GlobalConfig {
        token_expiry: 120,
        refresh_token_expiry: 3600,
        auth_secret_key: "test-auth-secret".to_string(),
        allowed_origins: Vec::new(),
    }
}

fn create_user(users: &mut UserStore, username: &str, now: i64) {
    let req = NewUserRequest {
        email: Some(format!("{}{}", username, "@gmail.com")),
        username: Some(username.to_string()),
        password: Some("Ibrahim123123".to_string()),
        password_repeat: Some("Ibrahim123123".to_string()),
    };
    assert_eq!(register_user(users, req, &config(), now).unwrap(), 201);
}

fn do_login(
    users: &UserStore,
    tokens: &mut TokenStore,
    jar: &mut CookieJar,
    identifier: &str,
    cfg: &GlobalConfig,
    now: i64,
) -> String {
    let request = LoginUser {
        identifier: Some(identifier.to_string()),
        password: Some("Ibrahim123123".to_string()),
    };
    let r = login(users, tokens, request, jar, cfg, now).unwrap();
    match r {
        Response::SuccessWithBody(b) => b.json.access_token.unwrap(),
        Response::Success(_) => panic!("expected a body"),
    }
}

fn guard(users: &UserStore, access_token: &str, cfg: &GlobalConfig, now: i64) -> auth_core::util::authorization::AccessToken {
    let headers = vec![format!("Bearer {}", access_token)];
    from_request(users, &headers, cfg.auth_secret_key.as_str(), &jwt_validation(), now).unwrap()
}

fn status_of(e: &Error) -> u16 {
    match e {
        Error::Error(s) => *s,
        Error::ErrorWithBody(b) => b.status,
    }
}

#[test]
fn refreshes_token_generates_correct_token_successfully() {
    let mut users = UserStore::new();
    let mut tokens = TokenStore::new();
    let mut jar = CookieJar::new();
    let cfg = config();
    let jwt_cfg = JWTConfig { validation: jwt_validation() };
    let now = 1_700_000_000;
    create_user(&mut users, "refrestokenuser", now);
    let access_token = do_login(&users, &mut tokens, &mut jar, "refrestokenuser", &cfg, now);

    let access = guard(&users, &access_token, &cfg, now + 1);
    let r = refresh_token(&users, &mut tokens, &mut jar, access, &cfg, &jwt_cfg, now + 1);

    let new_access_token = match r.unwrap() {
        Response::SuccessWithBody(b) => {
            assert_eq!(b.status, 200);
            let body: TokenResponse = b.json;
            body.access_token.unwrap()
        },
        Response::Success(_) => panic!("expected a body"),
    };

    let authenticated = authenticate(guard(&users, &new_access_token, &cfg, now + 2));
    assert_eq!(authenticated, 200);
}

#[test]
fn does_not_refreshes_token_with_invalid_token() {
    let mut users = UserStore::new();
    let mut tokens = TokenStore::new();
    let mut jar = CookieJar::new();
    let cfg = config();
    let now = 1_700_000_000;
    create_user(&mut users, "refresh_token_incorrect_token", now);
    do_login(&users, &mut tokens, &mut jar, "refresh_token_incorrect_token", &cfg, now);

    // The guard rejects the malformed bearer header before the rotation runs.
    let headers = vec!["incorrect token".to_string()];
    let g = from_request(&users, &headers, cfg.auth_secret_key.as_str(), &jwt_validation(), now);
    let (status, _) = g.unwrap_err();
    assert_eq!(status, 401);
}

#[test]
fn system_time_does_not_refresh_token_with_expired_token() {
    let mut users = UserStore::new();
    let mut tokens = TokenStore::new();
    let mut jar = CookieJar::new();
    // A one-second refresh token, used ten seconds later: past the leeway.
    let mut cfg = config();
    cfg.refresh_token_expiry = 1;
    let jwt_cfg = JWTConfig { validation: jwt_validation() };
    let now = 1_700_000_000;
    create_user(&mut users, "refresh_token_expired", now);
    let access_token = do_login(&users, &mut tokens, &mut jar, "refresh_token_expired", &cfg, now);

    let access = guard(&users, &access_token, &cfg, now + 10);
    let r = refresh_token(&users, &mut tokens, &mut jar, access, &cfg, &jwt_cfg, now + 10);

    assert_eq!(status_of(&r.unwrap_err()), 401);
    // Fail-closed: the consumed record is gone, so a second attempt fails
    // before the claims are even checked.
    assert_eq!(tokens.records.len(), 0);
}

#[test]
fn refresh_without_cookie_is_unauthorized() {
    let mut users = UserStore::new();
    let mut tokens = TokenStore::new();
    let cfg = config();
    let jwt_cfg = JWTConfig { validation: jwt_validation() };
    let now = 1_700_000_000;
    create_user(&mut users, "no_cookie_user", now);
    let mut login_jar = CookieJar::new();
    let access_token = do_login(&users, &mut tokens, &mut login_jar, "no_cookie_user", &cfg, now);

    // A fresh request without the refresh cookie.
    let mut empty_jar = CookieJar::new();
    let access = guard(&users, &access_token, &cfg, now);
    let r = refresh_token(&users, &mut tokens, &mut empty_jar, access, &cfg, &jwt_cfg, now);
    assert_eq!(status_of(&r.unwrap_err()), 401);
    // Nothing was consumed.
    assert_eq!(tokens.records.len(), 1);
}
