use auth_core::jwt::jwt_validation;
use auth_core::models::user::{LoginUser, NewUserRequest};
use auth_core::repository::refresh_token::TokenStore;
use auth_core::repository::user::UserStore;
use auth_core::routes::login::login;
use auth_core::routes::refresh_token::refresh_token;
use auth_core::routes::register::register_user;
use auth_core::routes::users::authenticate;
use auth_core::util::authorization::from_request;
use auth_core::util::cookies::CookieJar;
use auth_core::util::globals::{GlobalConfig, JWTConfig};
use auth_core::util::response::{Error, Response};

fn config() -> GlobalConfig {
    GlobalConfig {
        token_expiry: 120,
        refresh_token_expiry: 3600,
        auth_secret_key: "test-auth-secret".to_string(),
        allowed_origins: Vec::new(),
    }
}

#[test]
fn register_login_authenticate_scenario() {
    let mut users = UserStore::new();
    let mut tokens = TokenStore::new();
    let mut jar = CookieJar::new();
    let cfg = config();
    let now = 1_700_000_000;

    // Register bob.
    let req = NewUserRequest {
        email: Some("bob@x.com".to_string()),
        username: Some("bob".to_string()),
        password: Some("LongPass1234".to_string()),
        password_repeat: Some("LongPass1234".to_string()),
    };
    assert_eq!(register_user(&mut users, req, &cfg, now).unwrap(), 201);

    // Log bob in.
    let login_req = LoginUser {
        identifier: Some("bob".to_string()),
        password: Some("LongPass1234".to_string()),
    };
    let r = login(&users, &mut tokens, login_req, &mut jar, &cfg, now).unwrap();
    let access_token = match r {
        Response::SuccessWithBody(b) => {
            assert_eq!(b.status, 200);
            b.json.access_token.unwrap()
        },
        Response::Success(_) => panic!("expected a body"),
    };
    assert!(!access_token.is_empty());

    // The issued token authenticates.
    let headers = vec![format!("Bearer {}", access_token)];
    let guard = from_request(&users, &headers, cfg.auth_secret_key.as_str(), &jwt_validation(), now);
    assert_eq!(authenticate(guard.unwrap()), 200);

    // A garbage token does not.
    let headers = vec!["garbage".to_string()];
    let guard = from_request(&users, &headers, cfg.auth_secret_key.as_str(), &jwt_validation(), now);
    let (status, _) = guard.unwrap_err();
    assert_eq!(status, 401);
}

#[test]
fn refresh_token_is_single_use() {
    let mut users = UserStore::new();
    let mut tokens = TokenStore::new();
    let mut jar = CookieJar::new();
    let cfg = config();
    let jwt_cfg = JWTConfig { validation: jwt_validation() };
    let now = 1_700_000_000;

    let req = NewUserRequest {
        email: Some("carol@x.com".to_string()),
        username: Some("carol".to_string()),
        password: Some("LongPass1234".to_string()),
        password_repeat: Some("LongPass1234".to_string()),
    };
    assert_eq!(register_user(&mut users, req, &cfg, now).unwrap(), 201);

    let login_req = LoginUser {
        identifier: Some("carol".to_string()),
        password: Some("LongPass1234".to_string()),
    };
    let r = login(&users, &mut tokens, login_req, &mut jar, &cfg, now).unwrap();
    let access_token = match r {
        Response::SuccessWithBody(b) => b.json.access_token.unwrap(),
        Response::Success(_) => panic!("expected a body"),
    };

    // Keep the refresh cookie the login set: the "old" cookie value.
    let first_cookie_jar = CookieJar { cookies: jar.cookies.clone() };

    let make_guard = |users: &UserStore, at: i64| {
        let headers = vec![format!("Bearer {}", access_token)];
        from_request(users, &headers, cfg.auth_secret_key.as_str(), &jwt_validation(), at).unwrap()
    };

    // First refresh, one second later: succeeds.
    let g = make_guard(&users, now + 1);
    let first = refresh_token(&users, &mut tokens, &mut jar, g, &cfg, &jwt_cfg, now + 1);
    assert!(first.is_ok());

    // Second refresh with the same cookie value: the record was consumed.
    let mut replayed_jar = CookieJar { cookies: first_cookie_jar.cookies.clone() };
    let g = make_guard(&users, now + 2);
    let second = refresh_token(&users, &mut tokens, &mut replayed_jar, g, &cfg, &jwt_cfg, now + 2);
    match second.unwrap_err() {
        Error::Error(s) => assert_eq!(s, 401),
        Error::ErrorWithBody(b) => assert_eq!(b.status, 401),
    }
}
