use auth_core::jwt::jwt_validation;
use auth_core::models::user::{LoginUser, NewUserRequest};
use auth_core::repository::refresh_token::TokenStore;
use auth_core::repository::user::UserStore;
use auth_core::routes::login::login;
use auth_core::routes::register::register_user;
use auth_core::routes::users::authenticate;
use auth_core::util::authorization::from_request;
use auth_core::util::cookies::CookieJar;
use auth_core::util::globals::GlobalConfig;
use auth_core::util::response::{Response, TokenResponse};

fn config() -> GlobalConfig {
    GlobalConfig {
        token_expiry: 120,
        refresh_token_expiry: 3600,
        auth_secret_key: "test-auth-secret".to_string(),
        allowed_origins: Vec::new(),
    }
}

fn create_user(users: &mut UserStore, username: &str, now: i64) {
    let req = NewUserRequest {
        email: Some(format!("{}{}", username, "@gmail.com")),
        username: Some(username.to_string()),
        password: Some("Ibrahim123123".to_string()),
        password_repeat: Some("Ibrahim123123".to_string()),
    };
    assert_eq!(register_user(users, req, &config(), now).unwrap(), 201);
}

fn get_access_token(users: &UserStore, tokens: &mut TokenStore, identifier: &str, now: i64) -> String {
    let mut jar = CookieJar::new();
    let request = LoginUser {
        identifier: Some(identifier.to_string()),
        password: Some("Ibrahim123123".to_string()),
    };
    let r = login(users, tokens, request, &mut jar, &config(), now).unwrap();
    match r {
        Response::SuccessWithBody(b) => {
            let body: TokenResponse = b.json;
            body.access_token.unwrap()
        },
        Response::Success(_) => panic!("expected a body"),
    }
}

#[test]
fn authenticates_token_successfully() {
    let mut users = UserStore::new();
    let mut tokens = TokenStore::new();
    let now = 1_700_000_000;
    create_user(&mut users, "authenticate", now);
    let access_token = get_access_token(&users, &mut tokens, "authenticate", now);

    let headers = vec![format!("Bearer {}", access_token)];
    let validation = jwt_validation();
    let guard = from_request(&users, &headers, config().auth_secret_key.as_str(), &validation, now);

    let response = authenticate(guard.unwrap());
    assert_eq!(response, 200);
}

#[test]
fn does_not_authenticates_token() {
    let mut users = UserStore::new();
    let now = 1_700_000_000;
    create_user(&mut users, "fail_authenticate", now);

    let headers = vec!["invalid token".to_string()];
    let validation = jwt_validation();
    let guard = from_request(&users, &headers, config().auth_secret_key.as_str(), &validation, now);

    let (status, _) = guard.unwrap_err();
    assert_eq!(status, 401);
}

#[test]
fn system_time_does_not_authenticate_token_when_expired() {
    let mut users = UserStore::new();
    let mut tokens = TokenStore::new();
    let now = 1_700_000_000;
    create_user(&mut users, "expire_auth", now);

    // A one-second access token, checked four seconds later: past the leeway.
    let mut cfg = config();
    cfg.token_expiry = 1;
    let mut jar = CookieJar::new();
    let request = LoginUser {
        identifier: Some("expire_auth".to_string()),
        password: Some("Ibrahim123123".to_string()),
    };
    let r = login(&users, &mut tokens, request, &mut jar, &cfg, now).unwrap();
    let token = match r {
        Response::SuccessWithBody(b) => b.json.access_token.unwrap(),
        Response::Success(_) => panic!("expected a body"),
    };

    let headers = vec![format!("Bearer {}", token)];
    let validation = jwt_validation();
    let guard = from_request(
        &users,
        &headers,
        cfg.auth_secret_key.as_str(),
        &validation,
        now + 4,
    );

    let (status, _) = guard.unwrap_err();
    assert_eq!(status, 401);
}
