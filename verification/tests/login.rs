use auth_core::models::user::{LoginUser, NewUserRequest};
use auth_core::repository::refresh_token::TokenStore;
use auth_core::repository::user::UserStore;
use auth_core::routes::login::login;
use auth_core::routes::register::register_user;
use auth_core::util::cookies::CookieJar;
use auth_core::util::globals::GlobalConfig;
use auth_core::util::response::{Error, Response, TokenResponse};

fn config() -> GlobalConfig {
    GlobalConfig {
        token_expiry: 120,
        refresh_token_expiry: 3600,
        auth_secret_key: "test-auth-secret".to_string(),
        allowed_origins: Vec::new(),
    }
}

fn create_user(users: &mut UserStore, username: &str, now: i64) {
    let req = NewUserRequest {
        email: Some(format!("{}{}", username, "@gmail.com")),
        username: Some(username.to_string()),
        password: Some("Ibrahim123123".to_string()),
        password_repeat: Some("Ibrahim123123".to_string()),
    };
    assert_eq!(register_user(users, req, &config(), now).unwrap(), 201);
}

fn login_request(identifier: &str, password: &str) -> LoginUser {
    LoginUser { identifier: Some(identifier.to_string()), password: Some(password.to_string()) }
}

fn body_of(r: Result<Response<TokenResponse>, Error>) -> TokenResponse {
    match r.unwrap() {
        Response::SuccessWithBody(b) => {
            assert_eq!(b.status, 200);
            b.json
        },
        Response::Success(_) => panic!("expected a body"),
    }
}

#[test]
fn login_user_successfully_with_username() {
    let mut users = UserStore::new();
    let mut tokens = TokenStore::new();
    let mut jar = CookieJar::new();
    let now = 1_700_000_000;
    create_user(&mut users, "login", now);

    let r = login(&users, &mut tokens, login_request("login", "Ibrahim123123"), &mut jar, &config(), now);

    let body = body_of(r);
    assert!(body.access_token.is_some());
    assert!(body.expires_in.is_some());
}

#[test]
fn login_user_successfully_with_email() {
    let mut users = UserStore::new();
    let mut tokens = TokenStore::new();
    let mut jar = CookieJar::new();
    let now = 1_700_000_000;
    create_user(&mut users, "email_login", now);

    let r = login(
        &users,
        &mut tokens,
        login_request("email_login@gmail.com", "Ibrahim123123"),
        &mut jar,
        &config(),
        now,
    );

    let body = body_of(r);
    assert!(body.access_token.is_some());
    assert!(body.expires_in.is_some());
}

#[test]
fn fails_login_username_with_wrong_password() {
    let mut users = UserStore::new();
    let mut tokens = TokenStore::new();
    let mut jar = CookieJar::new();
    let now = 1_700_000_000;
    create_user(&mut users, "wrongpassword", now);

    let r = login(
        &users,
        &mut tokens,
        login_request("wrongpassword", "invalid_password"),
        &mut jar,
        &config(),
        now,
    );

    match r.unwrap_err() {
        Error::Error(s) => assert_eq!(s, 401),
        Error::ErrorWithBody(b) => assert_eq!(b.status, 401),
    }
}

#[test]
fn fails_login_email_with_wrong_password() {
    let mut users = UserStore::new();
    let mut tokens = TokenStore::new();
    let mut jar = CookieJar::new();
    let now = 1_700_000_000;
    create_user(&mut users, "wrongpasswordemail", now);

    let r = login(
        &users,
        &mut tokens,
        login_request("wrongpasswordemail", "invalid_password"),
        &mut jar,
        &config(),
        now,
    );

    match r.unwrap_err() {
        Error::Error(s) => assert_eq!(s, 401),
        Error::ErrorWithBody(b) => assert_eq!(b.status, 401),
    }
}

#[test]
fn fails_login_with_invalid_body() {
    let users = UserStore::new();
    let mut tokens = TokenStore::new();
    let mut jar = CookieJar::new();

    let r = login(
        &users,
        &mut tokens,
        LoginUser { identifier: None, password: None },
        &mut jar,
        &config(),
        1_700_000_000,
    );
    match r.unwrap_err() {
        Error::ErrorWithBody(b) => {
            assert_eq!(b.status, 422);
            assert_eq!(
                b.json.error_codes.unwrap(),
                vec!["identifier_required".to_string(), "password_required".to_string()]
            );
        },
        Error::Error(_) => panic!("expected a body"),
    }
}

#[test]
fn fails_login_of_unknown_identifier() {
    let users = UserStore::new();
    let mut tokens = TokenStore::new();
    let mut jar = CookieJar::new();

    let r = login(
        &users,
        &mut tokens,
        login_request("nobody", "Ibrahim123123"),
        &mut jar,
        &config(),
        1_700_000_000,
    );
    assert!(matches!(r.unwrap_err(), Error::Error(401)));
}
