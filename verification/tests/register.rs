use auth_core::models::user::NewUserRequest;
use auth_core::repository::user::UserStore;
use auth_core::routes::register::register_user;
use auth_core::util::globals::GlobalConfig;
use auth_core::util::response::Error;

fn config() -> GlobalConfig {
    GlobalConfig {
        token_expiry: 120,
        refresh_token_expiry: 3600,
        auth_secret_key: "test-auth-secret".to_string(),
        allowed_origins: Vec::new(),
    }
}

fn request(username: &str, email: &str, password: &str, password_repeat: &str) -> NewUserRequest {
    NewUserRequest {
        email: Some(email.to_string()),
        username: Some(username.to_string()),
        password: Some(password.to_string()),
        password_repeat: Some(password_repeat.to_string()),
    }
}

fn error_codes(e: &Error) -> Vec<String> {
    match e {
        Error::ErrorWithBody(j) => j.json.error_codes.clone().unwrap_or_default(),
        Error::Error(_) => Vec::new(),
    }
}

fn error_status(e: &Error) -> u16 {
    match e {
        Error::ErrorWithBody(j) => j.status,
        Error::Error(s) => *s,
    }
}

#[test]
fn creates_user_successfully() {
    let mut users = UserStore::new();
    let r = register_user(
        &mut users,
        request("ibrahim2", "ibrahim2@gmail.com", "Ibrahim123123", "Ibrahim123123"),
        &config(),
        1_700_000_000,
    );
    assert_eq!(r.unwrap(), 201);
}

#[test]
fn cannot_create_with_not_same_password() {
    let mut users = UserStore::new();
    let r = register_user(
        &mut users,
        request("ibrahim", "ibrahim@gmail.com", "Ibrahim123123", "not_same"),
        &config(),
        1_700_000_000,
    );
    let e = r.unwrap_err();
    assert_eq!(error_status(&e), 422);
    assert!(error_codes(&e).contains(&"password_not_matching".to_string()));
}

#[test]
fn cannot_create_user_with_same_username() {
    let mut users = UserStore::new();
    let now = 1_700_000_000;
    register_user(
        &mut users,
        request("foobar", "foobar@gmail.com", "Ibrahim123123", "Ibrahim123123"),
        &config(),
        now,
    )
    .unwrap();
    let r = register_user(
        &mut users,
        request("foobar", "foobar@gmail.com", "Ibrahim123123", "Ibrahim123123"),
        &config(),
        now,
    );
    let e = r.unwrap_err();
    assert_eq!(error_status(&e), 409);
    assert!(error_codes(&e).contains(&"username_exists".to_string()));
}

#[test]
fn cannot_create_user_with_same_email() {
    let mut users = UserStore::new();
    let now = 1_700_000_000;
    register_user(
        &mut users,
        request("foobar3", "foobar3@gmail.com", "Ibrahim123123", "Ibrahim123123"),
        &config(),
        now,
    )
    .unwrap();
    let r = register_user(
        &mut users,
        request("different_username", "foobar3@gmail.com", "Ibrahim123123", "Ibrahim123123"),
        &config(),
        now,
    );
    let e = r.unwrap_err();
    assert_eq!(error_status(&e), 409);
    assert!(error_codes(&e).contains(&"email_exists".to_string()));
}

#[test]
fn cannot_create_user_with_not_strong_password() {
    let mut users = UserStore::new();
    let r = register_user(
        &mut users,
        request("bazfoo", "bazfoo@gmail.com", "Ibrahim123", "Ibrahim123"),
        &config(),
        1_700_000_000,
    );
    let e = r.unwrap_err();
    assert_eq!(error_status(&e), 422);
    assert!(error_codes(&e).contains(&"password_length_invalid".to_string()));
}

#[test]
fn cannot_create_user_with_incorrect_email() {
    let mut users = UserStore::new();
    let r = register_user(
        &mut users,
        request("bazfoo", "invalid_email", "Ibrahim123123", "Ibrahim123123"),
        &config(),
        1_700_000_000,
    );
    let e = r.unwrap_err();
    assert_eq!(error_status(&e), 422);
    assert!(error_codes(&e).contains(&"email_invalid".to_string()));
}
