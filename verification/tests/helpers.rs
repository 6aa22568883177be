use auth_core::jwt::{Claims, jwt_validation};
use auth_core::models::user::{NewUser, User, UserType};
use auth_core::repository::user::UserStore;
use auth_core::routes::oauth::twitch_auth;
use auth_core::routes::profile_lookup::{UserLookUpResponse, profile_lookup};
use auth_core::routes::users_util::{
    DbError, bool_as_option, get_auth_error_response, get_cookie_with_expiry_and_max_age,
    get_exp_time, get_internal_error_response, get_new_token, get_database_error_response,
};
use auth_core::util::authorization::AccessToken;
use auth_core::util::globals::{GlobalConfig, JWTConfig, TwitchConfig};
use auth_core::util::response::{Error, ErrorType, JsonResponse, Response, TokenResponse};

fn config() -> GlobalConfig {
    GlobalConfig {
        token_expiry: 120,
        refresh_token_expiry: 3600,
        auth_secret_key: "test-auth-secret".to_string(),
        allowed_origins: Vec::new(),
    }
}

fn seeded_users() -> UserStore {
    let mut store = UserStore::new();
    auth_core::repository::user::insert(
        &mut store,
        NewUser {
            email: "bob@x.com".to_string(),
            username: "bob".to_string(),
            password: "hash".to_string(),
        },
        1_700_000_000,
    )
    .unwrap();
    store
}

#[test]
fn profile_lookup_returns_subject_profile() {
    let users = seeded_users();
    let cfg = config();
    let jwt_cfg = JWTConfig { validation: jwt_validation() };
    let now = 1_700_000_000;
    let user = auth_core::repository::user::find(&users, "bob".to_string()).unwrap();
    let (_, token) = get_new_token(
        &UserType::StoredUser(&user),
        cfg.token_expiry,
        cfg.auth_secret_key.as_str(),
        now,
    );

    let resp = profile_lookup(
        &users,
        AccessToken(format!("Bearer {}", token)),
        &cfg,
        &jwt_cfg,
        now,
    )
    .unwrap();
    assert_eq!(resp.id, 1);
    assert_eq!(resp.username, "bob");
    assert_eq!(resp.email, "bob@x.com");
}

#[test]
fn profile_lookup_rejects_bad_token() {
    let users = seeded_users();
    let cfg = config();
    let jwt_cfg = JWTConfig { validation: jwt_validation() };
    let r = profile_lookup(&users, AccessToken("garbage".to_string()), &cfg, &jwt_cfg, 1_700_000_000);
    assert_eq!(r.unwrap_err(), 401);
}

#[test]
fn profile_lookup_of_vanished_subject_is_not_found() {
    let users = seeded_users();
    let cfg = config();
    let jwt_cfg = JWTConfig { validation: jwt_validation() };
    let now = 1_700_000_000;
    let ghost_user = User {
        id: 9,
        username: "ghost".to_string(),
        email: "ghost@x.com".to_string(),
        password: "hash".to_string(),
        is_deleted: false,
        created_at: now,
        updated_at: now,
    };
    let (_, token) = get_new_token(
        &UserType::StoredUser(&ghost_user),
        cfg.token_expiry,
        cfg.auth_secret_key.as_str(),
        now,
    );
    let r = profile_lookup(&users, AccessToken(format!("Bearer {}", token)), &cfg, &jwt_cfg, now);
    assert_eq!(r.unwrap_err(), 404);
}

#[test]
fn lookup_response_projects_user_fields() {
    let user = User {
        id: 5,
        username: "eve".to_string(),
        email: "eve@x.com".to_string(),
        password: "hash".to_string(),
        is_deleted: false,
        created_at: 0,
        updated_at: 0,
    };
    let resp = UserLookUpResponse::from(user);
    assert_eq!(resp.id, 5);
    assert_eq!(resp.username, "eve");
    assert_eq!(resp.email, "eve@x.com");
}

#[test]
fn exp_time_is_remaining_validity() {
    let now = 1_700_000_000;
    let claims = Claims::new("alice", 120, now);
    assert_eq!(get_exp_time(&claims, now), 120);
    assert_eq!(get_exp_time(&claims, now + 130), -10);
}

#[test]
fn refresh_cookie_carries_token_and_attributes() {
    let now = 1_700_000_000;
    let c = get_cookie_with_expiry_and_max_age(3600, "the-token".to_string(), 3600, now);
    assert_eq!(c.name, "refresh_token");
    assert_eq!(c.value, "the-token");
    assert_eq!(c.max_age, 3600);
    assert_eq!(c.expires, now + 3600);
    assert!(c.secure);
    assert!(c.http_only);
    assert!(c.same_site);
}

#[test]
fn bool_as_option_maps_failure_to_none() {
    assert_eq!(bool_as_option(true), Some(true));
    assert_eq!(bool_as_option(false), None);
}

#[test]
fn error_mapping_for_storage_failures() {
    match get_auth_error_response(DbError::Database("duplicate key".to_string())) {
        Error::ErrorWithBody(b) => {
            assert_eq!(b.status, 409);
            assert_eq!(b.json.error_codes.unwrap(), vec!["duplicate key".to_string()]);
        },
        Error::Error(_) => panic!("expected a body"),
    }
    match get_auth_error_response(DbError::Other) {
        Error::Error(s) => assert_eq!(s, 500),
        Error::ErrorWithBody(_) => panic!("expected a bare status"),
    }
    match get_internal_error_response() {
        Error::Error(s) => assert_eq!(s, 500),
        Error::ErrorWithBody(_) => panic!("expected a bare status"),
    }
    match get_database_error_response("broken constraint".to_string()) {
        Error::ErrorWithBody(b) => assert_eq!(b.status, 409),
        Error::Error(_) => panic!("expected a body"),
    }
}

#[test]
fn response_builders_carry_status_and_body() {
    let ok: Response<TokenResponse> =
        Response::success(Some(TokenResponse::success("tok".to_string(), 99)), 200);
    match ok {
        Response::SuccessWithBody(b) => {
            assert_eq!(b.status, 200);
            assert_eq!(b.json.access_token.unwrap(), "tok");
            assert_eq!(b.json.expires_in.unwrap(), 99);
        },
        Response::Success(_) => panic!("expected a body"),
    }
    let bare: Response<TokenResponse> = Response::success(None, 201);
    assert!(matches!(bare, Response::Success(201)));

    let e = Error::error(Some((vec!["code_a".to_string()], ErrorType::RequestInvalid)), 422);
    match e {
        Error::ErrorWithBody(b) => {
            assert_eq!(b.status, 422);
            assert_eq!(b.json.error_codes.unwrap(), vec!["code_a".to_string()]);
        },
        Error::Error(_) => panic!("expected a body"),
    }
    assert!(matches!(Error::error(None, 401), Error::Error(401)));
    assert!(matches!(Error::unauthorized(), Error::Error(401)));
    let j: JsonResponse<u8> = JsonResponse::new(7, 200);
    assert_eq!(j.json, 7);
    assert_eq!(j.status, 200);
}

#[test]
fn authorize_redirect_names_provider_and_client() {
    let twitch = TwitchConfig {
        twitch_client_id: "the-client-id".to_string(),
        twitch_client_secret: "the-client-secret".to_string(),
        twitch_callback_url: "https://example.test/callback".to_string(),
    };
    let url = twitch_auth(&twitch).unwrap();
    assert!(url.starts_with("https://id.twitch.tv/oauth2/authorize?response_type=code&client_id="));
    assert!(url.ends_with("&scope=openid+user%3Aread%3Aemail"));
    assert!(url.contains("the-client-id"));
    assert!(url.contains("&redirect_uri="));

    // The wrapper hands the CSRF state back; it appears verbatim in the URL.
    let (url2, state) = auth_core::oauth::twitch_authenticate(
        twitch.twitch_client_id.clone(),
        twitch.twitch_client_secret.clone(),
        twitch.twitch_callback_url.clone(),
    )
    .unwrap();
    assert!(!state.is_empty());
    assert!(url2.contains(&format!("&state={}", state)));

    let broken = TwitchConfig {
        twitch_client_id: "the-client-id".to_string(),
        twitch_client_secret: "the-client-secret".to_string(),
        twitch_callback_url: "not a url".to_string(),
    };
    assert!(twitch_auth(&broken).is_none());
}
