use auth_core::models::user::{NewRefreshToken, NewUser, User};
use auth_core::repository::refresh_token::{TokenStore, delete, find_by_token, insert};
use auth_core::repository::user::{
    UserStore, find, get_by_email, get_by_username, is_duplicate_user_or_email,
};
use auth_core::util::response::Error;

fn record(token: &str, user_id: i32) -> NewRefreshToken {
    NewRefreshToken { token: token.to_string(), expiry: 1_700_003_600, user_id }
}

fn seeded_users() -> UserStore {
    let mut store = UserStore::new();
    let r = auth_core::repository::user::insert(
        &mut store,
        NewUser {
            email: "bob@x.com".to_string(),
            username: "bob".to_string(),
            password: "hash".to_string(),
        },
        1_700_000_000,
    );
    assert!(r.is_ok());
    store
}

#[test]
fn token_is_single_use_at_store_level() {
    let mut store = TokenStore::new();
    insert(&mut store, record("token-a", 1)).unwrap();

    let found = find_by_token(&store, "token-a".to_string()).unwrap();
    assert_eq!(found.user_id, 1);
    assert_eq!(delete(&mut store, found.id).unwrap(), 1);

    // Consumed: the same token cannot be found a second time.
    match find_by_token(&store, "token-a".to_string()) {
        Err(Error::Error(s)) => assert_eq!(s, 401),
        _ => panic!("the consumed token must not be found"),
    }
}

#[test]
fn inserting_same_token_replaces_old_record() {
    let mut store = TokenStore::new();
    insert(&mut store, record("token-a", 1)).unwrap();
    insert(&mut store, record("token-a", 2)).unwrap();

    assert_eq!(store.records.len(), 1);
    let found = find_by_token(&store, "token-a".to_string()).unwrap();
    assert_eq!(found.user_id, 2);
}

#[test]
fn delete_of_absent_id_removes_nothing() {
    let mut store = TokenStore::new();
    insert(&mut store, record("token-a", 1)).unwrap();
    assert_eq!(delete(&mut store, 999).unwrap(), 0);
    assert_eq!(store.records.len(), 1);
}

#[test]
fn user_lookup_by_username_and_email() {
    let store = seeded_users();
    assert_eq!(get_by_username("bob", &store), Some(1));
    assert_eq!(get_by_username("alice", &store), None);
    assert_eq!(get_by_email("bob@x.com", &store), Some(1));
    assert_eq!(get_by_email("alice@x.com", &store), None);

    assert_eq!(find(&store, "bob".to_string()).unwrap().id, 1);
    assert_eq!(find(&store, "bob@x.com".to_string()).unwrap().id, 1);
    assert_eq!(find(&store, "nobody".to_string()).unwrap_err(), 404);
}

#[test]
fn duplicate_check_reports_each_taken_field() {
    let store = seeded_users();
    let req = auth_core::models::user::NewUserRequest {
        email: Some("bob@x.com".to_string()),
        username: Some("bob".to_string()),
        password: Some("LongPass1234".to_string()),
        password_repeat: Some("LongPass1234".to_string()),
    };
    match is_duplicate_user_or_email(&store, req) {
        Err(Error::ErrorWithBody(b)) => {
            assert_eq!(b.status, 409);
            assert_eq!(
                b.json.error_codes.unwrap(),
                vec!["username_exists".to_string(), "email_exists".to_string()]
            );
        },
        _ => panic!("both fields are taken"),
    }
}

#[test]
fn update_replaces_fields_and_keeps_id() {
    let mut store = seeded_users();
    let updated = User {
        id: 77,
        username: "robert".to_string(),
        email: "robert@x.com".to_string(),
        password: "hash2".to_string(),
        is_deleted: false,
        created_at: 1,
        updated_at: 2,
    };
    let u = auth_core::repository::user::update(&mut store, 1, updated).unwrap();
    assert_eq!(u.id, 1);
    assert_eq!(u.username, "robert");
    assert_eq!(find(&store, "robert".to_string()).unwrap().email, "robert@x.com");
}

#[test]
fn update_of_absent_id_is_not_found() {
    let mut store = seeded_users();
    let ghosted = find(&store, "bob".to_string()).unwrap();
    assert_eq!(auth_core::repository::user::update(&mut store, 42, ghosted).unwrap_err(), 404);
}

#[test]
fn soft_delete_marks_user_deleted() {
    let mut store = seeded_users();
    let user = find(&store, "bob".to_string()).unwrap();
    let deleted = auth_core::repository::user::delete(&mut store, 1, user).unwrap();
    assert!(deleted.is_deleted);
    assert!(find(&store, "bob".to_string()).unwrap().is_deleted);
}
