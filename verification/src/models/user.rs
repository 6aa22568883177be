//! The data model of the service: stored users, registration and login
//! request shapes, refresh-token records, and password hashing.
//!
//! Password hashing and verification are delegated to the `argon2` crate
//! (a memory-hard, salted, keyed hash). Each hash call draws a fresh random
//! salt; the salt and parameters are embedded in the encoded hash string, so
//! verification needs only the encoded hash, the password and the secret key.

use vstd::prelude::*;

verus! {

/// Whether `argon2::verify_encoded_ext` accepts the password and secret key
/// for the encoded hash, with empty associated data. The outcome is a
/// deterministic function of the three inputs; a malformed encoded hash is
/// treated as a mismatch.
pub uninterp spec fn argon2_verifies(
    encoded: Seq<char>,
    password: Seq<char>,
    secret: Seq<char>,
) -> bool;

/// Relies on `argon2::verify_encoded_ext`: recomputes the hash with the
/// parameters and salt embedded in the encoded string and compares in
/// constant time. An error on a malformed encoded hash is mapped to `false`.
#[verifier::external_body]
fn verify_encoded(encoded: &str, password: &str, secret: &str) -> (r: bool)
    ensures
        r == argon2_verifies(encoded@, password@, secret@),
{
    argon2::verify_encoded_ext(encoded, password.as_bytes(), secret.as_bytes(), &[]).unwrap_or(
        false,
    )
}

/// Relies on `rand::random`: a fresh 32-byte salt. Nothing is promised of its
/// value beyond its length.
#[verifier::external_body]
fn random_salt() -> (r: Vec<u8>)
    ensures
        r@.len() == 32,
{
    rand::random::<[u8; 32]>().to_vec()
}

/// Relies on `argon2::hash_encoded` with the default configuration and the
/// given secret key: the encoded result embeds the salt and parameters, and
/// verifying it with the same password and secret succeeds.
#[verifier::external_body]
fn hash_encoded_with(password: &str, salt: &[u8], secret: &str) -> (r: String)
    requires
        8 <= salt@.len() < 0x10000000,
        password@.len() < 0x10000000,
        secret@.len() < 0x10000000,
    ensures
        argon2_verifies(r@, password@, secret@),
        r@.len() > 0,
{
    let config = argon2::Config { secret: secret.as_bytes(), ..argon2::Config::default() };
    argon2::hash_encoded(password.as_bytes(), salt, &config).unwrap()
}

/// Law: a password hashed under a secret always verifies against its own
/// hash with the same password and secret, whatever salt was drawn.
pub fn hashed_password_verifies(password: &str, secret_key: &str) -> (r: bool)
    requires
        password@.len() < 0x10000000,
        secret_key@.len() < 0x10000000,
    ensures
        r,
{
    let hash = NewUser::hash_password(password, secret_key);
    verify_encoded(hash.as_str(), password, secret_key)
}

/// A stored identity record. Timestamps are Unix seconds.
#[derive(Debug)]
pub struct User {
    pub id: i32,
    pub username: String,
    pub email: String,
    pub password: String,
    pub is_deleted: bool,
    pub created_at: i64,
    pub updated_at: i64,
}

/// The mathematical value of a stored user.
pub ghost struct UserView {
    pub id: int,
    pub username: Seq<char>,
    pub email: Seq<char>,
    pub password: Seq<char>,
    pub is_deleted: bool,
    pub created_at: int,
    pub updated_at: int,
}

impl View for User {
    type V = UserView;

    open spec fn view(&self) -> UserView {
        UserView {
            id: self.id as int,
            username: self.username@,
            email: self.email@,
            password: self.password@,
            is_deleted: self.is_deleted,
            created_at: self.created_at as int,
            updated_at: self.updated_at as int,
        }
    }
}

impl Clone for User {
    fn clone(&self) -> (res: Self)
        ensures
            res@ == self@,
    {
        User {
            id: self.id,
            username: self.username.clone(),
            email: self.email.clone(),
            password: self.password.clone(),
            is_deleted: self.is_deleted,
            created_at: self.created_at,
            updated_at: self.updated_at,
        }
    }
}

impl User {
    /// Checks a plain password against this user's stored hash under the
    /// service secret. A malformed stored hash never fails the call; it
    /// merely does not match.
    pub fn verify(&self, non_hashed: &str, secret_key: &str) -> (r: bool)
        ensures
            r == argon2_verifies(self.password@, non_hashed@, secret_key@),
    {
        verify_encoded(self.password.as_str(), non_hashed, secret_key)
    }
}

/// The subject a token is minted for: a login request (identified by the
/// submitted identifier) or a stored user (identified by the username).
pub enum UserType<'a> {
    LoginUser(&'a LoginUser),
    StoredUser(&'a User),
}

/// Holds when the subject of a token can be read off the value: a login
/// request must carry an identifier.
pub open spec fn spec_subject_ok(u: UserType<'_>) -> bool {
    match u {
        UserType::LoginUser(l) => l.identifier is Some,
        UserType::StoredUser(_) => true,
    }
}

/// The subject string a token is minted for.
pub open spec fn spec_subject(u: UserType<'_>) -> Seq<char> {
    match u {
        UserType::LoginUser(l) => l.identifier.unwrap()@,
        UserType::StoredUser(s) => s.username@,
    }
}

/// Body of a registration request. Every field is optional at the transport
/// layer; validation decides which absences and shapes are rejected.
#[derive(Debug)]
pub struct NewUserRequest {
    pub email: Option<String>,
    pub username: Option<String>,
    pub password: Option<String>,
    pub password_repeat: Option<String>,
}

/// A user ready to be inserted: unique fields plus the encoded password hash.
#[derive(Debug)]
pub struct NewUser {
    pub email: String,
    pub username: String,
    pub password: String,
}

impl NewUser {
    /// Hashes a plain password with a fresh random salt under the service
    /// secret key.
    fn hash_password(password: &str, secret_key: &str) -> (r: String)
        requires
            password@.len() < 0x10000000,
            secret_key@.len() < 0x10000000,
        ensures
            argon2_verifies(r@, password@, secret_key@),
            r@.len() > 0,
    {
        let salt = random_salt();
        hash_encoded_with(password, salt.as_slice(), secret_key)
    }

    /// Turns a validated registration request into an insertable user whose
    /// stored hash verifies against the submitted password.
    pub fn from(new_user_request: NewUserRequest, secret_key: &str) -> (r: Self)
        requires
            new_user_request.email is Some,
            new_user_request.username is Some,
            new_user_request.password is Some,
            new_user_request.password.unwrap()@.len() < 0x10000000,
            secret_key@.len() < 0x10000000,
        ensures
            r.email@ == new_user_request.email.unwrap()@,
            r.username@ == new_user_request.username.unwrap()@,
            argon2_verifies(r.password@, new_user_request.password.unwrap()@, secret_key@),
    {
        let password = new_user_request.password.unwrap();
        let hashed = NewUser::hash_password(password.as_str(), secret_key);
        Self {
            username: new_user_request.username.unwrap(),
            email: new_user_request.email.unwrap(),
            password: hashed,
        }
    }
}

/// A persisted refresh-token record: one active record per session.
#[derive(Debug)]
pub struct RefreshToken {
    pub id: i32,
    pub token: String,
    pub expiry: i64,
    pub user_id: i32,
}

/// The mathematical value of a refresh-token record.
pub ghost struct RefreshTokenView {
    pub id: int,
    pub token: Seq<char>,
    pub expiry: int,
    pub user_id: int,
}

impl View for RefreshToken {
    type V = RefreshTokenView;

    open spec fn view(&self) -> RefreshTokenView {
        RefreshTokenView {
            id: self.id as int,
            token: self.token@,
            expiry: self.expiry as int,
            user_id: self.user_id as int,
        }
    }
}

impl Clone for RefreshToken {
    fn clone(&self) -> (res: Self)
        ensures
            res@ == self@,
    {
        RefreshToken {
            id: self.id,
            token: self.token.clone(),
            expiry: self.expiry,
            user_id: self.user_id,
        }
    }
}

/// A refresh-token record not yet persisted; the store assigns the id.
#[derive(Debug)]
pub struct NewRefreshToken {
    pub token: String,
    pub expiry: i64,
    pub user_id: i32,
}

/// Body of a login request. Both fields are optional at the transport layer;
/// validation rejects absences.
#[derive(Debug)]
pub struct LoginUser {
    pub identifier: Option<String>,
    pub password: Option<String>,
}

} // verus!
