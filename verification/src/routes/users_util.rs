//! Session-manager helpers: minting tokens, building the refresh cookie,
//! validating bearer tokens, and rotating the stored refresh record.

use crate::jwt::{
    Claims, JwtError, Validation, claims_of, claims_view, decode_token, encode_token, spec_claims_pass,
    spec_decodes, spec_issuer, spec_token, token_of,
};
use crate::models::user::{NewRefreshToken, RefreshTokenView, User, UserType, argon2_verifies, spec_subject, spec_subject_ok};
use crate::repository::refresh_token::TokenStore;
use crate::repository::user::{UserStore, spec_find_user};
use crate::util::cookies::{Cookie, CookieJar, CookieView};
use crate::util::globals::{cookie_refresh_token_name, spec_cookie_refresh_token_name};
use crate::util::response::{
    Error, ErrorResponse, ErrorType, STATUS_CONFLICT, STATUS_INTERNAL_SERVER_ERROR,
    STATUS_UNAUTHORIZED, is_coded_error, is_plain_error,
};
use vstd::prelude::*;

verus! {

/// Mints the claims and signed token for a subject: a login identifier or a
/// stored user's username.
pub fn get_new_token(user_type: &UserType<'_>, duration: i64, secret_key: &str, now: i64) -> (r: (
    Claims,
    String,
))
    requires
        spec_subject_ok(*user_type),
        i64::MIN <= now + duration <= i64::MAX,
        now + 2 <= i64::MAX,
    ensures
        r.0.sub@ == spec_subject(*user_type),
        r.0.iss@ == spec_issuer(),
        r.0.exp == now + duration,
        r.0.iat == now,
        r.0.nbf == now + 2,
        r.1@ == spec_token(r.0, secret_key@),
        claims_of(r.1@, secret_key@) == Some(claims_view(r.0)),
        r.1@.len() > 0,
{
    let claims = match user_type {
        UserType::LoginUser(u) => Claims::new(u.identifier.as_ref().unwrap().as_str(), duration, now),
        UserType::StoredUser(u) => Claims::new(u.username.as_str(), duration, now),
    };
    let new_token = encode_token(&claims, secret_key);
    (claims, new_token)
}

/// The number of seconds the claims remain valid at time `now`; negative when
/// they have already expired.
pub fn get_exp_time(claims: &Claims, now: i64) -> (r: i64)
    requires
        i64::MIN <= claims.exp - now <= i64::MAX,
    ensures
        r == claims.exp - now,
{
    claims.exp - now
}

/// Builds the refresh cookie: http-only, secure, same-site, carrying the
/// token, with the remaining validity as max-age.
pub fn get_cookie_with_expiry_and_max_age(
    exp_time: i64,
    refresh_token: String,
    refresh_token_expiry: i64,
    now: i64,
) -> (r: Cookie)
    requires
        i64::MIN <= now + refresh_token_expiry <= i64::MAX,
    ensures
        r@ == (CookieView {
            name: spec_cookie_refresh_token_name(),
            value: refresh_token@,
            max_age: exp_time as int,
            expires: now + refresh_token_expiry,
            secure: true,
            http_only: true,
            same_site: true,
        }),
{
    Cookie {
        name: cookie_refresh_token_name().to_owned(),
        value: refresh_token,
        max_age: exp_time,
        expires: now + refresh_token_expiry,
        secure: true,
        http_only: true,
        same_site: true,
    }
}

/// Checks a submitted password against a stored user's hash.
pub fn verify_non_hashed_password(user: &User, password: &str, secret_key: &str) -> (r: bool)
    ensures
        r == argon2_verifies(user.password@, password@, secret_key@),
{
    user.verify(password, secret_key)
}

/// Adds the refresh cookie for freshly minted refresh claims to the jar and
/// hands the subject back.
pub fn add_refresh_cookie<'a>(
    user: UserType<'a>,
    cookie: &mut CookieJar,
    claims: &Claims,
    refresh_token: &str,
    exp_time: i64,
    now: i64,
) -> (r: UserType<'a>)
    requires
        i64::MIN <= claims.exp - now <= i64::MAX,
        i64::MIN <= now + exp_time <= i64::MAX,
    ensures
        final(cookie)@ == old(cookie)@.push(
            CookieView {
                name: spec_cookie_refresh_token_name(),
                value: refresh_token@,
                max_age: claims.exp - now,
                expires: now + exp_time,
                secure: true,
                http_only: true,
                same_site: true,
            },
        ),
        r == user,
{
    let refresh_exp = get_exp_time(claims, now);
    cookie.add(get_cookie_with_expiry_and_max_age(refresh_exp, refresh_token.to_owned(), exp_time, now));
    user
}

/// Mints an access token for the subject and wraps it, with its remaining
/// validity in seconds, into a success response body.
pub fn add_token_response(user: UserType<'_>, token_expiry: i64, secret_key: &str, now: i64) -> (r:
    Option<(crate::util::response::TokenResponse, u16)>)
    requires
        spec_subject_ok(user),
        i64::MIN <= now + token_expiry <= i64::MAX,
        now + 2 <= i64::MAX,
    ensures
        r matches Some(p) && ({
            &&& p.1 == crate::util::response::STATUS_OK
            &&& p.0.access_token matches Some(t) && ({
                &&& t@.len() > 0
                &&& t@ == token_of(
                    spec_subject(user),
                    spec_issuer(),
                    now + token_expiry,
                    now as int,
                    now + 2,
                    secret_key@,
                )
                &&& claims_of(t@, secret_key@) == Some(
                    (spec_subject(user), spec_issuer(), (now + token_expiry) as int, now as int, (
                    now + 2) as int),
                )
            })
            &&& p.0.expires_in == Some(token_expiry)
        }),
{
    let (claims, token) = get_new_token(&user, token_expiry, secret_key, now);
    let token_exp = get_exp_time(&claims, now);
    Some((crate::util::response::TokenResponse::success(token, token_exp), crate::util::response::STATUS_OK))
}

/// Decodes and validates a bearer or cookie token in one pass.
pub fn get_jwt_claim(value: &str, secret_key: &str, validation: &Validation, now: i64) -> (r:
    Result<Claims, JwtError>)
    requires
        validation.wf(),
        i64::MIN <= now - validation.leeway,
        now + validation.leeway <= i64::MAX,
    ensures
        (match r {
            Ok(c) => {
                &&& claims_of(value@, secret_key@) == Some(claims_view(c))
                &&& spec_claims_pass(claims_view(c), *validation, now as int)
            },
            Err(_) => !spec_decodes(value@, secret_key@, *validation, now as int),
        }),
{
    decode_token(value, secret_key, validation, now)
}

/// Decodes and validates the token a cookie carries.
pub fn verify_jwt(cookie: &Cookie, secret_key: &str, validation: &Validation, now: i64) -> (r:
    Option<Claims>)
    requires
        validation.wf(),
        i64::MIN <= now - validation.leeway,
        now + validation.leeway <= i64::MAX,
    ensures
        (match r {
            Some(c) => {
                &&& claims_of(cookie.value@, secret_key@) == Some(claims_view(c))
                &&& spec_claims_pass(claims_view(c), *validation, now as int)
            },
            None => !spec_decodes(cookie.value@, secret_key@, *validation, now as int),
        }),
{
    match get_jwt_claim(cookie.value.as_str(), secret_key, validation, now) {
        Ok(c) => Some(c),
        Err(_) => None,
    }
}

/// Lifts a verification outcome into an option: a failed check carries no
/// value at all.
pub fn bool_as_option(is_verified: bool) -> (r: Option<bool>)
    ensures
        r == (if is_verified {
            Some(true)
        } else {
            None::<bool>
        }),
{
    match is_verified {
        true => Some(true),
        false => None,
    }
}

/// Confirms that the subject named by validated claims still exists.
pub fn verify_username(conn: &UserStore, token_data: Claims) -> (r: Result<User, Error>)
    ensures
        (match r {
            Ok(u) => spec_find_user(conn@, token_data.sub@) == Some(u@),
            Err(e) => is_plain_error(e, STATUS_UNAUTHORIZED) && spec_find_user(
                conn@,
                token_data.sub@,
            ) is None,
        }),
{
    match crate::repository::user::find(conn, token_data.sub) {
        Ok(u) => Ok(u),
        Err(_) => Err(Error::Error(STATUS_UNAUTHORIZED)),
    }
}

/// The one response for an infrastructure failure: a bare server error.
pub fn get_internal_error_response() -> (r: Error)
    ensures
        is_plain_error(r, STATUS_INTERNAL_SERVER_ERROR),
{
    Error::Error(STATUS_INTERNAL_SERVER_ERROR)
}

/// A storage-layer failure as the core sees it: a constraint violation with
/// its message, or anything else.
#[derive(Debug)]
pub enum DbError {
    Database(String),
    Other,
}

/// Maps a storage constraint violation to a conflict response carrying the
/// violation message as its one error code.
pub fn get_database_error_response(db_error: String) -> (r: Error)
    ensures
        is_coded_error(r, seq![db_error@], STATUS_CONFLICT),
{
    let db_error_message = db_error;
    let mut codes: Vec<String> = Vec::new();
    codes.push(db_error_message);
    let auth_response = ErrorResponse {
        error_type: Some(ErrorType::RequestInvalid),
        error_codes: Some(codes),
    };
    let r = Error::error_with_body(auth_response, STATUS_CONFLICT);
    proof {
        assert(crate::util::response::spec_codes(codes) =~= seq![db_error@]);
    }
    r
}

/// Maps a storage failure: a constraint violation becomes a conflict with
/// its message, anything else a bare server error.
pub fn get_auth_error_response(error: DbError) -> (r: Error)
    ensures
        (match error {
            DbError::Database(m) => is_coded_error(r, seq![m@], STATUS_CONFLICT),
            DbError::Other => is_plain_error(r, STATUS_INTERNAL_SERVER_ERROR),
        }),
{
    match error {
        DbError::Database(db_error) => get_database_error_response(db_error),
        DbError::Other => get_internal_error_response(),
    }
}

/// The refresh token minted for a username at `now` with the given duration.
pub open spec fn spec_refresh_token_str(
    username: Seq<char>,
    duration: int,
    secret: Seq<char>,
    now: int,
) -> Seq<char> {
    token_of(username, spec_issuer(), now + duration, now, now + 2, secret)
}

/// What one refresh-record issuance leaves behind: the store holds a fresh
/// record carrying the newly minted token for the user (replacing any record
/// that carried the same token string), every other record is untouched, the
/// jar gained the refresh cookie, and the token decodes back to its claims.
pub open spec fn spec_stored_refresh_effects(
    old_tokens: TokenStore,
    new_tokens: TokenStore,
    old_jar: Seq<CookieView>,
    new_jar: Seq<CookieView>,
    username: Seq<char>,
    user_id: int,
    duration: int,
    secret: Seq<char>,
    now: int,
) -> bool {
    let t = spec_refresh_token_str(username, duration, secret, now);
    let rec = RefreshTokenView {
        id: old_tokens.next_id as int,
        token: t,
        expiry: now + duration,
        user_id: user_id,
    };
    &&& new_tokens.wf()
    &&& new_tokens.next_id == old_tokens.next_id + 1
    &&& new_tokens@.contains(rec)
    &&& forall|r: RefreshTokenView|
        new_tokens@.contains(r) ==> r == rec || (old_tokens@.contains(r) && r.token != t)
    &&& forall|r: RefreshTokenView|
        old_tokens@.contains(r) && r.token != t ==> new_tokens@.contains(r)
    &&& new_jar == old_jar.push(
        CookieView {
            name: spec_cookie_refresh_token_name(),
            value: t,
            max_age: duration,
            expires: now + duration,
            secure: true,
            http_only: true,
            same_site: true,
        },
    )
    &&& claims_of(t, secret) == Some(
        (username, spec_issuer(), now + duration, now as int, now + 2),
    )
}

/// Mints a refresh token for the user, sets its cookie, and persists its
/// record; the record's expiry is the minted claims' expiry.
pub fn generate_and_store_refresh_token(
    user: &User,
    refresh_token_expiry: i64,
    auth_secret_key: &str,
    cookie: &mut CookieJar,
    conn: &mut TokenStore,
    now: i64,
) -> (r: Result<(), Error>)
    requires
        old(conn).wf(),
        old(conn).next_id < i32::MAX,
        0 <= now,
        0 < refresh_token_expiry,
        now + refresh_token_expiry + 2 <= i64::MAX,
    ensures
        r is Ok,
        spec_stored_refresh_effects(
            *old(conn),
            *final(conn),
            old(cookie)@,
            final(cookie)@,
            user.username@,
            user.id as int,
            refresh_token_expiry as int,
            auth_secret_key@,
            now as int,
        ),
{
    let (refresh_claims, refresh_token) = get_new_token(
        &UserType::StoredUser(user),
        refresh_token_expiry,
        auth_secret_key,
        now,
    );
    add_refresh_cookie(
        UserType::StoredUser(user),
        cookie,
        &refresh_claims,
        refresh_token.as_str(),
        refresh_token_expiry,
        now,
    );

    let user_id = user.id;
    let insert_result = crate::repository::refresh_token::insert(
        conn,
        NewRefreshToken { user_id, token: refresh_token, expiry: refresh_claims.exp },
    );
    match insert_result {
        Ok(_) => Ok(()),
        Err(e) => Err(e),
    }
}

} // verus!
