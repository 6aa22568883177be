//! Login: validate the request shape, look the user up by username or email,
//! verify the password, rotate in a refresh-token record with its cookie,
//! and answer with a fresh access token.
//!
//! Which credential was wrong is never revealed: an unknown identifier and a
//! wrong password are both answered with the same bare unauthorized status.

use crate::jwt::{claims_of, spec_issuer, token_of};
use crate::models::user::{LoginUser, UserType, argon2_verifies};
use crate::repository::refresh_token::TokenStore;
use crate::repository::user::{UserStore, find, spec_find_user};
use crate::routes::users_util::{
    add_token_response, generate_and_store_refresh_token, spec_stored_refresh_effects,
    verify_non_hashed_password,
};
use crate::util::cookies::CookieJar;
use crate::util::globals::GlobalConfig;
use crate::util::response::{
    Error, Response, STATUS_OK, STATUS_UNAUTHORIZED, STATUS_UNPROCESSABLE_ENTITY, TokenResponse,
    is_coded_error, is_plain_error,
};
use crate::util::validator::spec_login_codes;
use vstd::prelude::*;

verus! {

/// Logs a user in. An invalid body is rejected with its error codes; an
/// unknown identifier or a wrong password with a bare unauthorized status.
/// On success a refresh record is stored, its cookie is set, and the body
/// carries a fresh access token with its remaining validity.
pub fn login(
    conn: &UserStore,
    tokens: &mut TokenStore,
    user: LoginUser,
    cookies: &mut CookieJar,
    global_config: &GlobalConfig,
    now: i64,
) -> (r: Result<Response<TokenResponse>, Error>)
    requires
        old(tokens).wf(),
        old(tokens).next_id < i32::MAX,
        global_config.wf(),
        0 <= now,
        now + global_config.refresh_token_expiry + 2 <= i64::MAX,
        now + global_config.token_expiry + 2 <= i64::MAX,
    ensures
        final(tokens).wf(),
        (match r {
            Ok(resp) => {
                &&& spec_login_codes(user).len() == 0
                &&& spec_find_user(conn@, user.identifier.unwrap()@) matches Some(u)
                &&& ({
                    let u = spec_find_user(conn@, user.identifier.unwrap()@).unwrap();
                    &&& argon2_verifies(
                        u.password,
                        user.password.unwrap()@,
                        global_config.auth_secret_key@,
                    )
                    &&& spec_stored_refresh_effects(
                        *old(tokens),
                        *final(tokens),
                        old(cookies)@,
                        final(cookies)@,
                        u.username,
                        u.id,
                        global_config.refresh_token_expiry as int,
                        global_config.auth_secret_key@,
                        now as int,
                    )
                    &&& resp matches Response::SuccessWithBody(b) && ({
                        &&& b.status == STATUS_OK
                        &&& b.json.access_token matches Some(t) && ({
                            &&& t@.len() > 0
                            &&& t@ == token_of(
                                u.username,
                                spec_issuer(),
                                now + global_config.token_expiry,
                                now as int,
                                now + 2,
                                global_config.auth_secret_key@,
                            )
                            &&& claims_of(t@, global_config.auth_secret_key@) == Some(
                                (
                                    u.username,
                                    spec_issuer(),
                                    now + global_config.token_expiry,
                                    now as int,
                                    now + 2,
                                ),
                            )
                        })
                        &&& b.json.expires_in == Some(global_config.token_expiry)
                    })
                })
            },
            Err(e) => {
                &&& *final(tokens) == *old(tokens)
                &&& final(cookies)@ == old(cookies)@
                &&& (spec_login_codes(user).len() > 0 ==> is_coded_error(
                    e,
                    spec_login_codes(user),
                    STATUS_UNPROCESSABLE_ENTITY,
                ))
                &&& (spec_login_codes(user).len() == 0 ==> is_plain_error(e, STATUS_UNAUTHORIZED)
                    && !(spec_find_user(conn@, user.identifier.unwrap()@) matches Some(u)
                    && argon2_verifies(
                    u.password,
                    user.password.unwrap()@,
                    global_config.auth_secret_key@,
                )))
            },
        }),
{
    match user.validate_model() {
        Err(e) => {
            return Err(e);
        },
        Ok(()) => {},
    }

    let identifier = match &user.identifier {
        Some(s) => s.clone(),
        None => {
            return Err(Error::unauthorized());
        },
    };
    let password = match &user.password {
        Some(p) => p.clone(),
        None => {
            return Err(Error::unauthorized());
        },
    };

    let found_user = match find(conn, identifier) {
        Err(_) => {
            return Err(Error::unauthorized());
        },
        Ok(u) => u,
    };

    let password_verify = verify_non_hashed_password(
        &found_user,
        password.as_str(),
        global_config.auth_secret_key.as_str(),
    );
    if !password_verify {
        return Err(Error::unauthorized());
    }

    match generate_and_store_refresh_token(
        &found_user,
        global_config.refresh_token_expiry,
        global_config.auth_secret_key.as_str(),
        cookies,
        tokens,
        now,
    ) {
        Err(e) => {
            return Err(e);
        },
        Ok(()) => {},
    }

    let response = add_token_response(
        UserType::StoredUser(&found_user),
        global_config.token_expiry,
        global_config.auth_secret_key.as_str(),
        now,
    );
    match response {
        Some(p) => Ok(Response::success(Some(p.0), p.1)),
        None => Err(Error::Error(STATUS_UNAUTHORIZED)),
    }
}

} // verus!
