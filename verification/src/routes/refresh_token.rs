//! Refresh: consume the refresh cookie's stored record, validate the signed
//! claims it carries, and only then issue a fresh refresh record and access
//! token.
//!
//! The rotation is fail-closed: the stored record is deleted before the
//! claims are checked, so a failure after that point leaves the old session
//! invalidated rather than leaving two live refresh tokens. Two refreshes
//! with the same cookie cannot both win: the first one deletes the record
//! the second one would need.

use crate::jwt::{claims_of, spec_claims_pass, spec_issuer, token_of};
use crate::models::user::{RefreshTokenView, UserType};
use crate::repository::refresh_token::{
    TokenStore, delete, find_by_token, has_token, lemma_id_unique, lemma_token_unique,
};
use crate::repository::user::{UserStore, spec_find_user};
use crate::routes::users_util::{
    add_token_response, generate_and_store_refresh_token, spec_refresh_token_str, verify_jwt,
    verify_username,
};
use crate::util::authorization::AccessToken;
use crate::util::cookies::{CookieJar, CookieView, spec_jar_get};
use crate::util::globals::{GlobalConfig, JWTConfig, cookie_refresh_token_name, spec_cookie_refresh_token_name};
use crate::util::response::{
    Error, Response, STATUS_OK, STATUS_UNAUTHORIZED, TokenResponse, is_plain_error,
};
use vstd::prelude::*;

verus! {

/// Rotates a session. The refresh cookie's token must name a stored record,
/// which is deleted first; the token's claims must then decode and pass the
/// policy, and its subject must still exist. On success a fresh refresh
/// record replaces the consumed one, its cookie is set, and the body carries
/// a fresh access token. On any failure after the deletion the old record
/// stays deleted.
pub fn refresh_token(
    conn: &UserStore,
    tokens: &mut TokenStore,
    cookie: &mut CookieJar,
    _access_token: AccessToken,
    global_config: &GlobalConfig,
    jwt_config: &JWTConfig,
    now: i64,
) -> (r: Result<Response<TokenResponse>, Error>)
    requires
        old(tokens).wf(),
        old(tokens).next_id < i32::MAX,
        global_config.wf(),
        jwt_config.validation.wf(),
        0 <= now,
        now + global_config.refresh_token_expiry + 2 <= i64::MAX,
        now + global_config.token_expiry + 2 <= i64::MAX,
        now + jwt_config.validation.leeway <= i64::MAX,
    ensures
        final(tokens).wf(),
        (match r {
            Ok(resp) => ({
                let got = spec_jar_get(old(cookie)@, spec_cookie_refresh_token_name());
                &&& got matches Some(c)
                &&& ({
                    let c = got.unwrap();
                    &&& has_token(old(tokens)@, c.value)
                    &&& claims_of(c.value, global_config.auth_secret_key@) matches Some(cl)
                    &&& ({
                        let cl = claims_of(c.value, global_config.auth_secret_key@).unwrap();
                        &&& spec_claims_pass(cl, jwt_config.validation, now as int)
                        &&& spec_find_user(conn@, cl.0) matches Some(u)
                        &&& ({
                            let u = spec_find_user(conn@, cl.0).unwrap();
                            let t_new = spec_refresh_token_str(
                                u.username,
                                global_config.refresh_token_expiry as int,
                                global_config.auth_secret_key@,
                                now as int,
                            );
                            let new_rec = RefreshTokenView {
                                id: old(tokens).next_id as int,
                                token: t_new,
                                expiry: now + global_config.refresh_token_expiry,
                                user_id: u.id,
                            };
                            &&& final(tokens)@.contains(new_rec)
                            &&& final(tokens).next_id == old(tokens).next_id + 1
                            &&& forall|rec: RefreshTokenView|
                                final(tokens)@.contains(rec) ==> rec == new_rec || (old(
                                    tokens,
                                )@.contains(rec) && rec.token != c.value && rec.token != t_new)
                            &&& forall|rec: RefreshTokenView|
                                old(tokens)@.contains(rec) && rec.token != c.value && rec.token
                                    != t_new ==> final(tokens)@.contains(rec)
                            &&& (cl.3 != now as int ==> !has_token(final(tokens)@, c.value))
                            &&& final(cookie)@ == old(cookie)@.push(
                                CookieView {
                                    name: spec_cookie_refresh_token_name(),
                                    value: t_new,
                                    max_age: global_config.refresh_token_expiry as int,
                                    expires: now + global_config.refresh_token_expiry,
                                    secure: true,
                                    http_only: true,
                                    same_site: true,
                                },
                            )
                            &&& claims_of(t_new, global_config.auth_secret_key@) == Some(
                                (
                                    u.username,
                                    spec_issuer(),
                                    now + global_config.refresh_token_expiry,
                                    now as int,
                                    now + 2,
                                ),
                            )
                            &&& resp matches Response::SuccessWithBody(b) && ({
                                &&& b.status == STATUS_OK
                                &&& b.json.access_token matches Some(t) && (t@.len() > 0 && t@
                                    == token_of(
                                    u.username,
                                    spec_issuer(),
                                    now + global_config.token_expiry,
                                    now as int,
                                    now + 2,
                                    global_config.auth_secret_key@,
                                ))
                                &&& b.json.expires_in == Some(global_config.token_expiry)
                            })
                        })
                    })
                })
            }),
            Err(e) => ({
                let got = spec_jar_get(old(cookie)@, spec_cookie_refresh_token_name());
                &&& is_plain_error(e, STATUS_UNAUTHORIZED)
                &&& final(cookie)@ == old(cookie)@
                &&& (got is None ==> *final(tokens) == *old(tokens))
                &&& (got matches Some(c) ==> ({
                    &&& (!has_token(old(tokens)@, c.value) ==> *final(tokens) == *old(tokens))
                    &&& (has_token(old(tokens)@, c.value) ==> ({
                        // Fail-closed: the consumed record is gone, everything
                        // else is untouched, and the reason is that the token's
                        // claims did not validate or its subject is gone.
                        &&& final(tokens).next_id == old(tokens).next_id
                        &&& forall|rec: RefreshTokenView|
                            final(tokens)@.contains(rec) <==> (old(tokens)@.contains(rec)
                                && rec.token != c.value)
                        &&& !(claims_of(c.value, global_config.auth_secret_key@) matches Some(cl)
                            && spec_claims_pass(cl, jwt_config.validation, now as int)
                            && spec_find_user(conn@, cl.0) is Some)
                    }))
                }))
            }),
        }),
{
    let refresh_cookie = cookie.get(cookie_refresh_token_name());

    let token_cookie = match refresh_cookie {
        None => {
            return Err(Error::error(None, STATUS_UNAUTHORIZED));
        },
        Some(v) => v,
    };

    let found_token = match find_by_token(tokens, token_cookie.value.clone()) {
        Err(e) => {
            return Err(e);
        },
        Ok(ft) => ft,
    };

    let ghost pre_delete = *tokens;
    let _deleted = match delete(tokens, found_token.id) {
        Err(e) => {
            return Err(e);
        },
        Ok(n) => n,
    };
    proof {
        // Only the consumed record carried the cookie's token, so deleting
        // its id removed exactly the records with that token.
        assert forall|rec: RefreshTokenView|
            tokens@.contains(rec) <==> (pre_delete@.contains(rec) && rec.token
                != token_cookie.value@) by {
            if pre_delete@.contains(rec) {
                if rec.token == token_cookie.value@ {
                    lemma_token_unique(pre_delete, rec, found_token@);
                } else {
                    if rec.id == found_token@.id {
                        lemma_id_unique(pre_delete, rec, found_token@);
                    }
                }
            }
        }
    }
    let ghost mid = *tokens;

    let verified_token = match verify_jwt(
        &token_cookie,
        global_config.auth_secret_key.as_str(),
        &jwt_config.validation,
        now,
    ) {
        Some(v) => v,
        None => {
            return Err(Error::Error(STATUS_UNAUTHORIZED));
        },
    };

    let user = match verify_username(conn, verified_token) {
        Ok(u) => u,
        Err(e) => {
            return Err(e);
        },
    };

    match generate_and_store_refresh_token(
        &user,
        global_config.refresh_token_expiry,
        global_config.auth_secret_key.as_str(),
        cookie,
        tokens,
        now,
    ) {
        Err(e) => {
            return Err(e);
        },
        Ok(()) => {},
    }

    proof {
        let secret = global_config.auth_secret_key@;
        let c_value = token_cookie.value@;
        let t_new = spec_refresh_token_str(
            user@.username,
            global_config.refresh_token_expiry as int,
            secret,
            now as int,
        );
        assert forall|rec: RefreshTokenView|
            tokens@.contains(rec) implies rec == (RefreshTokenView {
                id: mid.next_id as int,
                token: t_new,
                expiry: now + global_config.refresh_token_expiry,
                user_id: user@.id,
            }) || (pre_delete@.contains(rec) && rec.token != c_value && rec.token != t_new) by {}
        let cl = claims_of(c_value, secret).unwrap();
        if cl.3 != now as int {
            // The fresh token decodes to claims issued at `now`; the consumed
            // one was issued at a different time, so the strings differ.
            assert(claims_of(t_new, secret) != claims_of(c_value, secret));
            assert forall|i: int| 0 <= i < tokens@.len() implies (#[trigger] tokens@[i]).token
                != c_value by {
                assert(tokens@.contains(tokens@[i]));
            }
        }
    }

    let token_response = add_token_response(
        UserType::StoredUser(&user),
        global_config.token_expiry,
        global_config.auth_secret_key.as_str(),
        now,
    );
    match token_response {
        Some(p) => Ok(Response::success(Some(p.0), p.1)),
        None => Err(Error::Error(STATUS_UNAUTHORIZED)),
    }
}

} // verus!
