//! The access guard: checks the bearer token a request presents in its
//! `token` header and confirms the subject still exists and is not
//! soft-deleted. Every failure is answered with a bare unauthorized status;
//! missing and invalid tokens are told apart only for observability.

use crate::jwt::{Validation, claims_of, claims_view, spec_claims_pass};
use crate::repository::user::{UserStore, spec_find_user};
use crate::routes::users_util::get_jwt_claim;
use crate::util::response::STATUS_UNAUTHORIZED;
use crate::util::strings::{find_char, str_eq};
use vstd::prelude::*;

verus! {

/// A bearer token the guard has accepted, as presented in the header.
#[derive(Debug)]
pub struct AccessToken(pub String);

/// Why the guard rejected a request: no token header, or a header that did
/// not validate.
#[derive(Debug)]
pub enum AccessTokenError {
    Missing,
    Invalid,
}

/// Holds when `t` is the token piece of the header `h`: the header is the
/// word `Bearer`, one space, then the token, which runs to the next space or
/// the end of the header.
pub open spec fn spec_is_bearer_piece(h: Seq<char>, t: Seq<char>) -> bool {
    &&& h.len() >= 7
    &&& h.subrange(0, 7) == "Bearer "@
    &&& 7 + t.len() <= h.len()
    &&& t == h.subrange(7, 7 + t.len() as int)
    &&& forall|j: int| 7 <= j < 7 + t.len() ==> h[j] != ' '
    &&& (7 + t.len() == h.len() || h[7 + t.len() as int] == ' ')
}

/// The token piece of a header is unique.
pub(crate) proof fn lemma_bearer_piece_unique(h: Seq<char>, t1: Seq<char>, t2: Seq<char>)
    requires
        spec_is_bearer_piece(h, t1),
        spec_is_bearer_piece(h, t2),
    ensures
        t1 == t2,
{
    if t1.len() < t2.len() {
        assert(h[7 + t1.len() as int] == ' ');
        assert(h[7 + t1.len() as int] != ' ');
    } else if t2.len() < t1.len() {
        assert(h[7 + t2.len() as int] == ' ');
        assert(h[7 + t2.len() as int] != ' ');
    } else {
        assert(t1 =~= t2);
    }
}

/// Extracts the bearer token piece of a header, if the header has the
/// required shape.
pub(crate) fn bearer_token(header: &str) -> (r: Option<String>)
    ensures
        (match r {
            Some(t) => spec_is_bearer_piece(header@, t@),
            None => forall|t: Seq<char>| !spec_is_bearer_piece(header@, t),
        }),
{
    let len = header.unicode_len();
    if len < 7 {
        return None;
    }
    let prefix = header.substring_char(0, 7);
    if !str_eq(prefix, "Bearer ") {
        return None;
    }
    let rest = header.substring_char(7, len);
    let token = match find_char(rest, ' ') {
        Some(k) => rest.substring_char(0, k),
        None => rest,
    };
    proof {
        assert(token@ =~= header@.subrange(7, 7 + token@.len() as int));
        assert forall|j: int| 7 <= j < 7 + token@.len() implies header@[j] != ' ' by {
            assert(rest@[j - 7] == header@[j]);
        }
        if token@.len() < rest@.len() {
            assert(header@[7 + token@.len() as int] == rest@[token@.len() as int]);
        }
    }
    Some(token.to_owned())
}

/// Holds when the header carries a bearer token whose claims decode under
/// the secret and pass the policy at time `now`, whoever the subject is.
pub open spec fn spec_bearer_decodes(
    h: Seq<char>,
    secret: Seq<char>,
    v: Validation,
    now: int,
) -> bool {
    exists|t: Seq<char>|
        {
            &&& spec_is_bearer_piece(h, t)
            &&& claims_of(t, secret) matches Some(c)
            &&& spec_claims_pass(claims_of(t, secret).unwrap(), v, now)
        }
}

/// Holds when the header authorizes a request at time `now`: it carries a
/// bearer token whose claims decode under the secret, pass the policy, and
/// name a stored user that is not soft-deleted.
pub open spec fn spec_token_valid(
    users: Seq<crate::models::user::UserView>,
    h: Seq<char>,
    secret: Seq<char>,
    v: Validation,
    now: int,
) -> bool {
    exists|t: Seq<char>|
        {
            &&& spec_is_bearer_piece(h, t)
            &&& claims_of(t, secret) matches Some(c)
            &&& spec_claims_pass(claims_of(t, secret).unwrap(), v, now)
            &&& spec_find_user(users, claims_of(t, secret).unwrap().0) matches Some(u)
                && !u.is_deleted
        }
}

/// Checks a `token` header value: the token must parse as a bearer token,
/// decode and pass the policy, and its subject must exist and not be
/// soft-deleted.
pub fn is_token_valid(
    conn: &UserStore,
    token: &str,
    secret_key: &str,
    validation: &Validation,
    now: i64,
) -> (r: bool)
    requires
        validation.wf(),
        i64::MIN <= now - validation.leeway,
        now + validation.leeway <= i64::MAX,
    ensures
        r == spec_token_valid(conn@, token@, secret_key@, *validation, now as int),
{
    let piece = match bearer_token(token) {
        Some(t) => t,
        None => {
            return false;
        },
    };
    let claims = match get_jwt_claim(piece.as_str(), secret_key, validation, now) {
        Ok(c) => c,
        Err(_) => {
            proof {
                assert forall|t: Seq<char>| !({
                    &&& spec_is_bearer_piece(token@, t)
                    &&& claims_of(t, secret_key@) matches Some(c)
                    &&& spec_claims_pass(claims_of(t, secret_key@).unwrap(), *validation, now as int)
                    &&& spec_find_user(conn@, claims_of(t, secret_key@).unwrap().0) matches Some(
                        u,
                    ) && !u.is_deleted
                }) by {
                    if spec_is_bearer_piece(token@, t) {
                        lemma_bearer_piece_unique(token@, t, piece@);
                    }
                }
            }
            return false;
        },
    };
    let ghost piece_view = piece@;
    let found = crate::repository::user::find(conn, claims.sub);
    match found {
        Ok(u) => {
            proof {
                if u.is_deleted {
                    assert forall|t: Seq<char>| !({
                        &&& spec_is_bearer_piece(token@, t)
                        &&& claims_of(t, secret_key@) matches Some(c)
                        &&& spec_claims_pass(
                            claims_of(t, secret_key@).unwrap(),
                            *validation,
                            now as int,
                        )
                        &&& spec_find_user(conn@, claims_of(t, secret_key@).unwrap().0) matches Some(
                            w,
                        ) && !w.is_deleted
                    }) by {
                        if spec_is_bearer_piece(token@, t) {
                            lemma_bearer_piece_unique(token@, t, piece_view);
                        }
                    }
                }
            }
            !u.is_deleted
        },
        Err(_) => {
            proof {
                assert forall|t: Seq<char>| !({
                    &&& spec_is_bearer_piece(token@, t)
                    &&& claims_of(t, secret_key@) matches Some(c)
                    &&& spec_claims_pass(claims_of(t, secret_key@).unwrap(), *validation, now as int)
                    &&& spec_find_user(conn@, claims_of(t, secret_key@).unwrap().0) matches Some(
                        u,
                    ) && !u.is_deleted
                }) by {
                    if spec_is_bearer_piece(token@, t) {
                        lemma_bearer_piece_unique(token@, t, piece_view);
                    }
                }
            }
            false
        },
    }
}

/// The guard decision for the `token` headers a request presents: reject a
/// request with none as missing, accept a single valid one, and reject
/// anything else as invalid.
pub fn from_request(
    conn: &UserStore,
    headers: &Vec<String>,
    secret_key: &str,
    validation: &Validation,
    now: i64,
) -> (r: Result<AccessToken, (u16, AccessTokenError)>)
    requires
        validation.wf(),
        i64::MIN <= now - validation.leeway,
        now + validation.leeway <= i64::MAX,
    ensures
        (match r {
            Ok(t) => {
                &&& headers@.len() == 1
                &&& t.0@ == headers@[0]@
                &&& spec_token_valid(conn@, headers@[0]@, secret_key@, *validation, now as int)
            },
            Err(p) => {
                &&& p.0 == STATUS_UNAUTHORIZED
                &&& (p.1 matches AccessTokenError::Missing <==> headers@.len() == 0)
                &&& headers@.len() == 1 ==> !spec_token_valid(
                    conn@,
                    headers@[0]@,
                    secret_key@,
                    *validation,
                    now as int,
                )
            },
        }),
{
    if headers.len() == 0 {
        Err((STATUS_UNAUTHORIZED, AccessTokenError::Missing))
    } else if headers.len() == 1 && is_token_valid(
        conn,
        headers[0].as_str(),
        secret_key,
        validation,
        now,
    ) {
        Ok(AccessToken(headers[0].clone()))
    } else {
        Err((STATUS_UNAUTHORIZED, AccessTokenError::Invalid))
    }
}

} // verus!
