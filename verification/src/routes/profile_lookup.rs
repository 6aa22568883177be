//! Profile lookup: read the subject off a guard-accepted bearer token and
//! answer with the user's public identity fields.

use crate::jwt::{claims_of, spec_claims_pass};
use crate::models::user::User;
use crate::repository::user::{UserStore, find, spec_find_user};
use crate::routes::users_util::get_jwt_claim;
use crate::util::authorization::{
    AccessToken, bearer_token, lemma_bearer_piece_unique, spec_bearer_decodes,
    spec_is_bearer_piece,
};
use crate::util::globals::{GlobalConfig, JWTConfig};
use crate::util::response::{STATUS_NOT_FOUND, STATUS_UNAUTHORIZED};
use vstd::prelude::*;

verus! {

/// The public identity fields a profile lookup answers with.
#[derive(Debug)]
pub struct UserLookUpResponse {
    pub id: i32,
    pub username: String,
    pub email: String,
}

impl UserLookUpResponse {
    /// Projects a stored user onto its public identity fields.
    pub fn from(user: User) -> (r: Self)
        ensures
            r.id == user.id,
            r.username@ == user.username@,
            r.email@ == user.email@,
    {
        Self { id: user.id, username: user.username, email: user.email }
    }
}

/// Looks the profile of the token's subject up: the bearer token must parse
/// and validate (else unauthorized), and its subject must still be stored
/// (else not found).
pub fn profile_lookup(
    db_conn: &UserStore,
    access_token: AccessToken,
    global_config: &GlobalConfig,
    jwt_config: &JWTConfig,
    now: i64,
) -> (r: Result<UserLookUpResponse, u16>)
    requires
        jwt_config.validation.wf(),
        i64::MIN <= now - jwt_config.validation.leeway,
        now + jwt_config.validation.leeway <= i64::MAX,
    ensures
        (match r {
            Ok(resp) => exists|t: Seq<char>|
                {
                    &&& spec_is_bearer_piece(access_token.0@, t)
                    &&& claims_of(t, global_config.auth_secret_key@) matches Some(cl)
                    &&& spec_claims_pass(
                        claims_of(t, global_config.auth_secret_key@).unwrap(),
                        jwt_config.validation,
                        now as int,
                    )
                    &&& spec_find_user(
                        db_conn@,
                        claims_of(t, global_config.auth_secret_key@).unwrap().0,
                    ) matches Some(u) && ({
                        &&& u.id == resp.id as int
                        &&& u.username == resp.username@
                        &&& u.email == resp.email@
                    })
                },
            Err(s) => {
                &&& s == STATUS_UNAUTHORIZED || s == STATUS_NOT_FOUND
                &&& (s == STATUS_UNAUTHORIZED <==> !spec_bearer_decodes(
                    access_token.0@,
                    global_config.auth_secret_key@,
                    jwt_config.validation,
                    now as int,
                ))
                &&& (s == STATUS_NOT_FOUND ==> exists|t: Seq<char>|
                    {
                        &&& spec_is_bearer_piece(access_token.0@, t)
                        &&& claims_of(t, global_config.auth_secret_key@) matches Some(cl)
                        &&& spec_claims_pass(
                            claims_of(t, global_config.auth_secret_key@).unwrap(),
                            jwt_config.validation,
                            now as int,
                        )
                        &&& spec_find_user(
                            db_conn@,
                            claims_of(t, global_config.auth_secret_key@).unwrap().0,
                        ) is None
                    })
            },
        }),
{
    let AccessToken(token) = access_token;
    let ghost header = token@;
    let ghost secret = global_config.auth_secret_key@;

    let piece = match bearer_token(token.as_str()) {
        Some(t) => t,
        None => {
            return Err(STATUS_UNAUTHORIZED);
        },
    };

    let token_claim = match get_jwt_claim(
        piece.as_str(),
        global_config.auth_secret_key.as_str(),
        &jwt_config.validation,
        now,
    ) {
        Ok(c) => c,
        Err(_) => {
            proof {
                assert forall|t: Seq<char>| !({
                    &&& spec_is_bearer_piece(header, t)
                    &&& claims_of(t, secret) matches Some(c)
                    &&& spec_claims_pass(
                        claims_of(t, secret).unwrap(),
                        jwt_config.validation,
                        now as int,
                    )
                }) by {
                    if spec_is_bearer_piece(header, t) {
                        lemma_bearer_piece_unique(header, t, piece@);
                    }
                }
            }
            return Err(STATUS_UNAUTHORIZED);
        },
    };

    let user = match find(db_conn, token_claim.sub) {
        Ok(u) => u,
        Err(s) => {
            proof {
                assert(spec_is_bearer_piece(header, piece@));
                assert(spec_bearer_decodes(
                    header,
                    secret,
                    jwt_config.validation,
                    now as int,
                ));
            }
            return Err(s);
        },
    };

    Ok(UserLookUpResponse::from(user))
}

} // verus!
