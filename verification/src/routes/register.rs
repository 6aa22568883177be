//! Registration: validate the request shape, reject duplicate usernames and
//! emails, hash the password, and insert the new user.
//!
//! Validation is checked before any side effect; on any rejection the store
//! is untouched.

use crate::models::user::{NewUser, NewUserRequest, argon2_verifies};
use crate::repository::user::{
    UserStore, has_email, has_username, insert, is_duplicate_user_or_email, spec_duplicate_codes,
};
use crate::util::globals::GlobalConfig;
use crate::util::response::{
    Error, STATUS_CONFLICT, STATUS_CREATED, STATUS_UNPROCESSABLE_ENTITY, is_coded_error,
};
use crate::util::validator::spec_register_codes;
use vstd::prelude::*;

verus! {

/// Registers a new user. An invalid body is rejected with its error codes; a
/// taken username or email is rejected with one conflict code per taken
/// field; otherwise the user is stored under a fresh id with a salted,
/// keyed hash of the password, and created is answered.
pub fn register_user(
    conn: &mut UserStore,
    user: NewUserRequest,
    global_config: &GlobalConfig,
    now: i64,
) -> (r: Result<u16, Error>)
    requires
        old(conn).wf(),
        old(conn).next_id < i32::MAX,
        global_config.wf(),
        user.password matches Some(p) ==> p@.len() < 0x10000000,
    ensures
        final(conn).wf(),
        (match r {
            Ok(s) => {
                &&& s == STATUS_CREATED
                &&& spec_register_codes(user).len() == 0
                &&& !has_username(old(conn)@, user.username.unwrap()@)
                &&& !has_email(old(conn)@, user.email.unwrap()@)
                &&& final(conn).next_id == old(conn).next_id + 1
                &&& final(conn)@ == old(conn)@.push(final(conn)@.last())
                &&& ({
                    let nu = final(conn)@.last();
                    &&& nu.id == old(conn).next_id as int
                    &&& nu.username == user.username.unwrap()@
                    &&& nu.email == user.email.unwrap()@
                    &&& !nu.is_deleted
                    &&& nu.created_at == now as int
                    &&& nu.updated_at == now as int
                    &&& argon2_verifies(
                        nu.password,
                        user.password.unwrap()@,
                        global_config.auth_secret_key@,
                    )
                })
            },
            Err(e) => {
                &&& *final(conn) == *old(conn)
                &&& (spec_register_codes(user).len() > 0 ==> is_coded_error(
                    e,
                    spec_register_codes(user),
                    STATUS_UNPROCESSABLE_ENTITY,
                ))
                &&& (spec_register_codes(user).len() == 0 ==> ({
                    &&& has_username(old(conn)@, user.username.unwrap()@) || has_email(
                        old(conn)@,
                        user.email.unwrap()@,
                    )
                    &&& is_coded_error(
                        e,
                        spec_duplicate_codes(
                            old(conn)@,
                            user.username.unwrap()@,
                            user.email.unwrap()@,
                        ),
                        STATUS_CONFLICT,
                    )
                }))
            },
        }),
{
    match user.validate_model() {
        Err(e) => {
            return Err(e);
        },
        Ok(()) => {},
    }
    let user = match is_duplicate_user_or_email(conn, user) {
        Err(e) => {
            return Err(e);
        },
        Ok(u) => u,
    };
    let new_user = NewUser::from(user, global_config.auth_secret_key.as_str());
    match insert(conn, new_user, now) {
        Err(e) => Err(e),
        Ok(_) => Ok(STATUS_CREATED),
    }
}

} // verus!
