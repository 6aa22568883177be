//! The user repository: an in-memory store with the same uniqueness rules
//! the relational schema enforces (unique ids, usernames and emails).
//!
//! The service core depends only on this narrow interface: look a user up by
//! username, email or either, insert one, update one, and soft-delete one.

use crate::models::user::{NewUser, NewUserRequest, User, UserView};
use crate::util::response::{
    Error, ErrorType, STATUS_CONFLICT, STATUS_NOT_FOUND, is_coded_error,
    spec_codes,
};
use crate::util::strings::str_eq;
use vstd::prelude::*;

verus! {

/// The store of identity records. Ids grow monotonically; usernames and
/// emails are unique across all records, deleted ones included.
#[derive(Debug)]
pub struct UserStore {
    pub users: Vec<User>,
    pub next_id: i32,
}

impl View for UserStore {
    type V = Seq<UserView>;

    open spec fn view(&self) -> Seq<UserView> {
        self.users@.map_values(|u: User| u@)
    }
}

/// Holds when some record carries the given username.
pub open spec fn has_username(users: Seq<UserView>, username: Seq<char>) -> bool {
    exists|i: int| 0 <= i < users.len() && users[i].username == username
}

/// Holds when some record carries the given email.
pub open spec fn has_email(users: Seq<UserView>, email: Seq<char>) -> bool {
    exists|i: int| 0 <= i < users.len() && users[i].email == email
}

/// Holds when the record matches the identifier by email or username.
pub open spec fn user_matches(u: UserView, identifier: Seq<char>) -> bool {
    u.email == identifier || u.username == identifier
}

/// The first record matching the identifier by email or username, if any.
pub open spec fn spec_find_user(users: Seq<UserView>, identifier: Seq<char>) -> Option<UserView>
    decreases users.len(),
{
    if users.len() == 0 {
        None
    } else if user_matches(users[0], identifier) {
        Some(users[0])
    } else {
        spec_find_user(users.drop_first(), identifier)
    }
}

/// Skipping a prefix without matches does not change the first match.
proof fn lemma_find_skip(users: Seq<UserView>, identifier: Seq<char>, i: int)
    requires
        0 <= i <= users.len(),
        forall|j: int| 0 <= j < i ==> !user_matches(users[j], identifier),
    ensures
        spec_find_user(users, identifier) == spec_find_user(
            users.subrange(i, users.len() as int),
            identifier,
        ),
    decreases i,
{
    if i > 0 {
        lemma_find_skip(users, identifier, i - 1);
        assert(users.subrange(i - 1, users.len() as int).drop_first() =~= users.subrange(
            i,
            users.len() as int,
        ));
    } else {
        assert(users.subrange(0, users.len() as int) =~= users);
    }
}

impl UserStore {
    /// Well-formed store: ids are positive, below the next id to assign, and
    /// unique, and usernames and emails are unique.
    pub open spec fn wf(self) -> bool {
        &&& 1 <= self.next_id
        &&& forall|i: int| 0 <= i < self@.len() ==> 0 < (#[trigger] self@[i]).id < self.next_id
        &&& forall|i: int, j: int|
            0 <= i < j < self@.len() ==> self@[i].id != self@[j].id
        &&& forall|i: int, j: int|
            0 <= i < j < self@.len() ==> self@[i].username != self@[j].username
        &&& forall|i: int, j: int|
            0 <= i < j < self@.len() ==> self@[i].email != self@[j].email
    }

    /// An empty store; ids start at one.
    pub fn new() -> (r: Self)
        ensures
            r.wf(),
            r@.len() == 0,
            r.next_id == 1,
    {
        UserStore { users: Vec::new(), next_id: 1 }
    }
}

/// Looks a user id up by exact username.
pub fn get_by_username(username: &str, store: &UserStore) -> (r: Option<i32>)
    ensures
        (match r {
            Some(id) => exists|i: int|
                0 <= i < store@.len() && (#[trigger] store@[i]).username == username@
                    && store@[i].id == id,
            None => !has_username(store@, username@),
        }),
{
    let n = store.users.len();
    let mut i: usize = 0;
    while i < n
        invariant
            0 <= i <= n,
            n == store@.len(),
            forall|j: int| 0 <= j < i ==> (#[trigger] store@[j]).username != username@,
        decreases n - i,
    {
        if str_eq(store.users[i].username.as_str(), username) {
            proof {
                assert(store@[i as int].username == username@);
            }
            return Some(store.users[i].id);
        }
        i = i + 1;
    }
    None
}

/// Looks a user id up by exact email.
pub fn get_by_email(email: &str, store: &UserStore) -> (r: Option<i32>)
    ensures
        (match r {
            Some(id) => exists|i: int|
                0 <= i < store@.len() && (#[trigger] store@[i]).email == email@ && store@[i].id
                    == id,
            None => !has_email(store@, email@),
        }),
{
    let n = store.users.len();
    let mut i: usize = 0;
    while i < n
        invariant
            0 <= i <= n,
            n == store@.len(),
            forall|j: int| 0 <= j < i ==> (#[trigger] store@[j]).email != email@,
        decreases n - i,
    {
        if str_eq(store.users[i].email.as_str(), email) {
            proof {
                assert(store@[i as int].email == email@);
            }
            return Some(store.users[i].id);
        }
        i = i + 1;
    }
    None
}

/// The duplicate error codes for a registration request: `username_exists`
/// when the username is taken, then `email_exists` when the email is taken.
pub open spec fn spec_duplicate_codes(
    users: Seq<UserView>,
    username: Seq<char>,
    email: Seq<char>,
) -> Seq<Seq<char>> {
    (if has_username(users, username) {
        seq!["username_exists"@]
    } else {
        Seq::<Seq<char>>::empty()
    }) + (if has_email(users, email) {
        seq!["email_exists"@]
    } else {
        Seq::<Seq<char>>::empty()
    })
}

/// Rejects a registration request whose username or email is already taken,
/// with one conflict code per taken field; passes the request through
/// otherwise.
pub fn is_duplicate_user_or_email(store: &UserStore, user: NewUserRequest) -> (r: Result<
    NewUserRequest,
    Error,
>)
    requires
        user.username is Some,
        user.email is Some,
    ensures
        (match r {
            Ok(passed) => {
                &&& passed == user
                &&& !has_username(store@, user.username.unwrap()@)
                &&& !has_email(store@, user.email.unwrap()@)
            },
            Err(e) => {
                &&& has_username(store@, user.username.unwrap()@) || has_email(
                    store@,
                    user.email.unwrap()@,
                )
                &&& is_coded_error(
                    e,
                    spec_duplicate_codes(store@, user.username.unwrap()@, user.email.unwrap()@),
                    STATUS_CONFLICT,
                )
            },
        }),
{
    let found_username = get_by_username(user.username.as_ref().unwrap().as_str(), store);
    let found_email = get_by_email(user.email.as_ref().unwrap().as_str(), store);

    let mut errors: Vec<String> = Vec::new();

    if found_username.is_some() {
        errors.push("username_exists".to_owned());
    }
    if found_email.is_some() {
        errors.push("email_exists".to_owned());
    }

    if errors.len() > 0 {
        proof {
            assert(spec_codes(errors) =~= spec_duplicate_codes(
                store@,
                user.username.unwrap()@,
                user.email.unwrap()@,
            ));
        }
        return Err(Error::error(Some((errors, ErrorType::RequestInvalid)), STATUS_CONFLICT));
    }
    Ok(user)
}

/// Inserts a new user, assigning the next id and stamping both timestamps
/// with `now`; rejects a duplicate username or email with one conflict code
/// per taken field.
pub fn insert(store: &mut UserStore, user: NewUser, now: i64) -> (r: Result<User, Error>)
    requires
        old(store).wf(),
        old(store).next_id < i32::MAX,
    ensures
        final(store).wf(),
        (match r {
            Ok(u) => {
                &&& !has_username(old(store)@, user.username@)
                &&& !has_email(old(store)@, user.email@)
                &&& u@ == (UserView {
                    id: old(store).next_id as int,
                    username: user.username@,
                    email: user.email@,
                    password: user.password@,
                    is_deleted: false,
                    created_at: now as int,
                    updated_at: now as int,
                })
                &&& final(store)@ == old(store)@.push(u@)
                &&& final(store).next_id == old(store).next_id + 1
            },
            Err(e) => {
                &&& has_username(old(store)@, user.username@) || has_email(
                    old(store)@,
                    user.email@,
                )
                &&& is_coded_error(
                    e,
                    spec_duplicate_codes(old(store)@, user.username@, user.email@),
                    STATUS_CONFLICT,
                )
                &&& *final(store) == *old(store)
            },
        }),
{
    let dup_username = get_by_username(user.username.as_str(), store);
    let dup_email = get_by_email(user.email.as_str(), store);

    if dup_username.is_some() || dup_email.is_some() {
        let mut errors: Vec<String> = Vec::new();
        if dup_username.is_some() {
            errors.push("username_exists".to_owned());
        }
        if dup_email.is_some() {
            errors.push("email_exists".to_owned());
        }
        proof {
            assert(spec_codes(errors) =~= spec_duplicate_codes(
                store@,
                user.username@,
                user.email@,
            ));
        }
        return Err(Error::error(Some((errors, ErrorType::RequestInvalid)), STATUS_CONFLICT));
    }

    let saved = User {
        id: store.next_id,
        username: user.username,
        email: user.email,
        password: user.password,
        is_deleted: false,
        created_at: now,
        updated_at: now,
    };
    let returned = saved.clone();
    store.users.push(saved);
    store.next_id = store.next_id + 1;
    proof {
        assert(final(store)@ =~= old(store)@.push(returned@));
    }
    Ok(returned)
}

/// Finds the first user whose email or username equals the identifier; a
/// miss is reported as a not-found status.
pub fn find(store: &UserStore, identifier: String) -> (r: Result<User, u16>)
    ensures
        (match r {
            Ok(u) => spec_find_user(store@, identifier@) == Some(u@),
            Err(s) => s == STATUS_NOT_FOUND && spec_find_user(store@, identifier@) is None,
        }),
{
    let n = store.users.len();
    let mut i: usize = 0;
    while i < n
        invariant
            0 <= i <= n,
            n == store@.len(),
            forall|j: int| 0 <= j < i ==> !user_matches(#[trigger] store@[j], identifier@),
        decreases n - i,
    {
        let matched = str_eq(store.users[i].email.as_str(), identifier.as_str()) || str_eq(
            store.users[i].username.as_str(),
            identifier.as_str(),
        );
        if matched {
            proof {
                lemma_find_skip(store@, identifier@, i as int);
                assert(store@.subrange(i as int, store@.len() as int)[0] == store@[i as int]);
            }
            return Ok(store.users[i].clone());
        }
        i = i + 1;
    }
    proof {
        lemma_find_skip(store@, identifier@, n as int);
        assert(store@.subrange(n as int, store@.len() as int).len() == 0);
    }
    Err(STATUS_NOT_FOUND)
}

/// Replaces the fields of the record with the given id (the id itself is
/// kept). A missing id is a not-found status; a replacement that would break
/// username or email uniqueness is a conflict status.
pub fn update(store: &mut UserStore, id: i32, user: User) -> (r: Result<User, u16>)
    requires
        old(store).wf(),
    ensures
        final(store).wf(),
        (match r {
            Ok(u) => {
                &&& exists|i: int|
                    0 <= i < old(store)@.len() && (#[trigger] old(store)@[i]).id == id
                &&& u@ == (UserView { id: id as int, ..user@ })
                &&& exists|i: int|
                    {
                        &&& 0 <= i < old(store)@.len()
                        &&& (#[trigger] old(store)@[i]).id == id
                        &&& final(store)@ == old(store)@.update(i, u@)
                    }
                &&& final(store).next_id == old(store).next_id
            },
            Err(s) => {
                &&& *final(store) == *old(store)
                &&& s == STATUS_NOT_FOUND || s == STATUS_CONFLICT
                &&& (s == STATUS_NOT_FOUND <==> !exists|i: int|
                    0 <= i < old(store)@.len() && (#[trigger] old(store)@[i]).id == id)
                &&& (s == STATUS_CONFLICT ==> exists|k: int|
                    {
                        &&& 0 <= k < old(store)@.len()
                        &&& (#[trigger] old(store)@[k]).id != id
                        &&& (old(store)@[k].username == user.username@ || old(store)@[k].email
                            == user.email@)
                    })
            },
        }),
{
    let n = store.users.len();
    let mut i: usize = 0;
    while i < n
        invariant
            0 <= i <= n,
            n == store@.len(),
            *store == *old(store),
            old(store).wf(),
            forall|j: int| 0 <= j < i ==> (#[trigger] store@[j]).id != id,
        decreases n - i,
    {
        if store.users[i].id == id {
            // The replacement may not take a username or email that another
            // record already holds.
            let mut j: usize = 0;
            while j < n
                invariant
                    0 <= j <= n,
                    n == store@.len(),
                    i < n,
                    *store == *old(store),
                    old(store).wf(),
                    store@[i as int].id == id,
                    forall|k: int|
                        0 <= k < j && k != i ==> (#[trigger] store@[k]).username != user.username@
                            && store@[k].email != user.email@,
                decreases n - j,
            {
                if j != i {
                    let clash = str_eq(store.users[j].username.as_str(), user.username.as_str())
                        || str_eq(store.users[j].email.as_str(), user.email.as_str());
                    if clash {
                        proof {
                            assert(store@[j as int].id != id);
                        }
                        return Err(STATUS_CONFLICT);
                    }
                }
                j = j + 1;
            }
            let updated = User { id, ..user };
            let returned = updated.clone();
            let ghost pre = store@;
            store.users[i] = updated;
            proof {
                assert(store@ =~= pre.update(i as int, returned@));
                assert(store@[i as int] == returned@);
                assert(pre[i as int].id == id);
                assert forall|a: int, b: int|
                    0 <= a < b < store@.len() implies store@[a].username != store@[b].username
                    && store@[a].email != store@[b].email && store@[a].id != store@[b].id by {
                    if a == i as int {
                        assert(store@[b] == pre[b]);
                    } else if b == i as int {
                        assert(store@[a] == pre[a]);
                    } else {
                        assert(store@[a] == pre[a] && store@[b] == pre[b]);
                    }
                }
                assert forall|j: int| 0 <= j < store@.len() implies 0 < (
                #[trigger] store@[j]).id < store.next_id by {
                    if j != i {
                        assert(store@[j] == pre[j]);
                    }
                }
            }
            return Ok(returned);
        }
        i = i + 1;
    }
    Err(STATUS_NOT_FOUND)
}

/// Soft-deletes the record with the given id: its fields are replaced with
/// the given user's, with the deletion flag raised.
pub fn delete(store: &mut UserStore, id: i32, user: User) -> (r: Result<User, u16>)
    requires
        old(store).wf(),
    ensures
        final(store).wf(),
        (match r {
            Ok(u) => {
                &&& u.is_deleted
                &&& u@ == (UserView { id: id as int, is_deleted: true, ..user@ })
                &&& exists|i: int|
                    {
                        &&& 0 <= i < old(store)@.len()
                        &&& (#[trigger] old(store)@[i]).id == id
                        &&& final(store)@ == old(store)@.update(i, u@)
                    }
                &&& final(store).next_id == old(store).next_id
            },
            Err(s) => {
                &&& *final(store) == *old(store)
                &&& s == STATUS_NOT_FOUND || s == STATUS_CONFLICT
                &&& (s == STATUS_NOT_FOUND <==> !exists|i: int|
                    0 <= i < old(store)@.len() && (#[trigger] old(store)@[i]).id == id)
                &&& (s == STATUS_CONFLICT ==> exists|k: int|
                    {
                        &&& 0 <= k < old(store)@.len()
                        &&& (#[trigger] old(store)@[k]).id != id
                        &&& (old(store)@[k].username == user.username@ || old(store)@[k].email
                            == user.email@)
                    })
            },
        }),
{
    let mut user = user;
    user.is_deleted = true;
    update(store, id, user)
}

} // verus!
