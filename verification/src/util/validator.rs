//! Request validation: the shape rules for registration and login bodies,
//! and the machine-readable error codes they produce.
//!
//! Every rule is checked before any side effect. A missing field yields a
//! `<field>_required` code; a present field that breaks its shape rule yields
//! the rule's own code. Codes are listed in field declaration order.

use crate::models::user::{LoginUser, NewUserRequest};
use crate::util::response::{
    Error, ErrorType, STATUS_UNPROCESSABLE_ENTITY, is_coded_error, spec_codes,
};
use crate::util::strings::find_char;
use vstd::prelude::*;

verus! {

/// A character the email rule refuses anywhere in the address.
pub open spec fn spec_email_forbidden(c: char) -> bool {
    c == ' ' || c == '\t' || c == '\n' || c == '\r'
}

/// A valid email address for this service: exactly one `@`, neither at the
/// start nor at the end, and no whitespace anywhere.
pub open spec fn spec_email_valid(e: Seq<char>) -> bool {
    &&& exists|i: int|
        {
            &&& 0 < i < e.len() - 1
            &&& e[i] == '@'
            &&& forall|j: int| 0 <= j < e.len() && j != i ==> e[j] != '@'
        }
    &&& forall|j: int| 0 <= j < e.len() ==> !spec_email_forbidden(#[trigger] e[j])
}

/// Checks the email shape rule: exactly one `@`, with a non-empty local part
/// and a non-empty domain, and no whitespace.
pub fn is_valid_email(email: &str) -> (r: bool)
    ensures
        r == spec_email_valid(email@),
{
    let has_whitespace = find_char(email, ' ').is_some() || find_char(email, '\t').is_some()
        || find_char(email, '\n').is_some() || find_char(email, '\r').is_some();
    if has_whitespace {
        return false;
    }
    let len = email.unicode_len();
    match find_char(email, '@') {
        None => {
            proof {
                assert forall|i: int| !({
                    &&& 0 < i < email@.len() - 1
                    &&& email@[i] == '@'
                    &&& forall|j: int| 0 <= j < email@.len() && j != i ==> email@[j] != '@'
                }) by {
                    if 0 < i < email@.len() - 1 {
                        assert(email@[i] != '@');
                    }
                }
            }
            false
        },
        Some(i) => {
            if i == 0 || i + 1 >= len {
                proof {
                    assert forall|w: int| !({
                        &&& 0 < w < email@.len() - 1
                        &&& email@[w] == '@'
                        &&& forall|j: int| 0 <= j < email@.len() && j != w ==> email@[j] != '@'
                    }) by {
                        if 0 < w < email@.len() - 1 && email@[w] == '@' {
                            assert(w != i);
                            assert(email@[i as int] == '@');
                        }
                    }
                }
                false
            } else {
                let rest = email.substring_char(i + 1, len);
                match find_char(rest, '@') {
                    Some(k) => {
                        proof {
                            let m = i + 1 + k;
                            assert(email@[m as int] == rest@[k as int]);
                            assert forall|w: int| !({
                                &&& 0 < w < email@.len() - 1
                                &&& email@[w] == '@'
                                &&& forall|j: int|
                                    0 <= j < email@.len() && j != w ==> email@[j] != '@'
                            }) by {
                                if 0 < w < email@.len() - 1 && email@[w] == '@' {
                                    if w != i {
                                        assert(email@[i as int] == '@');
                                    } else {
                                        assert(email@[m as int] == '@');
                                    }
                                }
                            }
                        }
                        false
                    },
                    None => {
                        proof {
                            assert forall|j: int|
                                0 <= j < email@.len() && j != i implies email@[j] != '@' by {
                                if j > i {
                                    assert(rest@[j - i - 1] == email@[j]);
                                }
                            }
                        }
                        true
                    },
                }
            }
        },
    }
}

/// The error codes of the email field: it is required, and must look like an
/// email address.
pub open spec fn spec_email_codes(req: NewUserRequest) -> Seq<Seq<char>> {
    match req.email {
        Option::None => seq!["email_required"@],
        Option::Some(e) => if !spec_email_valid(e@) {
            seq!["email_invalid"@]
        } else {
            Seq::<Seq<char>>::empty()
        },
    }
}

/// The error codes of the username field: it is required, and must be at
/// least three characters long.
pub open spec fn spec_username_codes(req: NewUserRequest) -> Seq<Seq<char>> {
    match req.username {
        Option::None => seq!["username_required"@],
        Option::Some(u) => if u@.len() < 3 {
            seq!["username_length_invalid"@]
        } else {
            Seq::<Seq<char>>::empty()
        },
    }
}

/// The error codes of the password field: it is required, must be at least
/// twelve characters long, and must equal the repeated password.
pub open spec fn spec_password_codes(req: NewUserRequest) -> Seq<Seq<char>> {
    match req.password {
        Option::None => seq!["password_required"@],
        Option::Some(p) => (if p@.len() < 12 {
            seq!["password_length_invalid"@]
        } else {
            Seq::<Seq<char>>::empty()
        }) + (if !(req.password_repeat matches Some(q) && q@ == p@) {
            seq!["password_not_matching"@]
        } else {
            Seq::<Seq<char>>::empty()
        }),
    }
}

/// The error codes of the repeated password field: it is required.
pub open spec fn spec_password_repeat_codes(req: NewUserRequest) -> Seq<Seq<char>> {
    match req.password_repeat {
        Option::None => seq!["password_repeat_required"@],
        Option::Some(_) => Seq::<Seq<char>>::empty(),
    }
}

/// All error codes of a registration request, in field order.
pub open spec fn spec_register_codes(req: NewUserRequest) -> Seq<Seq<char>> {
    spec_email_codes(req) + spec_username_codes(req) + spec_password_codes(req)
        + spec_password_repeat_codes(req)
}

/// All error codes of a login request, in field order: the identifier is
/// required, and the password is required and must be at least twelve
/// characters long.
pub open spec fn spec_login_codes(user: LoginUser) -> Seq<Seq<char>> {
    (match user.identifier {
        Option::None => seq!["identifier_required"@],
        Option::Some(_) => Seq::<Seq<char>>::empty(),
    }) + (match user.password {
        Option::None => seq!["password_required"@],
        Option::Some(p) => if p@.len() < 12 {
            seq!["password_required"@]
        } else {
            Seq::<Seq<char>>::empty()
        },
    })
}

impl NewUserRequest {
    /// Collects the request's error codes, or nothing when it is valid.
    pub fn parse_error_codes(&self) -> (r: Option<Vec<String>>)
        ensures
            (match r {
                Some(v) => spec_codes(v) == spec_register_codes(*self) && spec_register_codes(
                    *self,
                ).len() > 0,
                None => spec_register_codes(*self).len() == 0,
            }),
    {
        let mut v: Vec<String> = Vec::new();
        match &self.email {
            None => { v.push("email_required".to_owned()) },
            Some(e) => {
                if !is_valid_email(e.as_str()) {
                    v.push("email_invalid".to_owned());
                }
            },
        }
        proof {
            assert(spec_codes(v) =~= spec_email_codes(*self));
        }
        let ghost after_email = spec_codes(v);
        match &self.username {
            None => { v.push("username_required".to_owned()) },
            Some(u) => {
                if u.as_str().unicode_len() < 3 {
                    v.push("username_length_invalid".to_owned());
                }
            },
        }
        proof {
            assert(spec_codes(v) =~= after_email + spec_username_codes(*self));
        }
        let ghost after_username = spec_codes(v);
        match &self.password {
            None => { v.push("password_required".to_owned()) },
            Some(p) => {
                if p.as_str().unicode_len() < 12 {
                    v.push("password_length_invalid".to_owned());
                }
                let matching = match &self.password_repeat {
                    Some(q) => crate::util::strings::str_eq(p.as_str(), q.as_str()),
                    None => false,
                };
                if !matching {
                    v.push("password_not_matching".to_owned());
                }
            },
        }
        proof {
            assert(spec_codes(v) =~= after_username + spec_password_codes(*self));
        }
        let ghost after_password = spec_codes(v);
        if self.password_repeat.is_none() {
            v.push("password_repeat_required".to_owned());
        }
        proof {
            assert(spec_codes(v) =~= after_password + spec_password_repeat_codes(*self));
            assert(spec_codes(v) =~= spec_register_codes(*self));
        }
        if v.len() == 0 {
            None
        } else {
            Some(v)
        }
    }

    /// Rejects an invalid request with its error codes and the
    /// unprocessable-entity status.
    pub fn validate_model(&self) -> (r: Result<(), Error>)
        ensures
            (match r {
                Ok(()) => spec_register_codes(*self).len() == 0,
                Err(e) => spec_register_codes(*self).len() > 0 && is_coded_error(
                    e,
                    spec_register_codes(*self),
                    STATUS_UNPROCESSABLE_ENTITY,
                ),
            }),
    {
        match self.parse_error_codes() {
            Some(error_codes) => Err(
                Error::error(
                    Some((error_codes, ErrorType::RequestInvalid)),
                    STATUS_UNPROCESSABLE_ENTITY,
                ),
            ),
            None => Ok(()),
        }
    }
}

impl LoginUser {
    /// Collects the request's error codes, or nothing when it is valid.
    pub fn parse_error_codes(&self) -> (r: Option<Vec<String>>)
        ensures
            (match r {
                Some(v) => spec_codes(v) == spec_login_codes(*self) && spec_login_codes(
                    *self,
                ).len() > 0,
                None => spec_login_codes(*self).len() == 0,
            }),
    {
        let mut v: Vec<String> = Vec::new();
        if self.identifier.is_none() {
            v.push("identifier_required".to_owned());
        }
        let ghost after_identifier = spec_codes(v);
        match &self.password {
            None => { v.push("password_required".to_owned()) },
            Some(p) => {
                if p.as_str().unicode_len() < 12 {
                    v.push("password_required".to_owned());
                }
            },
        }
        proof {
            assert(spec_codes(v) =~= spec_login_codes(*self));
        }
        if v.len() == 0 {
            None
        } else {
            Some(v)
        }
    }

    /// Rejects an invalid request with its error codes and the
    /// unprocessable-entity status.
    pub fn validate_model(&self) -> (r: Result<(), Error>)
        ensures
            (match r {
                Ok(()) => spec_login_codes(*self).len() == 0,
                Err(e) => spec_login_codes(*self).len() > 0 && is_coded_error(
                    e,
                    spec_login_codes(*self),
                    STATUS_UNPROCESSABLE_ENTITY,
                ),
            }),
    {
        match self.parse_error_codes() {
            Some(error_codes) => Err(
                Error::error(
                    Some((error_codes, ErrorType::RequestInvalid)),
                    STATUS_UNPROCESSABLE_ENTITY,
                ),
            ),
            None => Ok(()),
        }
    }
}

} // verus!
