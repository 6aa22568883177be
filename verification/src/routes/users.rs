//! The authentication probe: a request that carries a guard-accepted access
//! token is answered with a bare OK.

use crate::util::authorization::AccessToken;
use crate::util::response::STATUS_OK;
use vstd::prelude::*;

verus! {

/// Answers OK for a request the access guard has already admitted.
pub fn authenticate(_access_token: AccessToken) -> (r: u16)
    ensures
        r == STATUS_OK,
{
    STATUS_OK
}

} // verus!
