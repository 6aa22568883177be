//! The refresh-token store: one record per active session, looked up by the
//! opaque token string and deleted the moment it is consumed or revoked.
//!
//! The store keeps at most one record per token string: inserting a token
//! that is already present replaces the old record, so a token can never
//! denote two live sessions at once. Rotation itself (find, delete, re-issue)
//! is driven by the session manager, not by the store.

use crate::models::user::{NewRefreshToken, RefreshToken, RefreshTokenView};
use crate::util::response::{Error, STATUS_UNAUTHORIZED, is_plain_error};
use crate::util::strings::str_eq;
use vstd::prelude::*;

verus! {

/// The store of refresh-token records. Ids grow monotonically; token strings
/// are unique.
#[derive(Debug)]
pub struct TokenStore {
    pub records: Vec<RefreshToken>,
    pub next_id: i32,
}

impl View for TokenStore {
    type V = Seq<RefreshTokenView>;

    open spec fn view(&self) -> Seq<RefreshTokenView> {
        self.records@.map_values(|r: RefreshToken| r@)
    }
}

/// Holds when some record carries the given token string.
pub open spec fn has_token(records: Seq<RefreshTokenView>, token: Seq<char>) -> bool {
    exists|i: int| 0 <= i < records.len() && records[i].token == token
}

/// Holds when some record carries the given id.
pub open spec fn has_id(records: Seq<RefreshTokenView>, id: int) -> bool {
    exists|i: int| 0 <= i < records.len() && records[i].id == id
}

impl TokenStore {
    /// Well-formed store: ids are positive, below the next id to assign, and
    /// unique, and token strings are unique.
    pub open spec fn wf(self) -> bool {
        &&& 1 <= self.next_id
        &&& forall|i: int| 0 <= i < self@.len() ==> 0 < (#[trigger] self@[i]).id < self.next_id
        &&& forall|i: int, j: int| 0 <= i < j < self@.len() ==> self@[i].id != self@[j].id
        &&& forall|i: int, j: int|
            0 <= i < j < self@.len() ==> self@[i].token != self@[j].token
    }

    /// An empty store; ids start at one.
    pub fn new() -> (r: Self)
        ensures
            r.wf(),
            r@.len() == 0,
            r.next_id == 1,
    {
        TokenStore { records: Vec::new(), next_id: 1 }
    }
}

/// In a well-formed store, a token string denotes at most one record.
pub proof fn lemma_token_unique(s: TokenStore, r1: RefreshTokenView, r2: RefreshTokenView)
    requires
        s.wf(),
        s@.contains(r1),
        s@.contains(r2),
        r1.token == r2.token,
    ensures
        r1 == r2,
{
    let i = choose|i: int| 0 <= i < s@.len() && s@[i] == r1;
    let j = choose|j: int| 0 <= j < s@.len() && s@[j] == r2;
    if i < j {
        assert(s@[i].token != s@[j].token);
    } else if j < i {
        assert(s@[j].token != s@[i].token);
    }
}

/// In a well-formed store, an id denotes at most one record.
pub proof fn lemma_id_unique(s: TokenStore, r1: RefreshTokenView, r2: RefreshTokenView)
    requires
        s.wf(),
        s@.contains(r1),
        s@.contains(r2),
        r1.id == r2.id,
    ensures
        r1 == r2,
{
    let i = choose|i: int| 0 <= i < s@.len() && s@[i] == r1;
    let j = choose|j: int| 0 <= j < s@.len() && s@[j] == r2;
    if i < j {
        assert(s@[i].id != s@[j].id);
    } else if j < i {
        assert(s@[j].id != s@[i].id);
    }
}

/// Persists a refresh-token record under a fresh id. A record that already
/// carries the same token string is replaced, so the token still denotes
/// exactly one session.
pub fn insert(store: &mut TokenStore, refresh_token: NewRefreshToken) -> (r: Result<usize, Error>)
    requires
        old(store).wf(),
        old(store).next_id < i32::MAX,
    ensures
        final(store).wf(),
        r matches Ok(n) && n == 1,
        final(store).next_id == old(store).next_id + 1,
        final(store)@.contains(
            RefreshTokenView {
                id: old(store).next_id as int,
                token: refresh_token.token@,
                expiry: refresh_token.expiry as int,
                user_id: refresh_token.user_id as int,
            },
        ),
        forall|rec: RefreshTokenView|
            final(store)@.contains(rec) ==> rec == (RefreshTokenView {
                id: old(store).next_id as int,
                token: refresh_token.token@,
                expiry: refresh_token.expiry as int,
                user_id: refresh_token.user_id as int,
            }) || (old(store)@.contains(rec) && rec.token != refresh_token.token@),
        forall|rec: RefreshTokenView|
            old(store)@.contains(rec) && rec.token != refresh_token.token@ ==> final(store)@.contains(rec),
{
    // Drop any record that already carries this token string.
    let n = store.records.len();
    let mut i: usize = 0;
    let mut found: Option<usize> = None;
    while i < n
        invariant
            0 <= i <= n,
            n == store@.len(),
            (match found {
                Some(k) => k < i && store@[k as int].token == refresh_token.token@,
                None => forall|j: int|
                    0 <= j < i ==> (#[trigger] store@[j]).token != refresh_token.token@,
            }),
        decreases n - i,
    {
        if found.is_none() && str_eq(
            store.records[i].token.as_str(),
            refresh_token.token.as_str(),
        ) {
            found = Some(i);
        }
        i = i + 1;
    }
    let ghost pre = store@;
    if let Some(k) = found {
        store.records.remove(k);
        proof {
            assert(store@ =~= pre.remove(k as int));
            // No record carries the token any more: only index `k` did.
            assert forall|j: int| 0 <= j < store@.len() implies (#[trigger] store@[j]).token
                != refresh_token.token@ by {
                if j < k {
                    assert(store@[j] == pre[j]);
                } else {
                    assert(store@[j] == pre[j + 1]);
                }
            }
            assert forall|j: int| 0 <= j < store@.len() implies pre.contains(#[trigger] store@[j])
                by {
                if j < k {
                    assert(store@[j] == pre[j]);
                } else {
                    assert(store@[j] == pre[j + 1]);
                }
            }
            assert forall|rec: RefreshTokenView|
                pre.contains(rec) && rec.token != refresh_token.token@ implies store@.contains(
                rec,
            ) by {
                let j = choose|j: int| 0 <= j < pre.len() && pre[j] == rec;
                if j < k {
                    assert(store@[j] == rec);
                } else if j > k {
                    assert(store@[j - 1] == rec);
                }
            }
            assert forall|a: int, b: int| 0 <= a < b < store@.len() implies store@[a].id
                != store@[b].id && store@[a].token != store@[b].token by {
                if b < k {
                } else if a < k {
                    assert(store@[a] == pre[a] && store@[b] == pre[b + 1]);
                } else {
                    assert(store@[a] == pre[a + 1] && store@[b] == pre[b + 1]);
                }
            }
        }
    } else {
        proof {
            assert(store@ =~= pre);
        }
    }

    let ghost mid = store@;
    let record = RefreshToken {
        id: store.next_id,
        token: refresh_token.token,
        expiry: refresh_token.expiry,
        user_id: refresh_token.user_id,
    };
    let ghost new_view = record@;
    store.records.push(record);
    store.next_id = store.next_id + 1;
    proof {
        assert(store@ =~= mid.push(new_view));
        assert(store@[store@.len() - 1] == new_view);
        assert(store@.contains(new_view));
        assert forall|rec: RefreshTokenView| store@.contains(rec) implies rec == new_view || (
        old(store)@.contains(rec) && rec.token != refresh_token.token@) by {
            let j = choose|j: int| 0 <= j < store@.len() && store@[j] == rec;
            if j < store@.len() - 1 {
                assert(mid[j] == rec);
                assert(mid.contains(rec));
            }
        }
        assert forall|rec: RefreshTokenView|
            old(store)@.contains(rec) && rec.token != refresh_token.token@ implies store@.contains(
            rec,
        ) by {
            assert(mid.contains(rec));
            let j = choose|j: int| 0 <= j < mid.len() && mid[j] == rec;
            assert(store@[j] == rec);
        }
    }
    Ok(1)
}

/// The first record carrying the given token string, if any.
pub open spec fn spec_find_token(records: Seq<RefreshTokenView>, token: Seq<char>) -> Option<
    RefreshTokenView,
> {
    if has_token(records, token) {
        Some(records[choose|i: int| 0 <= i < records.len() && records[i].token == token])
    } else {
        None
    }
}

/// Looks a record up by its token string. A token no record carries is
/// reported as unauthorized: it was rotated away, revoked, or never issued.
pub fn find_by_token(store: &TokenStore, token: String) -> (r: Result<RefreshToken, Error>)
    requires
        store.wf(),
    ensures
        (match r {
            Ok(rec) => store@.contains(rec@) && rec@.token == token@,
            Err(e) => is_plain_error(e, STATUS_UNAUTHORIZED) && !has_token(store@, token@),
        }),
{
    let n = store.records.len();
    let mut i: usize = 0;
    while i < n
        invariant
            0 <= i <= n,
            n == store@.len(),
            forall|j: int| 0 <= j < i ==> (#[trigger] store@[j]).token != token@,
        decreases n - i,
    {
        if str_eq(store.records[i].token.as_str(), token.as_str()) {
            let rec = store.records[i].clone();
            proof {
                assert(store@.contains(store@[i as int]));
            }
            return Ok(rec);
        }
        i = i + 1;
    }
    Err(Error::Error(STATUS_UNAUTHORIZED))
}

/// Deletes the record with the given id, reporting how many records were
/// removed: one when the id was present, zero otherwise.
pub fn delete(store: &mut TokenStore, id: i32) -> (r: Result<usize, Error>)
    requires
        old(store).wf(),
    ensures
        final(store).wf(),
        final(store).next_id == old(store).next_id,
        r matches Ok(n) && n == (if has_id(old(store)@, id as int) {
            1int
        } else {
            0int
        }),
        forall|rec: RefreshTokenView|
            final(store)@.contains(rec) <==> (old(store)@.contains(rec) && rec.id != id),
{
    let n = store.records.len();
    let mut i: usize = 0;
    while i < n
        invariant
            0 <= i <= n,
            n == store@.len(),
            *store == *old(store),
            old(store).wf(),
            forall|j: int| 0 <= j < i ==> (#[trigger] store@[j]).id != id,
        decreases n - i,
    {
        if store.records[i].id == id {
            let ghost pre = store@;
            store.records.remove(i);
            proof {
                assert(store@ =~= pre.remove(i as int));
                assert(pre.contains(pre[i as int]));
                assert forall|rec: RefreshTokenView| store@.contains(rec) implies (pre.contains(
                    rec,
                ) && rec.id != id) by {
                    let j = choose|j: int| 0 <= j < store@.len() && store@[j] == rec;
                    if j < i {
                        assert(pre[j] == rec);
                    } else {
                        assert(pre[j + 1] == rec);
                    }
                }
                assert forall|rec: RefreshTokenView|
                    pre.contains(rec) && rec.id != id implies store@.contains(rec) by {
                    let j = choose|j: int| 0 <= j < pre.len() && pre[j] == rec;
                    if j < i {
                        assert(store@[j] == rec);
                    } else if j > i {
                        assert(store@[j - 1] == rec);
                    }
                }
                assert forall|a: int, b: int| 0 <= a < b < store@.len() implies store@[a].id
                    != store@[b].id && store@[a].token != store@[b].token by {
                    if b < i {
                    } else if a < i {
                        assert(store@[a] == pre[a] && store@[b] == pre[b + 1]);
                    } else {
                        assert(store@[a] == pre[a + 1] && store@[b] == pre[b + 1]);
                    }
                }
                assert forall|j: int| 0 <= j < store@.len() implies 0 < (#[trigger] store@[j]).id
                    < store.next_id by {
                    if j < i {
                        assert(store@[j] == pre[j]);
                    } else {
                        assert(store@[j] == pre[j + 1]);
                    }
                }
            }
            return Ok(1);
        }
        i = i + 1;
    }
    Ok(0)
}

} // verus!
