//! A plain model of the request/response cookie jar: named values with the
//! attributes the service sets on them. The transport layer carries these to
//! and from the wire (and applies its own encryption); the core only reads
//! and writes plain values.

use vstd::prelude::*;

verus! {

/// One cookie: its name, value and the attributes the service sets.
/// `max_age` is in seconds; `expires` is a Unix timestamp.
#[derive(Debug)]
pub struct Cookie {
    pub name: String,
    pub value: String,
    pub max_age: i64,
    pub expires: i64,
    pub secure: bool,
    pub http_only: bool,
    pub same_site: bool,
}

/// The mathematical value of a cookie.
pub ghost struct CookieView {
    pub name: Seq<char>,
    pub value: Seq<char>,
    pub max_age: int,
    pub expires: int,
    pub secure: bool,
    pub http_only: bool,
    pub same_site: bool,
}

impl View for Cookie {
    type V = CookieView;

    open spec fn view(&self) -> CookieView {
        CookieView {
            name: self.name@,
            value: self.value@,
            max_age: self.max_age as int,
            expires: self.expires as int,
            secure: self.secure,
            http_only: self.http_only,
            same_site: self.same_site,
        }
    }
}

impl Clone for Cookie {
    fn clone(&self) -> (res: Self)
        ensures
            res@ == self@,
    {
        Cookie {
            name: self.name.clone(),
            value: self.value.clone(),
            max_age: self.max_age,
            expires: self.expires,
            secure: self.secure,
            http_only: self.http_only,
            same_site: self.same_site,
        }
    }
}

/// The jar of cookies attached to a request or response. A later cookie with
/// the same name shadows an earlier one.
#[derive(Debug)]
pub struct CookieJar {
    pub cookies: Vec<Cookie>,
}

impl View for CookieJar {
    type V = Seq<CookieView>;

    open spec fn view(&self) -> Seq<CookieView> {
        self.cookies@.map_values(|c: Cookie| c@)
    }
}

/// The cookie a lookup by name returns: the most recently added one with
/// that name.
pub open spec fn spec_jar_get(cookies: Seq<CookieView>, name: Seq<char>) -> Option<CookieView>
    decreases cookies.len(),
{
    if cookies.len() == 0 {
        None
    } else if cookies.last().name == name {
        Some(cookies.last())
    } else {
        spec_jar_get(cookies.drop_last(), name)
    }
}

/// A jar whose lookup finds nothing holds no cookie with the name at all.
pub proof fn lemma_jar_get_none(cookies: Seq<CookieView>, name: Seq<char>)
    requires
        spec_jar_get(cookies, name) is None,
    ensures
        forall|i: int| 0 <= i < cookies.len() ==> (#[trigger] cookies[i]).name != name,
    decreases cookies.len(),
{
    if cookies.len() > 0 {
        lemma_jar_get_none(cookies.drop_last(), name);
        assert forall|i: int| 0 <= i < cookies.len() implies (#[trigger] cookies[i]).name
            != name by {
            if i < cookies.len() - 1 {
                assert(cookies.drop_last()[i] == cookies[i]);
            }
        }
    }
}

/// Dropping a suffix without the name does not change the lookup result.
proof fn lemma_jar_get_skip(cookies: Seq<CookieView>, name: Seq<char>, i: int)
    requires
        0 <= i <= cookies.len(),
        forall|j: int| i <= j < cookies.len() ==> (#[trigger] cookies[j]).name != name,
    ensures
        spec_jar_get(cookies, name) == spec_jar_get(cookies.subrange(0, i), name),
    decreases cookies.len() - i,
{
    if i < cookies.len() {
        lemma_jar_get_skip(cookies, name, i + 1);
        assert(cookies.subrange(0, i + 1).drop_last() =~= cookies.subrange(0, i));
        assert(cookies.subrange(0, i + 1).last() == cookies[i]);
    } else {
        assert(cookies.subrange(0, cookies.len() as int) =~= cookies);
    }
}

impl CookieJar {
    /// An empty jar.
    pub fn new() -> (r: Self)
        ensures
            r@.len() == 0,
    {
        CookieJar { cookies: Vec::new() }
    }

    /// Adds a cookie; it shadows earlier cookies of the same name.
    pub fn add(&mut self, cookie: Cookie)
        ensures
            final(self)@ == old(self)@.push(cookie@),
    {
        let ghost pre = self@;
        self.cookies.push(cookie);
        proof {
            assert(self@ =~= pre.push(self.cookies@.last()@));
        }
    }

    /// Looks the most recently added cookie with the given name up.
    pub fn get(&self, name: &str) -> (r: Option<Cookie>)
        ensures
            (match r {
                Some(c) => spec_jar_get(self@, name@) == Some(c@),
                None => spec_jar_get(self@, name@) is None,
            }),
    {
        let n = self.cookies.len();
        let mut i: usize = n;
        while i > 0
            invariant
                0 <= i <= n,
                n == self@.len(),
                forall|j: int| i <= j < n ==> (#[trigger] self@[j]).name != name@,
            decreases i,
        {
            i = i - 1;
            if crate::util::strings::str_eq(self.cookies[i].name.as_str(), name) {
                proof {
                    lemma_jar_get_skip(self@, name@, i + 1);
                    assert(self@.subrange(0, i + 1).last() == self@[i as int]);
                }
                return Some(self.cookies[i].clone());
            }
        }
        proof {
            lemma_jar_get_skip(self@, name@, 0);
        }
        None
    }

    /// Removes every cookie with the given name.
    pub fn remove(&mut self, name: &str)
        ensures
            forall|c: CookieView| final(self)@.contains(c) ==> old(self)@.contains(c) && c.name != name@,
            forall|c: CookieView|
                old(self)@.contains(c) && c.name != name@ ==> final(self)@.contains(c),
    {
        let mut kept: Vec<Cookie> = Vec::new();
        let n = self.cookies.len();
        let mut i: usize = 0;
        while i < n
            invariant
                0 <= i <= n,
                n == self@.len(),
                *self == *old(self),
                forall|c: CookieView|
                    kept@.map_values(|k: Cookie| k@).contains(c) ==> self@.contains(c) && c.name
                        != name@,
                forall|j: int|
                    0 <= j < i && (#[trigger] self@[j]).name != name@ ==> kept@.map_values(
                        |k: Cookie| k@,
                    ).contains(self@[j]),
            decreases n - i,
        {
            if !crate::util::strings::str_eq(self.cookies[i].name.as_str(), name) {
                let ghost pre = kept@.map_values(|k: Cookie| k@);
                kept.push(self.cookies[i].clone());
                proof {
                    let ghost post = kept@.map_values(|k: Cookie| k@);
                    assert(post =~= pre.push(self@[i as int]));
                    assert(self@.contains(self@[i as int]));
                    assert forall|c: CookieView| post.contains(c) implies self@.contains(c)
                        && c.name != name@ by {
                        let j = choose|j: int| 0 <= j < post.len() && post[j] == c;
                        if j < pre.len() {
                            assert(pre[j] == c);
                            assert(pre.contains(c));
                        }
                    }
                    assert(post.last() == self@[i as int]);
                    assert(post.contains(self@[i as int]));
                    assert forall|j: int|
                        0 <= j < i + 1 && (#[trigger] self@[j]).name != name@ implies post.contains(
                        self@[j],
                    ) by {
                        if j < i {
                            assert(pre.contains(self@[j]));
                            let k = choose|k: int| 0 <= k < pre.len() && pre[k] == self@[j];
                            assert(post[k] == self@[j]);
                        }
                    }
                }
            }
            i = i + 1;
        }
        self.cookies = kept;
    }
}

} // verus!
