//! The session cookie, the jar of cookies a request carries, and the guard
//! that decides whether a request is authenticated.
use vstd::prelude::*;

use crate::text::str_eq;

verus! {

/// Name of the session cookie.
pub const HANDBALL: &'static str = "HANDBALL";

/// Lifetime of a freshly issued session cookie, in seconds.
pub const SESSION_MAX_AGE_SECS: u64 = 20;

/// The cookie's same-site policy.
#[derive(Clone, Copy, Debug, PartialEq, Eq, Structural)]
pub enum SameSite {
    Strict,
    Lax,
    Unrestricted,
}

/// One cookie, with the attributes set when it is issued.
#[derive(Debug)]
pub struct Cookie {
    pub name: String,
    pub value: String,
    pub same_site: SameSite,
    pub max_age_secs: Option<u64>,
}

/// A cookie as plain values.
pub struct CookieView {
    pub name: Seq<char>,
    pub value: Seq<char>,
    pub same_site: SameSite,
    pub max_age_secs: Option<u64>,
}

impl View for Cookie {
    type V = CookieView;

    open spec fn view(&self) -> CookieView {
        CookieView {
            name: self.name@,
            value: self.value@,
            same_site: self.same_site,
            max_age_secs: self.max_age_secs,
        }
    }
}

impl Cookie {
    /// A copy with the same name, value and attributes.
    pub fn copy(&self) -> (r: Cookie)
        ensures
            r@ == self@,
    {
        Cookie {
            name: self.name.clone(),
            value: self.value.clone(),
            same_site: self.same_site,
            max_age_secs: self.max_age_secs,
        }
    }
}

/// The cookies of one request or response, in the order they were set.
#[derive(Debug)]
pub struct CookieJar {
    pub cookies: Vec<Cookie>,
}

impl View for CookieJar {
    type V = Seq<CookieView>;

    open spec fn view(&self) -> Seq<CookieView> {
        self.cookies@.map_values(|c: Cookie| c@)
    }
}

/// The session cookie as it is issued: empty value, `SameSite=Lax`, short max-age.
pub open spec fn session_cookie() -> CookieView {
    CookieView {
        name: HANDBALL@,
        value: Seq::empty(),
        same_site: SameSite::Lax,
        max_age_secs: Some(SESSION_MAX_AGE_SECS),
    }
}

/// Whether some cookie in `s` has the given name.
pub open spec fn has_named(s: Seq<CookieView>, name: Seq<char>) -> bool {
    exists|i: int| 0 <= i < s.len() && (#[trigger] s[i]).name == name
}

/// The cookies of `s` whose name is not `name`, in order.
pub open spec fn without_named(s: Seq<CookieView>, name: Seq<char>) -> Seq<CookieView>
    decreases s.len(),
{
    if s.len() == 0 {
        s
    } else if s.last().name == name {
        without_named(s.drop_last(), name)
    } else {
        without_named(s.drop_last(), name).push(s.last())
    }
}

/// The jar after the session cookie is set: a cookie of the same name is replaced.
pub open spec fn issued(s: Seq<CookieView>) -> Seq<CookieView> {
    without_named(s, HANDBALL@).push(session_cookie())
}

/// Whether a client that honours Max-Age still presents `c` after `secs` seconds.
pub open spec fn alive_after(c: CookieView, secs: u64) -> bool {
    match c.max_age_secs {
        Some(age) => secs < age,
        None => true,
    }
}

/// The cookies of `s` that are still alive after `secs` seconds, in order.
pub open spec fn unexpired(s: Seq<CookieView>, secs: u64) -> Seq<CookieView>
    decreases s.len(),
{
    if s.len() == 0 {
        s
    } else if alive_after(s.last(), secs) {
        unexpired(s.drop_last(), secs).push(s.last())
    } else {
        unexpired(s.drop_last(), secs)
    }
}

/// Marker that a request carries a session.
#[derive(Debug, Clone, Copy, PartialEq, Eq, Structural)]
pub struct User;

/// The request carries no session cookie.
#[derive(Debug, Clone, Copy, PartialEq, Eq, Structural)]
pub struct NotAuthenticated;

impl CookieJar {
    /// A jar with no cookies.
    pub fn new() -> (r: CookieJar)
        ensures
            r@ == Seq::<CookieView>::empty(),
    {
        let r = CookieJar { cookies: Vec::new() };
        assert(r@ =~= Seq::<CookieView>::empty());
        r
    }

    /// Sets a cookie, replacing any cookie of the same name.
    pub fn add(&mut self, c: Cookie)
        ensures
            final(self)@ == without_named(old(self)@, c.name@).push(c@),
    {
        let ghost before = self@;
        let mut kept: Vec<Cookie> = Vec::new();
        let n = self.cookies.len();
        let mut i: usize = 0;
        while i < n
            invariant
                n == self.cookies@.len(),
                self@ == before,
                i <= n,
                kept@.map_values(|k: Cookie| k@) == without_named(
                    before.subrange(0, i as int),
                    c.name@,
                ),
            decreases n - i,
        {
            let ghost prefix = before.subrange(0, i as int);
            assert(before.subrange(0, i + 1).drop_last() =~= prefix);
            assert(before.subrange(0, i + 1).last() == self.cookies@[i as int]@);
            if !str_eq(self.cookies[i].name.as_str(), c.name.as_str()) {
                let k = self.cookies[i].copy();
                let ghost old_kept = kept@;
                kept.push(k);
                assert(kept@.map_values(|k: Cookie| k@) =~= old_kept.map_values(
                    |k: Cookie| k@,
                ).push(k@));
            }
            i = i + 1;
        }
        assert(before.subrange(0, n as int) =~= before);
        let ghost old_kept = kept@;
        let ghost cv = c@;
        kept.push(c);
        assert(kept@.map_values(|k: Cookie| k@) =~= old_kept.map_values(|k: Cookie| k@).push(
            cv,
        ));
        self.cookies = kept;
    }

    /// Whether the session cookie is present; its content is not examined.
    pub fn has_session(&self) -> (r: bool)
        ensures
            r == has_named(self@, HANDBALL@),
    {
        let n = self.cookies.len();
        let mut i: usize = 0;
        while i < n
            invariant
                n == self.cookies@.len(),
                i <= n,
                forall|j: int| 0 <= j < i ==> (#[trigger] self@[j]).name != HANDBALL@,
            decreases n - i,
        {
            if str_eq(self.cookies[i].name.as_str(), HANDBALL) {
                assert(self@[i as int].name == HANDBALL@);
                return true;
            }
            i = i + 1;
        }
        false
    }

    /// The cookies that a client honouring Max-Age still presents after
    /// `secs` seconds.
    pub fn after_elapsed(&self, secs: u64) -> (r: CookieJar)
        ensures
            r@ == unexpired(self@, secs),
    {
        let mut kept: Vec<Cookie> = Vec::new();
        let n = self.cookies.len();
        let mut i: usize = 0;
        while i < n
            invariant
                n == self.cookies@.len(),
                i <= n,
                kept@.map_values(|k: Cookie| k@) == unexpired(self@.subrange(0, i as int), secs),
            decreases n - i,
        {
            assert(self@.subrange(0, i + 1).drop_last() =~= self@.subrange(0, i as int));
            assert(self@.subrange(0, i + 1).last() == self.cookies@[i as int]@);
            let alive = match self.cookies[i].max_age_secs {
                Some(age) => secs < age,
                None => true,
            };
            if alive {
                let k = self.cookies[i].copy();
                let ghost old_kept = kept@;
                kept.push(k);
                assert(kept@.map_values(|k: Cookie| k@) =~= old_kept.map_values(
                    |k: Cookie| k@,
                ).push(k@));
            }
            i = i + 1;
        }
        assert(self@.subrange(0, n as int) =~= self@);
        CookieJar { cookies: kept }
    }
}

/// Sets the session cookie: empty value, `SameSite=Lax`, max-age of
/// twenty seconds, all set at once.
pub fn issue(jar: &mut CookieJar)
    ensures
        final(jar)@ == issued(old(jar)@),
{
    let c = Cookie {
        name: String::from_str(HANDBALL),
        value: String::new(),
        same_site: SameSite::Lax,
        max_age_secs: Some(SESSION_MAX_AGE_SECS),
    };
    assert(c@ == session_cookie()) by {
        assert(c@.value =~= Seq::<char>::empty());
    }
    jar.add(c);
}

impl User {
    /// The guard: a request is authenticated exactly when it carries the
    /// session cookie.
    pub fn from_request(jar: &CookieJar) -> (r: Result<User, NotAuthenticated>)
        ensures
            r is Ok <==> has_named(jar@, HANDBALL@),
    {
        if jar.has_session() {
            Ok(User)
        } else {
            Err(NotAuthenticated)
        }
    }
}

proof fn lemma_without_named_excludes(s: Seq<CookieView>, name: Seq<char>)
    ensures
        !has_named(without_named(s, name), name),
    decreases s.len(),
{
    if s.len() > 0 {
        lemma_without_named_excludes(s.drop_last(), name);
        let w = without_named(s.drop_last(), name);
        if s.last().name != name {
            assert forall|i: int| 0 <= i < w.push(s.last()).len() implies (#[trigger] w.push(
                s.last(),
            )[i]).name != name by {
                if i < w.len() {
                    assert(w.push(s.last())[i] == w[i]);
                }
            }
        }
    }
}

proof fn lemma_unexpired_subset(s: Seq<CookieView>, secs: u64, name: Seq<char>)
    requires
        !has_named(s, name),
    ensures
        !has_named(unexpired(s, secs), name),
    decreases s.len(),
{
    if s.len() > 0 {
        let d = s.drop_last();
        assert forall|i: int| 0 <= i < d.len() implies (#[trigger] d[i]).name != name by {
            assert(d[i] == s[i]);
        }
        lemma_unexpired_subset(d, secs, name);
        let u = unexpired(d, secs);
        if alive_after(s.last(), secs) {
            assert(s[s.len() - 1] == s.last());
            assert forall|i: int| 0 <= i < u.push(s.last()).len() implies (#[trigger] u.push(
                s.last(),
            )[i]).name != name by {
                if i < u.len() {
                    assert(u.push(s.last())[i] == u[i]);
                }
            }
        }
    }
}

/// Issuing the session cookie and presenting the jar on the next request
/// authenticates that request, whatever the jar held before.
pub proof fn lemma_issued_session_authenticates(before: Seq<CookieView>)
    ensures
        has_named(issued(before), HANDBALL@),
{
    let s = issued(before);
    assert(s[s.len() - 1].name == HANDBALL@);
}

/// A jar without a cookie named `HANDBALL`, empty or holding cookies of
/// other names only, does not authenticate.
pub proof fn lemma_no_session_cookie_rejected(s: Seq<CookieView>)
    requires
        forall|i: int| 0 <= i < s.len() ==> (#[trigger] s[i]).name != HANDBALL@,
    ensures
        !has_named(s, HANDBALL@),
{
}

/// Once the session cookie's max-age has elapsed, a client that honours
/// Max-Age no longer presents it, so the request is not authenticated.
pub proof fn lemma_expired_session_rejected(before: Seq<CookieView>, secs: u64)
    requires
        secs >= SESSION_MAX_AGE_SECS,
    ensures
        !has_named(unexpired(issued(before), secs), HANDBALL@),
{
    let w = without_named(before, HANDBALL@);
    let s = issued(before);
    lemma_without_named_excludes(before, HANDBALL@);
    assert(s.drop_last() =~= w);
    assert(!alive_after(s.last(), secs));
    assert(unexpired(s, secs) == unexpired(w, secs));
    lemma_unexpired_subset(w, secs, HANDBALL@);
}

} // verus!
