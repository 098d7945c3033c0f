//! The login initiator: the provider's authorization URL, with the
//! invitation parameters passed through when both are given.
use vstd::prelude::*;

use crate::text::opt_view;
use crate::urls::{append_query_pair, parses_as_url, query_pair_appended};

verus! {

/// Scopes requested from the provider.
pub const SCOPES: &'static str = "openid email username";

/// Names of the query parameters that carry an invitation.
pub const INVITATION: &'static str = "invitation";
pub const ORGANIZATION: &'static str = "organization";

/// The extra query pairs of a login: `invitation` then `organization`, both
/// verbatim, when both are given; none otherwise.
pub open spec fn extra_pairs(invitation: Option<Seq<char>>, organization: Option<Seq<char>>) -> Seq<
    (Seq<char>, Seq<char>),
> {
    match (invitation, organization) {
        (Some(i), Some(o)) => seq![(INVITATION@, i), (ORGANIZATION@, o)],
        _ => Seq::empty(),
    }
}

/// The query pairs as texts.
pub open spec fn pairs_view(v: Seq<(String, String)>) -> Seq<(Seq<char>, Seq<char>)> {
    v.map_values(|p: (String, String)| (p.0@, p.1@))
}

/// The query pairs that a login adds to the provider's authorization URL.
pub fn invitation_pairs(invitation: Option<&str>, organization: Option<&str>) -> (r: Vec<
    (String, String),
>)
    ensures
        pairs_view(r@) == extra_pairs(opt_view(invitation), opt_view(organization)),
{
    let mut r: Vec<(String, String)> = Vec::new();
    if let (Some(invite), Some(org)) = (invitation, organization) {
        r.push((String::from_str(INVITATION), String::from_str(invite)));
        r.push((String::from_str(ORGANIZATION), String::from_str(org)));
    }
    assert(pairs_view(r@) =~= extra_pairs(opt_view(invitation), opt_view(organization)));
    r
}

/// The text of `url` after each of `pairs` is appended to its query in
/// order, or `None` where a text on the way is not a URL.
pub open spec fn appended_all(url: Seq<char>, pairs: Seq<(Seq<char>, Seq<char>)>) -> Option<
    Seq<char>,
>
    decreases pairs.len(),
{
    if pairs.len() == 0 {
        Some(url)
    } else {
        match appended_all(url, pairs.drop_last()) {
            Some(u) => if parses_as_url(u) {
                Some(query_pair_appended(u, pairs.last().0, pairs.last().1))
            } else {
                None
            },
            None => None,
        }
    }
}

/// The URL the browser is sent to for login: the provider's authorization
/// URL `auth_url` with `invitation` and then `organization` appended to its
/// query when both are given, and unchanged otherwise. A URL always gives
/// `Some`; `None` comes only where pairs are to be appended to a text that
/// is not a URL.
pub fn accept_invite(auth_url: &str, invitation: Option<&str>, organization: Option<&str>) -> (r:
    Option<String>)
    ensures
        opt_view(r) == appended_all(
            auth_url@,
            extra_pairs(opt_view(invitation), opt_view(organization)),
        ),
        parses_as_url(auth_url@) ==> r is Some,
        invitation is None || organization is None ==> r is Some && r->0@ == auth_url@,
        invitation is Some && organization is Some ==> {
            &&& r is Some <==> parses_as_url(auth_url@)
            &&& r is Some ==> r->0@ == query_pair_appended(
                query_pair_appended(auth_url@, INVITATION@, invitation->0@),
                ORGANIZATION@,
                organization->0@,
            )
        },
{
    let pairs = invitation_pairs(invitation, organization);
    let ghost want = pairs_view(pairs@);
    let mut url = String::from_str(auth_url);
    let n = pairs.len();
    let mut i: usize = 0;
    while i < n
        invariant
            n == pairs@.len(),
            want == pairs_view(pairs@),
            want == extra_pairs(opt_view(invitation), opt_view(organization)),
            i <= n,
            appended_all(auth_url@, want.subrange(0, i as int)) == Some(url@),
            parses_as_url(auth_url@) ==> parses_as_url(url@),
            i == 0 ==> url@ == auth_url@,
        decreases n - i,
    {
        assert(want.subrange(0, i + 1).drop_last() =~= want.subrange(0, i as int));
        assert(want.subrange(0, i + 1).last() == (pairs@[i as int].0@, pairs@[i as int].1@));
        match append_query_pair(url.as_str(), pairs[i].0.as_str(), pairs[i].1.as_str()) {
            Some(next) => url = next,
            None => {
                assert(want.len() == n);
                assert(appended_all(auth_url@, want.subrange(0, i + 1)) is None);
                proof {
                    lemma_appended_all_stays_none(auth_url@, want, i as int + 1);
                    if invitation is Some && organization is Some {
                        lemma_two_pairs(auth_url@, want);
                    }
                }
                assert(want.subrange(0, n as int) =~= want);
                return None;
            },
        }
        i = i + 1;
    }
    assert(want.subrange(0, n as int) =~= want);
    proof {
        if invitation is Some && organization is Some {
            lemma_two_pairs(auth_url@, want);
        }
    }
    Some(url)
}

proof fn lemma_two_pairs(url: Seq<char>, pairs: Seq<(Seq<char>, Seq<char>)>)
    requires
        pairs.len() == 2,
    ensures
        ({
            let first = query_pair_appended(url, pairs[0].0, pairs[0].1);
            &&& appended_all(url, pairs) is Some <==> parses_as_url(url) && parses_as_url(first)
            &&& appended_all(url, pairs) is Some ==> appended_all(url, pairs)->0
                == query_pair_appended(first, pairs[1].0, pairs[1].1)
        }),
{
    let one = pairs.drop_last();
    assert(one.drop_last() =~= Seq::<(Seq<char>, Seq<char>)>::empty());
    assert(one.last() == pairs[0]);
    reveal_with_fuel(appended_all, 3);
}

proof fn lemma_appended_all_stays_none(url: Seq<char>, pairs: Seq<(Seq<char>, Seq<char>)>, k: int)
    requires
        0 <= k <= pairs.len(),
        appended_all(url, pairs.subrange(0, k)) is None,
    ensures
        appended_all(url, pairs) is None,
    decreases pairs.len() - k,
{
    if k < pairs.len() {
        assert(pairs.subrange(0, k + 1).drop_last() =~= pairs.subrange(0, k));
        lemma_appended_all_stays_none(url, pairs, k + 1);
    } else {
        assert(pairs.subrange(0, k) =~= pairs);
    }
}

} // verus!
