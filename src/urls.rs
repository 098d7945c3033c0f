//! The parts of the `url` crate that the library relies on.
use vstd::prelude::*;

verus! {

#[verifier::external_type_specification]
#[verifier::external_body]
pub struct ExUrl(url::Url);

#[verifier::external_type_specification]
#[verifier::external_body]
pub struct ExParseError(url::ParseError);

/// Whether `url::Url::parse` accepts a text as an absolute URL.
pub uninterp spec fn parses_as_url(s: Seq<char>) -> bool;

/// The URL that `url::Url::parse` makes of a text it accepts.
pub uninterp spec fn parsed_url(s: Seq<char>) -> url::Url;

/// Relies on `url::Url::parse`: the outcome depends on the text alone, and
/// an empty text, which has no scheme, is refused.
#[verifier::external_body]
pub(crate) fn parse_url(s: &str) -> (r: Result<url::Url, url::ParseError>)
    ensures
        r is Ok <==> parses_as_url(s@),
        r is Ok ==> r->Ok_0 == parsed_url(s@),
        s@.len() == 0 ==> r is Err,
{
    url::Url::parse(s)
}

/// The text of a URL after one `name=value` pair is appended to its query.
pub uninterp spec fn query_pair_appended(url: Seq<char>, name: Seq<char>, value: Seq<char>) -> Seq<
    char,
>;

/// Relies on `url::Url::query_pairs_mut` and the `append_pair` of the
/// serializer it hands out: the pair is form-encoded and added after the
/// query's existing pairs, and the result depends on the texts alone. The
/// text is taken in through `url::Url::parse`, whose refusal gives `None`,
/// and handed back as the URL's serialization, which `url::Url::parse`
/// accepts again (the url crate checks this of every URL it builds).
#[verifier::external_body]
pub(crate) fn append_query_pair(url: &str, name: &str, value: &str) -> (r: Option<String>)
    ensures
        r is Some <==> parses_as_url(url@),
        r is Some ==> r->0@ == query_pair_appended(url@, name@, value@),
        r is Some ==> parses_as_url(r->0@),
{
    let mut u = url::Url::parse(url).ok()?;
    u.query_pairs_mut().append_pair(name, value);
    Some(u.into())
}

} // verus!
