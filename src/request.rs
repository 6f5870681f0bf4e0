use vstd::prelude::*;
use crate::text::str_eq;

verus! {

/// Whether `url::Url::parse` accepts `s`.
pub uninterp spec fn url_parses(s: Seq<char>) -> bool;

/// The decoded name/value pairs of the query of the URL `s`, in order, as
/// `url::Url::query_pairs` yields them.
pub uninterp spec fn url_query_pairs(s: Seq<char>) -> Seq<(Seq<char>, Seq<char>)>;

/// Relies on `url::Url::parse` and `url::Url::query_pairs`: the decoded
/// query pairs of `s`, when it is a URL.
#[verifier::external_body]
fn url_query(s: &str) -> (r: Option<Vec<(String, String)>>)
    ensures
        r is Some == url_parses(s@),
        r matches Some(v) ==> pairs_view(v@) == url_query_pairs(s@),
{
    url::Url::parse(s).ok().map(|u| u.query_pairs().into_owned().collect())
}

/// The pairs as texts.
pub open spec fn pairs_view(pairs: Seq<(String, String)>) -> Seq<(Seq<char>, Seq<char>)> {
    pairs.map_values(|p: (String, String)| (p.0@, p.1@))
}

/// The value of the last pair named `name`, if any: a later pair overrides
/// an earlier one.
pub open spec fn param_value(pairs: Seq<(Seq<char>, Seq<char>)>, name: Seq<char>) -> Option<Seq<char>>
    decreases pairs.len(),
{
    if pairs.len() == 0 {
        None
    } else if pairs.last().0 == name {
        Some(pairs.last().1)
    } else {
        param_value(pairs.drop_last(), name)
    }
}

/// Looks up a query parameter among decoded pairs; the last one wins.
pub fn query_param(pairs: &Vec<(String, String)>, name: &str) -> (r: Option<String>)
    ensures
        match param_value(pairs_view(pairs@), name@) {
            None => r is None,
            Some(v) => r matches Some(s) && s@ == v,
        },
{
    let ghost all = pairs_view(pairs@);
    let mut found: Option<String> = None;
    let mut i: usize = 0;
    while i < pairs.len()
        invariant
            i <= pairs.len(),
            all == pairs_view(pairs@),
            match param_value(all.subrange(0, i as int), name@) {
                None => found is None,
                Some(v) => found matches Some(s) && s@ == v,
            },
        decreases pairs.len() - i,
    {
        assert(all.subrange(0, i + 1).drop_last() =~= all.subrange(0, i as int));
        if str_eq(pairs[i].0.as_str(), name) {
            found = Some(pairs[i].1.clone());
        }
        i = i + 1;
    }
    assert(all.subrange(0, i as int) =~= all);
    found
}

/// The `repo` parameter of the request URI `uri`, if it is a URL that has one.
pub open spec fn uri_repo(uri: Seq<char>) -> Option<Seq<char>> {
    if url_parses(uri) {
        param_value(url_query_pairs(uri), "repo"@)
    } else {
        None
    }
}

/// The `repo` parameter of a request URI; none when the URI is no URL.
pub fn repo_from_uri(uri: &str) -> (r: Option<String>)
    ensures
        !url_parses(uri@) ==> r is None,
        url_parses(uri@) ==> match param_value(url_query_pairs(uri@), "repo"@) {
            None => r is None,
            Some(v) => r matches Some(s) && s@ == v,
        },
        match uri_repo(uri@) {
            None => r is None,
            Some(v) => r matches Some(s) && s@ == v,
        },
{
    match url_query(uri) {
        None => None,
        Some(pairs) => query_param(&pairs, "repo"),
    }
}

} // verus!
