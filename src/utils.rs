use crate::strmap::{assoc_map_opt, opt_pairs_view, StrMap};
use vstd::prelude::*;

verus! {

/// What the cookies of a request are called by: name to value.
pub type CookieMap = StrMap;

/// The entries that `cookie::Cookie::split_parse` yields for a `Cookie`
/// header: one per non-blank `;`-separated piece, the name and the value of
/// that piece, or nothing where it does not parse.
pub uninterp spec fn cookie_entries(header: Seq<char>) -> Seq<Option<(Seq<char>, Seq<char>)>>;

/// Relies on `cookie::Cookie::split_parse`: it splits a `Cookie` header at
/// `;` and parses each non-blank piece, without percent-decoding; an empty
/// header holds no piece.
#[verifier::external_body]
fn split_cookie_header(header: &str) -> (r: Vec<Option<(String, String)>>)
    ensures
        opt_pairs_view(r@) == cookie_entries(header@),
        header@.len() == 0 ==> r@.len() == 0,
{
    cookie::Cookie::split_parse(header)
        .map(|c| c.ok().map(|c| (c.name().to_string(), c.value().to_string())))
        .collect()
}

/// The cookies that a `Cookie` header names. A piece that does not parse is
/// skipped; where a name comes twice, the later value is kept.
pub fn parse_cookie(cookies_string: &str) -> (r: CookieMap)
    ensures
        r.wf(),
        r@ == assoc_map_opt(cookie_entries(cookies_string@)),
        cookies_string@.len() == 0 ==> r@ == Map::<Seq<char>, Seq<char>>::empty(),
{
    let entries = split_cookie_header(cookies_string);
    let r = StrMap::from_pairs(entries);
    proof {
        if cookies_string@.len() == 0 {
            assert(cookie_entries(cookies_string@).len() == 0);
        }
    }
    r
}

} // verus!
