//! The trusted boundary to the `url` crate, and a verified lookup over
//! decoded query pairs. A logical reference is handed to `url::Url::parse`;
//! its components come back as plain values, named by uninterpreted
//! functions of the reference string alone.

use vstd::prelude::*;

verus! {

/// The components of a parsed reference, as plain values.
#[derive(Debug)]
pub struct UrlParts {
    pub scheme: String,
    pub path: String,
    pub query: Option<String>,
}

/// Whether `url::Url::parse` accepts the string.
pub uninterp spec fn url_parses(s: Seq<char>) -> bool;

/// The scheme component `url::Url::parse` extracts.
pub uninterp spec fn url_scheme(s: Seq<char>) -> Seq<char>;

/// The path component `url::Url::parse` extracts.
pub uninterp spec fn url_path(s: Seq<char>) -> Seq<char>;

/// The query component `url::Url::parse` extracts, if the URL has one.
pub uninterp spec fn url_query(s: Seq<char>) -> Option<Seq<char>>;

/// Relies on url::Url::parse: whether a string is a well-formed absolute
/// URL, and its scheme, path and query components, depend on the string
/// alone.
#[verifier::external_body]
pub fn parse_url_parts(s: &str) -> (r: Option<UrlParts>)
    ensures
        r is Some <==> url_parses(s@),
        r matches Some(p) ==> p.scheme@ == url_scheme(s@) && p.path@ == url_path(s@),
        r matches Some(p) ==> (match p.query {
            Some(q) => url_query(s@) == Some(q@),
            None => url_query(s@) is None,
        }),
{
    match url::Url::parse(s) {
        Ok(u) => Some(UrlParts {
            scheme: u.scheme().to_string(),
            path: u.path().to_string(),
            query: u.query().map(|q| q.to_string()),
        }),
        Err(_) => None,
    }
}

/// The key/value pairs `url::form_urlencoded::parse` decodes from a query
/// string.
pub uninterp spec fn query_pairs(q: Seq<char>) -> Seq<(Seq<char>, Seq<char>)>;

/// Relies on url::form_urlencoded::parse: the decoded key/value pairs of a
/// query string depend on the string alone.
#[verifier::external_body]
pub fn parse_query_pairs(q: &str) -> (r: Vec<(String, String)>)
    ensures
        r@.len() == query_pairs(q@).len(),
        forall|i: int|
            0 <= i < r@.len() ==> (#[trigger] r@[i]).0@ == query_pairs(q@)[i].0 && r@[i].1@
                == query_pairs(q@)[i].1,
{
    url::form_urlencoded::parse(q.as_bytes()).into_owned().collect()
}

/// The views of a vector of decoded pairs.
pub open spec fn pairs_view(v: Seq<(String, String)>) -> Seq<(Seq<char>, Seq<char>)> {
    Seq::new(v.len(), |i: int| (v[i].0@, v[i].1@))
}

/// The value under the first occurrence of a key, if the key occurs.
pub open spec fn lookup_pairs(ps: Seq<(Seq<char>, Seq<char>)>, key: Seq<char>) -> Option<
    Seq<char>,
>
    decreases ps.len(),
{
    if ps.len() == 0 {
        None
    } else if ps[0].0 == key {
        Some(ps[0].1)
    } else {
        lookup_pairs(ps.drop_first(), key)
    }
}

/// A key is found exactly when some pair carries it.
pub proof fn lemma_lookup_some_iff_key_present(ps: Seq<(Seq<char>, Seq<char>)>, key: Seq<char>)
    ensures
        lookup_pairs(ps, key) is Some <==> exists|i: int| 0 <= i < ps.len() && ps[i].0 == key,
    decreases ps.len(),
{
    if ps.len() > 0 && ps[0].0 != key {
        lemma_lookup_some_iff_key_present(ps.drop_first(), key);
        if lookup_pairs(ps, key) is Some {
            let i = choose|i: int|
                0 <= i < ps.drop_first().len() && ps.drop_first()[i].0 == key;
            assert(ps[i + 1].0 == key);
        }
        if exists|i: int| 0 <= i < ps.len() && ps[i].0 == key {
            let i = choose|i: int| 0 <= i < ps.len() && ps[i].0 == key;
            assert(ps.drop_first()[i - 1].0 == key);
        }
    }
}

/// Finds the value under the first occurrence of a key among decoded pairs.
pub fn lookup(pairs: &Vec<(String, String)>, key: &str) -> (r: Option<String>)
    ensures
        r matches Some(v) ==> lookup_pairs(pairs_view(pairs@), key@) == Some(v@),
        r is None ==> lookup_pairs(pairs_view(pairs@), key@) is None,
{
    let ghost pv = pairs_view(pairs@);
    proof {
        assert(pv.skip(0) =~= pv);
    }
    let mut i: usize = 0;
    while i < pairs.len()
        invariant
            i <= pairs.len(),
            pv == pairs_view(pairs@),
            pv.len() == pairs.len(),
            lookup_pairs(pv, key@) == lookup_pairs(pv.skip(i as int), key@),
        decreases pairs.len() - i,
    {
        let (k, v) = &pairs[i];
        proof {
            assert(pv.skip(i as int)[0] == pv[i as int]);
        }
        if crate::text::str_eq(k.as_str(), key) {
            return Some(v.clone());
        }
        proof {
            assert(pv.skip(i as int).drop_first() =~= pv.skip(i as int + 1));
        }
        i += 1;
    }
    proof {
        assert(pv.skip(pairs.len() as int) =~= Seq::empty());
    }
    None
}

} // verus!
