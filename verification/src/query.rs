//! Query building: the search text with its optional restrictions, and the
//! exact parameter list of the outbound request. No network work happens
//! here; these are pure value constructors.

use vstd::prelude::*;

verus! {

/// A search query, immutable once built. The optional fields become extra
/// exact-match request parameters only when present.
#[derive(Debug, Clone)]
pub struct SearchQuery {
    pub text: String,
    pub filetype: Option<String>,
    pub domain: Option<String>,
}

impl SearchQuery {
    /// Builds the query value. The text must already be non-empty; rejecting
    /// an empty query is the argument parser's responsibility.
    pub fn build(text: String, filetype: Option<String>, domain: Option<String>) -> (q:
        SearchQuery)
        requires
            text@.len() > 0,
        ensures
            q.text == text,
            q.filetype == filetype,
            q.domain == domain,
    {
        SearchQuery { text, filetype, domain }
    }
}

/// The view of an optional string.
pub open spec fn opt_view(o: Option<String>) -> Option<Seq<char>> {
    match o {
        Some(s) => Some(s@),
        None => None,
    }
}

/// The exact parameter list of the outbound request: `key`, `cx`, `q` always,
/// in that order, then `fileType` and `siteSearch` exactly when the optional
/// restriction was provided.
pub open spec fn params_spec(
    text: Seq<char>,
    filetype: Option<Seq<char>>,
    domain: Option<Seq<char>>,
    key: Seq<char>,
    cx: Seq<char>,
) -> Seq<(Seq<char>, Seq<char>)> {
    let base = seq![("key"@, key), ("cx"@, cx), ("q"@, text)];
    let with_ft = if filetype.is_some() {
        base.push(("fileType"@, filetype.unwrap()))
    } else {
        base
    };
    if domain.is_some() {
        with_ft.push(("siteSearch"@, domain.unwrap()))
    } else {
        with_ft
    }
}

/// The name/value views of an executable parameter list.
pub open spec fn pairs_view(s: Seq<(String, String)>) -> Seq<(Seq<char>, Seq<char>)> {
    Seq::new(s.len(), |i: int| (s[i].0@, s[i].1@))
}

/// Whether some parameter of the list carries the given name.
pub open spec fn has_param(ps: Seq<(Seq<char>, Seq<char>)>, name: Seq<char>) -> bool {
    exists|i: int| 0 <= i < ps.len() && (#[trigger] ps[i]).0 == name
}

/// Assembles the request parameters for a query and the two secrets.
pub fn request_params(q: &SearchQuery, api_key: &String, engine_id: &String) -> (r: Vec<
    (String, String),
>)
    ensures
        pairs_view(r@) == params_spec(
            q.text@,
            opt_view(q.filetype),
            opt_view(q.domain),
            api_key@,
            engine_id@,
        ),
{
    let mut r: Vec<(String, String)> = Vec::new();
    r.push(("key".to_owned(), api_key.clone()));
    r.push(("cx".to_owned(), engine_id.clone()));
    r.push(("q".to_owned(), q.text.clone()));
    if let Some(ft) = &q.filetype {
        r.push(("fileType".to_owned(), ft.clone()));
    }
    if let Some(d) = &q.domain {
        r.push(("siteSearch".to_owned(), d.clone()));
    }
    proof {
        assert(pairs_view(r@) =~= params_spec(
            q.text@,
            opt_view(q.filetype),
            opt_view(q.domain),
            api_key@,
            engine_id@,
        ));
    }
    r
}

/// The request always carries `q`, `key` and `cx`, and carries `fileType`
/// (respectively `siteSearch`) exactly when the filetype (domain) restriction
/// was provided.
pub proof fn lemma_request_params_complete(
    text: Seq<char>,
    filetype: Option<Seq<char>>,
    domain: Option<Seq<char>>,
    key: Seq<char>,
    cx: Seq<char>,
)
    ensures
        has_param(params_spec(text, filetype, domain, key, cx), "key"@),
        has_param(params_spec(text, filetype, domain, key, cx), "cx"@),
        has_param(params_spec(text, filetype, domain, key, cx), "q"@),
        has_param(params_spec(text, filetype, domain, key, cx), "fileType"@)
            <==> filetype.is_some(),
        has_param(params_spec(text, filetype, domain, key, cx), "siteSearch"@)
            <==> domain.is_some(),
{
    reveal_strlit("key");
    reveal_strlit("cx");
    reveal_strlit("q");
    reveal_strlit("fileType");
    reveal_strlit("siteSearch");
    let ps = params_spec(text, filetype, domain, key, cx);
    assert(ps[0].0 == "key"@);
    assert(ps[1].0 == "cx"@);
    assert(ps[2].0 == "q"@);
    if filetype.is_some() {
        assert(ps[3].0 == "fileType"@);
    } else {
        assert forall|i: int| 0 <= i < ps.len() implies (#[trigger] ps[i]).0 != "fileType"@ by {
            assert(i == 0 || i == 1 || i == 2 || i == 3);
            assert(ps[0].0 == "key"@ && "key"@.len() == 3);
            if domain.is_some() {
                assert(ps.len() == 4 && ps[3].0 == "siteSearch"@);
            }
            assert("fileType"@.len() == 8);
        }
    }
    if domain.is_some() {
        assert(ps[ps.len() - 1].0 == "siteSearch"@);
    } else {
        assert forall|i: int| 0 <= i < ps.len() implies (#[trigger] ps[i]).0 != "siteSearch"@ by {
            assert(i == 0 || i == 1 || i == 2 || i == 3);
            if filetype.is_some() {
                assert(ps.len() == 4 && ps[3].0 == "fileType"@);
            }
            assert("siteSearch"@.len() == 10);
        }
    }
}

} // verus!
