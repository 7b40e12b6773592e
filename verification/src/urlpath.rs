//! Normalization of the `url` field of an inbound request frame into the
//! path (with optional query) that is replayed against the local origin.
//!
//! The remote proxy may send either a bare path (`/x?y=1`), a path without
//! the leading slash (`x?y=1`), or an absolute URL (`https://h/x?y=1`); all
//! three forms must reach the local origin as the same path. Normalization
//! always yields a string that begins with `/`, and is therefore idempotent.
use vstd::prelude::*;
use vstd::string::StrSliceExecFns;
use vstd::string::StringExecFns;

verus! {

/// What `url::Url::parse` followed by `Url::path` and `Url::query` yields on
/// a given input: `None` when the input does not parse as an absolute URL,
/// otherwise the path joined with `?` and the query when a query is present.
/// The result is a function of the input characters alone.
pub uninterp spec fn url_path_and_query_of(s: Seq<char>) -> Option<Seq<char>>;

/// Relies on `url::Url::parse`, `Url::path` and `Url::query`: parsing either
/// fails, or yields a path and an optional query, both functions of the
/// input string alone.
#[verifier::external_body]
fn parse_absolute_path_query(s: &str) -> (r: Option<String>)
    ensures
        r is Some <==> url_path_and_query_of(s@) is Some,
        r is Some ==> r.unwrap()@ == url_path_and_query_of(s@).unwrap(),
{
    match url::Url::parse(s) {
        Ok(u) => match u.query() {
            Some(q) => Some(format!("{}?{}", u.path(), q)),
            None => Some(u.path().to_string()),
        },
        Err(_) => None,
    }
}

/// `s` begins with a `/`.
pub open spec fn leading_slash(s: Seq<char>) -> bool {
    s.len() > 0 && s[0] == '/'
}

/// The normalized request path for a given `url` field: a verbatim path when
/// the input already begins with `/`; the path and query of the input when
/// it parses as an absolute URL, given a leading slash if the parser did not
/// produce one; otherwise the input behind a fresh leading `/`.
pub open spec fn normalize_path_spec(s: Seq<char>) -> Seq<char> {
    if leading_slash(s) {
        s
    } else {
        match url_path_and_query_of(s) {
            Some(pq) => if leading_slash(pq) {
                pq
            } else {
                seq!['/'] + pq
            },
            None => seq!['/'] + s,
        }
    }
}

/// Every normalized path begins with `/`.
pub proof fn lemma_normalize_leading_slash(s: Seq<char>)
    ensures
        leading_slash(normalize_path_spec(s)),
{
    if !leading_slash(s) {
        match url_path_and_query_of(s) {
            Some(pq) => {
                if !leading_slash(pq) {
                    assert((seq!['/'] + pq)[0] == '/');
                }
            },
            None => {
                assert((seq!['/'] + s)[0] == '/');
            },
        }
    }
}

/// Normalization is idempotent: a path that already went through it is kept
/// verbatim.
pub proof fn lemma_normalize_idempotent(s: Seq<char>)
    ensures
        normalize_path_spec(normalize_path_spec(s)) == normalize_path_spec(s),
{
    lemma_normalize_leading_slash(s);
}

/// Prepend a `/` to a string.
fn prepend_slash(s: &str) -> (r: String)
    ensures
        r@ == seq!['/'] + s@,
{
    let mut r = String::from_str("/");
    proof {
        reveal_strlit("/");
        assert(r@ =~= seq!['/']);
    }
    r.append(s);
    r
}

/// Normalize the `url` field of a request frame into the path replayed
/// against the local origin.
pub fn extract_path_from_url(url: &str) -> (r: String)
    ensures
        r@ == normalize_path_spec(url@),
{
    if url.unicode_len() > 0 && url.get_char(0) == '/' {
        String::from_str(url)
    } else {
        match parse_absolute_path_query(url) {
            Some(pq) => {
                let pqs = pq.as_str();
                if pqs.unicode_len() > 0 && pqs.get_char(0) == '/' {
                    pq
                } else {
                    prepend_slash(pqs)
                }
            },
            None => prepend_slash(url),
        }
    }
}

} // verus!
