//! Base-URL normalization and priority resolution.
//!
//! Every request the client builds starts from a base URL. The base URL is
//! normalized once: trailing slashes are trimmed, and the fixed API path
//! segment is appended unless the trimmed URL already ends with it. The
//! URL itself is resolved with a fixed priority: an explicit argument wins
//! over an environment-provided value, which wins over the hardcoded
//! default.

use vstd::prelude::*;

use crate::text::chars_to_string;
use crate::text::push_chars;
use crate::text::str_chars;

verus! {

/// The fixed API path segment appended to every base URL.
pub open spec fn api_segment() -> Seq<char> {
    seq!['/', 'a', 'p', 'i']
}

/// The input with all trailing `/` characters removed.
pub open spec fn trim_trailing_slashes(s: Seq<char>) -> Seq<char>
    decreases s.len(),
{
    if s.len() > 0 && s.last() == '/' {
        trim_trailing_slashes(s.drop_last())
    } else {
        s
    }
}

/// Whether the string already ends with the API path segment.
pub open spec fn ends_with_api(s: Seq<char>) -> bool {
    s.len() >= 4 && s.subrange(s.len() - 4, s.len() as int) == api_segment()
}

/// The normalized form of a base URL: trailing slashes trimmed, the API
/// segment appended exactly once unless already present.
pub open spec fn normalize_base_url(s: Seq<char>) -> Seq<char> {
    let t = trim_trailing_slashes(s);
    if ends_with_api(t) {
        t
    } else {
        t + api_segment()
    }
}

/// The base URL used when neither an argument nor an environment value is
/// given.
pub open spec fn default_base_url() -> Seq<char> {
    "http://localhost:8000/api"@
}

proof fn lemma_trim_fixpoint(s: Seq<char>)
    requires
        s.len() == 0 || s.last() != '/',
    ensures
        trim_trailing_slashes(s) == s,
{
}

/// Normalizes a base URL: trims every trailing slash, then appends the API
/// segment unless the result already ends with it.
pub fn format_base_url(url: &str) -> (r: String)
    ensures
        r@ == normalize_base_url(url@),
{
    let mut v = str_chars(url);
    while v.len() > 0 && v[v.len() - 1] == '/'
        invariant
            trim_trailing_slashes(v@) == trim_trailing_slashes(url@),
        decreases v.len(),
    {
        let ghost before = v@;
        v.pop();
        assert(v@ == before.drop_last());
    }
    proof {
        lemma_trim_fixpoint(v@);
    }
    let ghost trimmed = v@;
    assert(trimmed == trim_trailing_slashes(url@));

    let n = v.len();
    let has_api = n >= 4 && v[n - 4] == '/' && v[n - 3] == 'a' && v[n - 2] == 'p' && v[n - 1]
        == 'i';
    proof {
        if has_api {
            assert(trimmed.subrange(trimmed.len() - 4, trimmed.len() as int) =~= api_segment());
        } else if trimmed.len() >= 4 {
            assert(ends_with_api(trimmed) ==> {
                &&& trimmed[trimmed.len() - 4] == '/'
                &&& trimmed[trimmed.len() - 3] == 'a'
                &&& trimmed[trimmed.len() - 2] == 'p'
                &&& trimmed[trimmed.len() - 1] == 'i'
            }) by {
                if ends_with_api(trimmed) {
                    assert(trimmed.subrange(trimmed.len() - 4, trimmed.len() as int)
                        == api_segment());
                    assert(trimmed[trimmed.len() - 4] == api_segment()[0]);
                    assert(trimmed[trimmed.len() - 3] == api_segment()[1]);
                    assert(trimmed[trimmed.len() - 2] == api_segment()[2]);
                    assert(trimmed[trimmed.len() - 1] == api_segment()[3]);
                }
            }
        }
    }
    assert(has_api == ends_with_api(trimmed));
    if !has_api {
        push_chars(&mut v, "/api");
        proof {
            reveal_strlit("/api");
            assert(v@ =~= trimmed + api_segment());
        }
    }
    let r = chars_to_string(&v);
    r
}

/// Resolves the base URL with the fixed priority: explicit argument first,
/// then the environment-provided value, then the hardcoded default. The
/// argument and the environment value are normalized; the default is
/// already in normalized form.
pub fn resolve_base_url(arg: Option<&str>, env_url: Option<&str>) -> (r: String)
    ensures
        arg matches Some(u) ==> r@ == normalize_base_url(u@),
        arg is None ==> (env_url matches Some(u) ==> r@ == normalize_base_url(u@)),
        arg is None && env_url is None ==> r@ == default_base_url(),
{
    match arg {
        Some(u) => format_base_url(u),
        None => match env_url {
            Some(u) => format_base_url(u),
            None => {
                let s: String = "http://localhost:8000/api".to_owned();
                s
            },
        },
    }
}

/// Base URL normalization never produces a URL that ends in `/`: the
/// result either keeps the trimmed input (which ends with the API segment)
/// or appends the API segment exactly once.
pub proof fn lemma_base_url_normalization(s: Seq<char>)
    ensures
        normalize_base_url(s).len() > 0,
        normalize_base_url(s).last() != '/',
        ends_with_api(trim_trailing_slashes(s)) ==> normalize_base_url(s) == trim_trailing_slashes(
            s,
        ),
        !ends_with_api(trim_trailing_slashes(s)) ==> normalize_base_url(s) == trim_trailing_slashes(
            s,
        ) + api_segment(),
{
    let t = trim_trailing_slashes(s);
    if ends_with_api(t) {
        assert(t.last() == t.subrange(t.len() - 4, t.len() as int)[3]);
        assert(t.last() == 'i');
    } else {
        let r = t + api_segment();
        assert(r.last() == api_segment()[3]);
        assert(r.last() == 'i');
    }
}

} // verus!
