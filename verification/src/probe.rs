//! The URLs tried when a URL is checked: both schemes, with and without a
//! trailing slash.

use crate::text::{has_prefix, skip_chars, starts_with, trim_end_slashes, trim_trailing_slashes};
use vstd::prelude::*;
use vstd::string::*;

verus! {

/// The URL after its `http://` or `https://` scheme, if it has one of them.
pub open spec fn strip_http_scheme(url: Seq<char>) -> Option<Seq<char>> {
    if has_prefix(url, "http://"@) {
        Some(url.skip("http://"@.len() as int))
    } else if has_prefix(url, "https://"@) {
        Some(url.skip("https://"@.len() as int))
    } else {
        None
    }
}

/// What every URL tried for `url` is built from: `url` without its scheme and
/// without the slashes at its end; nothing when `url` is not an HTTP URL.
pub open spec fn probe_base(url: Seq<char>) -> Option<Seq<char>> {
    match strip_http_scheme(url) {
        Some(rest) => Some(trim_trailing_slashes(rest)),
        None => None,
    }
}

/// A URL tried for `base`: `https` when `secure` and `http` otherwise, then
/// `base`, then a slash when `slash`.
pub open spec fn candidate_url(base: Seq<char>, secure: bool, slash: bool) -> Seq<char> {
    "http"@ + (if secure { "s"@ } else { Seq::empty() }) + "://"@ + base + (if slash { "/"@ } else { Seq::empty() })
}

/// The base of the URLs to try for `url`, if it is an HTTP URL.
pub fn find_probe_base(url: &str) -> (base: Option<&str>)
    ensures
        match base {
            Some(b) => probe_base(url@) == Some(b@),
            None => probe_base(url@) is None,
        },
{
    proof {
        reveal_strlit("http://");
        reveal_strlit("https://");
    }
    let rest = if starts_with(url, "http://") {
        skip_chars(url, 7)
    } else if starts_with(url, "https://") {
        skip_chars(url, 8)
    } else {
        return None;
    };
    Some(trim_end_slashes(rest))
}

/// Builds a URL to try for `base`.
pub fn build_candidate_url(base: &str, secure: bool, slash: bool) -> (candidate: String)
    ensures
        candidate@ == candidate_url(base@, secure, slash),
{
    let mut candidate = String::from_str("http");
    if secure {
        candidate.append("s");
    }
    candidate.append("://");
    candidate.append(base);
    if slash {
        candidate.append("/");
    }
    proof {
        assert(candidate@ =~= candidate_url(base@, secure, slash));
    }
    candidate
}

} // verus!
