//! A parsed URL as the plain values that normalization reads: its
//! serialization, its path, its query and its fragment.

use crate::text::{all_slashes, ends_with, has_suffix, is_all_slashes, drop_last_chars};
use vstd::prelude::*;
use vstd::string::*;

verus! {

/// The text of an optional component.
pub open spec fn optional_text(component: Option<String>) -> Option<Seq<char>> {
    match component {
        Some(text) => Some(text@),
        None => None,
    }
}

/// What a URL ends with: its path, then `?` and the query if there is one,
/// then `#` and the fragment if there is one.
pub open spec fn url_tail(path: Seq<char>, query: Option<Seq<char>>, fragment: Option<Seq<char>>) -> Seq<char> {
    path + match query {
        Some(q) => seq!['?'] + q,
        None => Seq::empty(),
    } + match fragment {
        Some(f) => seq!['#'] + f,
        None => Seq::empty(),
    }
}

/// The components of a URL, as values.
pub struct UrlView {
    pub serialization: Seq<char>,
    pub path: Seq<char>,
    pub query: Option<Seq<char>>,
    pub fragment: Option<Seq<char>>,
}

impl UrlView {
    /// The serialization is ASCII and ends with the path, query and fragment.
    pub open spec fn wf(self) -> bool {
        &&& vstd::utf8::is_ascii_chars(self.serialization)
        &&& has_suffix(self.serialization, url_tail(self.path, self.query, self.fragment))
    }
}

/// A component that is absent or empty.
pub open spec fn empty_or_absent(component: Option<Seq<char>>) -> bool {
    match component {
        Some(text) => text.len() == 0,
        None => true,
    }
}

/// The normalized form of a URL: when its path has only slashes and its
/// query and fragment are each absent or empty, the serialization without
/// that path, query and fragment; otherwise the serialization itself.
pub open spec fn normalized_url(url: UrlView) -> Seq<char> {
    if all_slashes(url.path) && empty_or_absent(url.query) && empty_or_absent(url.fragment) {
        url.serialization.take(url.serialization.len() - url_tail(url.path, url.query, url.fragment).len())
    } else {
        url.serialization
    }
}

/// A parsed URL: its serialization, its path, and its query and fragment
/// where it has them. The serialization is ASCII and ends with the path,
/// query and fragment, as a parser of URLs serializes them.
pub struct UrlParts {
    serialization: String,
    path: String,
    query: Option<String>,
    fragment: Option<String>,
}

impl View for UrlParts {
    type V = UrlView;

    closed spec fn view(&self) -> UrlView {
        UrlView {
            serialization: self.serialization@,
            path: self.path@,
            query: optional_text(self.query),
            fragment: optional_text(self.fragment),
        }
    }
}

impl UrlParts {
    #[verifier::type_invariant]
    closed spec fn inv(self) -> bool {
        self@.wf()
    }

    /// The URL with these components, if the serialization is ASCII and ends
    /// with the path, query and fragment.
    pub fn new(serialization: String, path: String, query: Option<String>, fragment: Option<String>) -> (url: Option<Self>)
        ensures
            ({
                let view = UrlView {
                    serialization: serialization@,
                    path: path@,
                    query: optional_text(query),
                    fragment: optional_text(fragment),
                };
                &&& url is Some <==> view.wf()
                &&& url matches Some(url) ==> url@ == view
            }),
    {
        let mut tail = path.clone();
        match &query {
            Some(q) => {
                tail.append("?");
                tail.append(q.as_str());
            },
            None => {},
        }
        match &fragment {
            Some(f) => {
                tail.append("#");
                tail.append(f.as_str());
            },
            None => {},
        }
        proof {
            reveal_strlit("?");
            reveal_strlit("#");
            assert(tail@ =~= url_tail(path@, optional_text(query), optional_text(fragment)));
        }
        if serialization.is_ascii() && ends_with(serialization.as_str(), tail.as_str()) {
            Some(UrlParts { serialization, path, query, fragment })
        } else {
            None
        }
    }

    /// The serialization of the URL.
    pub fn as_str(&self) -> (text: &str)
        ensures
            text@ == self@.serialization,
    {
        self.serialization.as_str()
    }

    /// The path of the URL.
    pub fn path(&self) -> (text: &str)
        ensures
            text@ == self@.path,
    {
        self.path.as_str()
    }

    /// The query of the URL, if it has one.
    pub fn query(&self) -> (text: Option<&str>)
        ensures
            match text {
                Some(q) => self@.query == Some(q@),
                None => self@.query is None,
            },
    {
        match &self.query {
            Some(q) => Some(q.as_str()),
            None => None,
        }
    }

    /// The fragment of the URL, if it has one.
    pub fn fragment(&self) -> (text: Option<&str>)
        ensures
            match text {
                Some(f) => self@.fragment == Some(f@),
                None => self@.fragment is None,
            },
    {
        match &self.fragment {
            Some(f) => Some(f.as_str()),
            None => None,
        }
    }
}

/// The URL without a path made only of slashes and without an empty query or
/// fragment; a URL with any other path, query or fragment is left as it is.
pub fn normalize_url(url: &UrlParts) -> (normalized: &str)
    ensures
        normalized@ == normalized_url(url@),
{
    proof {
        use_type_invariant(url);
    }
    let url_str = url.as_str();
    let path = url.path();
    // The length of the serialization bounds the lengths counted below.
    let url_length = url_str.unicode_len();
    if !is_all_slashes(path) {
        return url_str;
    }
    let mut trim_length = path.unicode_len();
    match url.query() {
        None => {},
        Some(q) => {
            if q.unicode_len() == 0 {
                trim_length = trim_length + 1;
            } else {
                return url_str;
            }
        },
    }
    match url.fragment() {
        None => {},
        Some(f) => {
            if f.unicode_len() == 0 {
                trim_length = trim_length + 1;
            } else {
                return url_str;
            }
        },
    }
    proof {
        assert(trim_length == url_tail(url@.path, url@.query, url@.fragment).len());
        assert(trim_length <= url_length);
    }
    drop_last_chars(url_str, trim_length)
}

/// The serialization without its last character when the path is exactly
/// `/`; otherwise the serialization itself.
pub open spec fn trimmed_root_url(url: UrlView) -> Seq<char> {
    if url.path == seq!['/'] {
        url.serialization.drop_last()
    } else {
        url.serialization
    }
}

/// The serialization without its last character when the path of the URL is
/// exactly `/`.
pub fn trim_root_url(url: &UrlParts) -> (trimmed: &str)
    ensures
        trimmed@ == trimmed_root_url(url@),
{
    proof {
        use_type_invariant(url);
    }
    let url_str = url.as_str();
    let path = url.path();
    if path.unicode_len() == 1 && path.get_char(0) == '/' {
        proof {
            assert(path@ =~= seq!['/']);
        }
        drop_last_chars(url_str, 1)
    } else {
        proof {
            if path@ == seq!['/'] {
                assert(path@[0] == '/');
            }
        }
        url_str
    }
}

/// Normalizing never lengthens a URL: the result begins its serialization.
pub proof fn law_normalized_url_is_prefix(url: UrlView)
    requires
        url.wf(),
    ensures
        url.serialization.take(normalized_url(url).len() as int) == normalized_url(url),
        normalized_url(url).len() <= url.serialization.len(),
{
    assert(url.serialization.take(url.serialization.len() as int) =~= url.serialization);
}

/// A URL whose path holds any character other than `/` is left as it is.
pub proof fn law_normalize_keeps_real_paths(url: UrlView, i: int)
    requires
        0 <= i < url.path.len(),
        url.path[i] != '/',
    ensures
        normalized_url(url) == url.serialization,
{
}

} // verus!
