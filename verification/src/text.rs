//! Small operations on text, counted in characters.

use vstd::prelude::*;
use vstd::string::*;

verus! {

/// `prefix` begins `s`.
pub open spec fn has_prefix(s: Seq<char>, prefix: Seq<char>) -> bool {
    prefix.len() <= s.len() && s.take(prefix.len() as int) == prefix
}

/// `suffix` ends `s`.
pub open spec fn has_suffix(s: Seq<char>, suffix: Seq<char>) -> bool {
    suffix.len() <= s.len() && s.skip(s.len() - suffix.len()) == suffix
}

/// Every character of `s` is a slash.
pub open spec fn all_slashes(s: Seq<char>) -> bool {
    forall|i: int| 0 <= i < s.len() ==> s[i] == '/'
}

/// `s` without the slashes at its end.
pub open spec fn trim_trailing_slashes(s: Seq<char>) -> Seq<char>
    decreases s.len(),
{
    if s.len() > 0 && s.last() == '/' {
        trim_trailing_slashes(s.drop_last())
    } else {
        s
    }
}

/// Whether `prefix` begins `s`.
pub fn starts_with(s: &str, prefix: &str) -> (result: bool)
    ensures
        result == has_prefix(s@, prefix@),
{
    let n = s.unicode_len();
    let m = prefix.unicode_len();
    if m > n {
        return false;
    }
    let head = String::from_str(s.substring_char(0, m));
    let expected = String::from_str(prefix);
    head == expected
}

/// Whether `suffix` ends `s`.
pub fn ends_with(s: &str, suffix: &str) -> (result: bool)
    ensures
        result == has_suffix(s@, suffix@),
{
    let n = s.unicode_len();
    let m = suffix.unicode_len();
    if m > n {
        return false;
    }
    let tail = String::from_str(s.substring_char(n - m, n));
    let expected = String::from_str(suffix);
    proof {
        assert(s@.subrange((n - m) as int, n as int) =~= s@.skip(s@.len() - suffix@.len()));
    }
    tail == expected
}

/// Whether every character of `s` is a slash.
pub fn is_all_slashes(s: &str) -> (result: bool)
    ensures
        result == all_slashes(s@),
{
    let n = s.unicode_len();
    let mut i: usize = 0;
    while i < n
        invariant
            n == s@.len(),
            i <= n,
            forall|j: int| 0 <= j < i ==> s@[j] == '/',
        decreases n - i,
    {
        if s.get_char(i) != '/' {
            return false;
        }
        i = i + 1;
    }
    true
}

/// `s` after its first `count` characters.
pub fn skip_chars(s: &str, count: usize) -> (rest: &str)
    requires
        count <= s@.len(),
    ensures
        rest@ == s@.skip(count as int),
{
    let n = s.unicode_len();
    let rest = s.substring_char(count, n);
    proof {
        assert(rest@ =~= s@.skip(count as int));
    }
    rest
}

/// `s` without its last `count` characters.
pub fn drop_last_chars(s: &str, count: usize) -> (rest: &str)
    requires
        count <= s@.len(),
    ensures
        rest@ == s@.take(s@.len() - count),
{
    let n = s.unicode_len();
    let rest = s.substring_char(0, n - count);
    proof {
        assert(rest@ =~= s@.take(s@.len() - count));
    }
    rest
}

/// `s` without the slashes at its end.
pub fn trim_end_slashes(s: &str) -> (trimmed: &str)
    ensures
        trimmed@ == trim_trailing_slashes(s@),
{
    let n = s.unicode_len();
    let mut end: usize = n;
    proof {
        assert(s@.take(n as int) =~= s@);
    }
    while end > 0 && s.get_char(end - 1) == '/'
        invariant
            n == s@.len(),
            end <= n,
            trim_trailing_slashes(s@) == trim_trailing_slashes(s@.take(end as int)),
        decreases end,
    {
        proof {
            assert(s@.take(end as int).drop_last() =~= s@.take(end - 1));
        }
        end = end - 1;
    }
    let trimmed = s.substring_char(0, end);
    proof {
        assert(trimmed@ =~= s@.take(end as int));
        if end > 0 {
            assert(s@.take(end as int).last() == s@[end - 1]);
        }
    }
    trimmed
}

} // verus!
