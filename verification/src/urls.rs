//! Remote URL inspection: extracting the bare hostname from a URL of the
//! form `user@host:path`, and recognizing HTTPS URLs, which bypass the SSH
//! identity resolver entirely.

use vstd::prelude::*;

verus! {

/// The first position at or after `i` holding `a` or `b`, or the length of
/// `s` when neither occurs there.
pub open spec fn spec_scan(s: Seq<char>, i: int, a: char, b: char) -> int
    decreases s.len() - i,
{
    if i < 0 || i >= s.len() {
        s.len() as int
    } else if s[i] == a || s[i] == b {
        i
    } else {
        spec_scan(s, i + 1, a, b)
    }
}

/// The hostname part of a `user@host:path` URL: the characters after the
/// first `@`, up to the next `@` or `:` or the end; empty when the URL
/// holds no `@` at all.
pub open spec fn spec_host_of(s: Seq<char>) -> Seq<char> {
    let at = spec_scan(s, 0, '@', '@');
    if at >= s.len() {
        Seq::<char>::empty()
    } else {
        s.subrange(at + 1, spec_scan(s, at + 1, '@', ':'))
    }
}

/// Scan forward from `from` for the first occurrence of `a` or `b`.
fn scan_from(s: &str, from: usize, a: char, b: char) -> (r: usize)
    requires
        from <= s@.len(),
    ensures
        r as int == spec_scan(s@, from as int, a, b),
        from <= r <= s@.len(),
{
    let n = s.unicode_len();
    let mut i: usize = from;
    while i < n
        invariant
            from <= i <= n == s@.len(),
            spec_scan(s@, from as int, a, b) == spec_scan(s@, i as int, a, b),
        decreases n - i,
    {
        let c = s.get_char(i);
        if c == a || c == b {
            return i;
        }
        i = i + 1;
    }
    i
}

/// Extract the bare hostname from a remote URL of the form `user@host:path`.
pub fn host_of_url(url: &String) -> (r: String)
    ensures
        r@ == spec_host_of(url@),
{
    let s = url.as_str();
    let n = s.unicode_len();
    let at = scan_from(s, 0, '@', '@');
    if at >= n {
        return String::new();
    }
    let start = at + 1;
    let stop = scan_from(s, start, '@', ':');
    String::from_str(s.substring_char(start, stop))
}

/// The URL's scheme is HTTPS.
pub open spec fn spec_is_https(s: Seq<char>) -> bool {
    s.len() >= 8 && s.subrange(0, 8) == "https://"@
}

/// An HTTPS remote takes no SSH credentials: no key path is offered for it.
pub fn is_https_url(url: &String) -> (r: bool)
    ensures
        r == spec_is_https(url@),
{
    let s = url.as_str();
    let n = s.unicode_len();
    if n < 8 {
        return false;
    }
    let prefix = String::from_str(s.substring_char(0, 8));
    let scheme = String::from_str("https://");
    prefix == scheme
}

} // verus!
