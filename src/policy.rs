//! Rules of the documentation crawler on single URLs, links and pages.
use vstd::prelude::*;
use crate::text::{
    any_numeric, contains, contains_seq, ends_with, ends_with_seq, has_numeric, starts_with,
    starts_with_seq,
};

verus! {

/// A URL is crawled unless it is source code or an item anchor.
pub open spec fn spec_should_process_url(url: Seq<char>) -> bool {
    !contains_seq(url, "/src/"@)
    && !contains_seq(url, "#method."@)
    && !contains_seq(url, "#impl-"@)
    && !contains_seq(url, "#associatedtype."@)
    && !contains_seq(url, "#associatedconstant."@)
}

/// Whether the crawler may fetch `url` under the URL policy.
pub fn should_process_url(url: &str) -> (r: bool)
    ensures
        r == spec_should_process_url(url@),
{
    !contains(url, "/src/") && !contains(url, "#method.") && !contains(url, "#impl-")
        && !contains(url, "#associatedtype.") && !contains(url, "#associatedconstant.")
}

/// A link is followed when it is relative: `./`, `../`, or a bare `.html` path.
pub open spec fn spec_should_follow_link(href: Seq<char>) -> bool {
    starts_with_seq(href, "./"@) || starts_with_seq(href, "../"@) || (
    !starts_with_seq(href, "http"@) && !starts_with_seq(href, "#"@) && !starts_with_seq(href, "/"@)
        && ends_with_seq(href, ".html"@))
}

pub fn should_follow_link(href: &str) -> (r: bool)
    ensures
        r == spec_should_follow_link(href@),
{
    starts_with(href, "./") || starts_with(href, "../") || (!starts_with(href, "http")
        && !starts_with(href, "#") && !starts_with(href, "/") && ends_with(href, ".html"))
}

/// Links are discovered only while fewer than three quarters of the page
/// budget have been processed.
pub open spec fn spec_links_enabled(processed: nat, max_pages: nat) -> bool {
    processed < (max_pages * 3) / 4
}

pub fn links_enabled(processed: usize, max_pages: usize) -> (r: bool)
    ensures
        r == spec_links_enabled(processed as nat, max_pages as nat),
{
    (processed as u128) < (max_pages as u128 * 3) / 4
}

/// Index of the last `/` in `s[0..end]`, or -1 when there is none.
pub open spec fn last_slash_before(s: Seq<char>, end: int) -> int
    decreases end,
{
    if end <= 0 {
        -1
    } else if s[end - 1] == '/' {
        end - 1
    } else {
        last_slash_before(s, end - 1)
    }
}

/// The third `/`-separated piece of `url` counted from the end, when there are
/// at least three pieces (for `https://docs.rs/c/1.0.0/c/` it is `1.0.0`).
pub open spec fn third_last_piece(url: Seq<char>) -> Option<Seq<char>> {
    let e1 = last_slash_before(url, url.len() as int);
    let e2 = last_slash_before(url, e1);
    let e3 = last_slash_before(url, e2);
    if e1 < 0 || e2 < 0 {
        None
    } else {
        Some(url.subrange(e3 + 1, e2))
    }
}

/// The version that a URL's path names, if its piece is not `latest` and
/// holds a numeral.
pub open spec fn spec_version_from_url(url: Seq<char>) -> Option<Seq<char>> {
    match third_last_piece(url) {
        Some(p) => if p != "latest"@ && has_numeric(p) { Some(p) } else { None },
        None => None,
    }
}

proof fn lemma_last_slash_bounds(s: Seq<char>, end: int)
    requires
        end <= s.len(),
    ensures
        -1 <= last_slash_before(s, end) < end || (end <= 0 && last_slash_before(s, end) == -1),
        last_slash_before(s, end) >= 0 ==> s[last_slash_before(s, end)] == '/',
        forall|k: int| last_slash_before(s, end) < k < end ==> s[k] != '/',
    decreases end,
{
    if end > 0 && s[end - 1] != '/' {
        lemma_last_slash_bounds(s, end - 1);
    }
}

fn find_last_slash(s: &str, end: usize) -> (r: Option<usize>)
    requires
        end <= s@.len(),
    ensures
        r.is_none() == (last_slash_before(s@, end as int) == -1),
        r.is_some() ==> r.unwrap() as int == last_slash_before(s@, end as int),
{
    proof {
        lemma_last_slash_bounds(s@, end as int);
    }
    let mut i: usize = end;
    while i > 0
        invariant
            i <= end,
            end <= s@.len(),
            last_slash_before(s@, end as int) == last_slash_before(s@, i as int),
        decreases i,
    {
        if s.get_char(i - 1) == '/' {
            return Some(i - 1);
        }
        i = i - 1;
    }
    None
}

/// Version named by the URL path, as the crawler reads it from a page URL.
pub fn version_from_url(url: &str) -> (r: Option<String>)
    ensures
        r.is_some() == spec_version_from_url(url@).is_some(),
        r.is_some() ==> r.unwrap()@ == spec_version_from_url(url@).unwrap(),
{
    let n = url.unicode_len();
    let e1 = match find_last_slash(url, n) {
        Some(e) => e,
        None => return None,
    };
    proof {
        lemma_last_slash_bounds(url@, n as int);
    }
    let e2 = match find_last_slash(url, e1) {
        Some(e) => e,
        None => return None,
    };
    proof {
        lemma_last_slash_bounds(url@, e1 as int);
        lemma_last_slash_bounds(url@, e2 as int);
    }
    let start = match find_last_slash(url, e2) {
        Some(e3) => e3 + 1,
        None => 0,
    };
    let piece = url.substring_char(start, e2);
    let latest = String::from_str("latest");
    if piece.to_owned() != latest && any_numeric(piece) {
        Some(piece.to_owned())
    } else {
        None
    }
}

} // verus!
