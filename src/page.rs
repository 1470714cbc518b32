//! What the crawler reads from one fetched page.
use vstd::prelude::*;
use crate::text::{join, joined, trim, trimmed, starts_with, starts_with_seq};

verus! {

/// For each element of an HTML page that the CSS `selector` matches, in the
/// order scraper's `Html::select` yields them, its text nodes; nothing when the
/// selector does not parse.
pub uninterp spec fn selected_text_nodes(html: Seq<char>, selector: Seq<char>) -> Seq<Seq<Seq<char>>>;

/// For each element of an HTML page that the CSS `selector` matches, in the
/// order scraper's `Html::select` yields them, its attribute `attr`.
pub uninterp spec fn selected_attrs(html: Seq<char>, selector: Seq<char>, attr: Seq<char>) -> Seq<
    Option<Seq<char>>,
>;

/// The serialisation of `href` resolved against `base`, when both parse as URLs.
pub uninterp spec fn resolved_url(base: Seq<char>, href: Seq<char>) -> Option<Seq<char>>;

/// Relies on scraper's `Html::parse_document`, `Selector::parse`, `Html::select`
/// and `ElementRef::text`.
#[verifier::external_body]
fn select_text_nodes(html: &str, selector: &str) -> (r: Vec<Vec<String>>)
    ensures
        r.deep_view() == selected_text_nodes(html@, selector@),
{
    let doc = scraper::Html::parse_document(html);
    match scraper::Selector::parse(selector) {
        Ok(sel) => doc.select(&sel).map(|e| e.text().map(|t| t.to_string()).collect()).collect(),
        Err(_) => Vec::new(),
    }
}

/// Relies on scraper's `Html::parse_document`, `Selector::parse`, `Html::select`
/// and `Element::attr`.
#[verifier::external_body]
fn select_attrs(html: &str, selector: &str, attr: &str) -> (r: Vec<Option<String>>)
    ensures
        r.deep_view() == selected_attrs(html@, selector@, attr@),
{
    let doc = scraper::Html::parse_document(html);
    match scraper::Selector::parse(selector) {
        Ok(sel) => doc.select(&sel).map(|e| e.value().attr(attr).map(|v| v.to_string())).collect(),
        Err(_) => Vec::new(),
    }
}

/// The element that carries a page's version.
pub open spec fn version_selector() -> Seq<char> {
    ".version"@
}

/// The elements whose text is documentation content.
pub open spec fn docblock_selector() -> Seq<char> {
    "div.docblock, section.docblock, .rustdoc .docblock"@
}

/// Text of the first version element of a page, its text nodes concatenated.
pub open spec fn version_element_text(html: Seq<char>) -> Option<Seq<char>> {
    let found = selected_text_nodes(html, version_selector());
    if found.len() > 0 {
        Some(joined(found[0], ""@))
    } else {
        None
    }
}

/// For each documentation block of a page, its text nodes.
pub open spec fn docblock_text_nodes(html: Seq<char>) -> Seq<Seq<Seq<char>>> {
    selected_text_nodes(html, docblock_selector())
}

/// For each anchor of a page, its `href`.
pub open spec fn anchor_hrefs(html: Seq<char>) -> Seq<Option<Seq<char>>> {
    selected_attrs(html, "a"@, "href"@)
}

pub(crate) fn version_element(html: &str) -> (r: Option<String>)
    ensures
        r.is_some() == version_element_text(html@).is_some(),
        r.is_some() ==> r.unwrap()@ == version_element_text(html@).unwrap(),
{
    let found = select_text_nodes(html, ".version");
    if found.len() > 0 {
        Some(join(&found[0], ""))
    } else {
        None
    }
}

pub(crate) fn docblock_texts(html: &str) -> (r: Vec<Vec<String>>)
    ensures
        r.deep_view() == docblock_text_nodes(html@),
{
    select_text_nodes(html, "div.docblock, section.docblock, .rustdoc .docblock")
}

pub(crate) fn link_hrefs(html: &str) -> (r: Vec<Option<String>>)
    ensures
        r.deep_view() == anchor_hrefs(html@),
{
    select_attrs(html, "a", "href")
}

/// Relies on `reqwest::Url::parse` and `Url::join` (the `url` crate): resolving a
/// link against the page it was found on.
#[verifier::external_body]
pub(crate) fn resolve_link(base: &str, href: &str) -> (r: Option<String>)
    ensures
        r.is_some() == resolved_url(base@, href@).is_some(),
        r.is_some() ==> r.unwrap()@ == resolved_url(base@, href@).unwrap(),
{
    let base = reqwest::Url::parse(base).ok()?;
    base.join(href).ok().map(|u| u.to_string())
}

/// The trimmed text nodes of a block that are not empty, in order.
pub open spec fn kept_nodes(nodes: Seq<Seq<char>>) -> Seq<Seq<char>>
    decreases nodes.len(),
{
    if nodes.len() == 0 {
        Seq::empty()
    } else {
        let rest = kept_nodes(nodes.drop_last());
        let t = trimmed(nodes.last());
        if t.len() > 0 { rest.push(t) } else { rest }
    }
}

/// Text of one block: its kept nodes joined by newlines.
pub open spec fn block_text(nodes: Seq<Seq<char>>) -> Seq<char> {
    joined(kept_nodes(nodes), "\n"@)
}

/// The texts of the blocks that are not empty, in order.
pub open spec fn kept_blocks(blocks: Seq<Seq<Seq<char>>>) -> Seq<Seq<char>>
    decreases blocks.len(),
{
    if blocks.len() == 0 {
        Seq::empty()
    } else {
        let rest = kept_blocks(blocks.drop_last());
        let t = block_text(blocks.last());
        if t.len() > 0 { rest.push(t) } else { rest }
    }
}

/// Content of a page: its non-empty block texts separated by blank lines.
pub open spec fn spec_page_content(blocks: Seq<Seq<Seq<char>>>) -> Seq<char> {
    joined(kept_blocks(blocks), "\n\n"@)
}

pub fn block_content(nodes: &Vec<String>) -> (r: String)
    ensures
        r@ == block_text(nodes.deep_view()),
{
    let mut kept: Vec<String> = Vec::new();
    let mut i: usize = 0;
    while i < nodes.len()
        invariant
            i <= nodes.len(),
            kept.deep_view() == kept_nodes(nodes.deep_view().take(i as int)),
        decreases nodes.len() - i,
    {
        proof {
            assert(nodes.deep_view().take(i as int + 1).drop_last() == nodes.deep_view().take(i as int));
        }
        let t = trim(nodes[i].as_str());
        if t.unicode_len() > 0 {
            kept.push(t.to_owned());
            proof {
                assert(kept.deep_view() == kept_nodes(nodes.deep_view().take(i as int)).push(t@));
            }
        }
        i = i + 1;
    }
    proof {
        assert(nodes.deep_view().take(nodes.len() as int) == nodes.deep_view());
    }
    join(&kept, "\n")
}

/// Assembles the content of a page from the text nodes of its blocks.
pub fn page_content(blocks: &Vec<Vec<String>>) -> (r: String)
    ensures
        r@ == spec_page_content(blocks.deep_view()),
{
    let mut kept: Vec<String> = Vec::new();
    let mut i: usize = 0;
    while i < blocks.len()
        invariant
            i <= blocks.len(),
            kept.deep_view() == kept_blocks(blocks.deep_view().take(i as int)),
        decreases blocks.len() - i,
    {
        proof {
            assert(blocks.deep_view().take(i as int + 1).drop_last() == blocks.deep_view().take(i as int));
        }
        let t = block_content(&blocks[i]);
        if t.unicode_len() > 0 {
            kept.push(t);
            proof {
                assert(kept.deep_view() == kept_blocks(blocks.deep_view().take(i as int)).push(t@));
            }
        }
        i = i + 1;
    }
    proof {
        assert(blocks.deep_view().take(blocks.len() as int) == blocks.deep_view());
    }
    join(&kept, "\n\n")
}

/// A document path: the URL with the documentation host prefix removed.
pub open spec fn spec_relative_path(url: Seq<char>) -> Seq<char> {
    if starts_with_seq(url, "https://docs.rs/"@) {
        url.subrange("https://docs.rs/"@.len() as int, url.len() as int)
    } else {
        url
    }
}

pub fn relative_path(url: &str) -> (r: String)
    ensures
        r@ == spec_relative_path(url@),
{
    let prefix = "https://docs.rs/";
    if starts_with(url, prefix) {
        let n = url.unicode_len();
        let k = prefix.unicode_len();
        url.substring_char(k, n).to_owned()
    } else {
        url.to_owned()
    }
}

/// Version read from the first page: the trimmed `.version` element text when
/// there is one, else the version that the URL path names.
pub open spec fn spec_page_version(html: Seq<char>, url: Seq<char>) -> Option<Seq<char>> {
    match version_element_text(html) {
        Some(t) => Some(trimmed(t)),
        None => crate::policy::spec_version_from_url(url),
    }
}

pub fn page_version(html: &str, url: &str) -> (r: Option<String>)
    ensures
        r.is_some() == spec_page_version(html@, url@).is_some(),
        r.is_some() ==> r.unwrap()@ == spec_page_version(html@, url@).unwrap(),
{
    match version_element(html) {
        Some(t) => Some(trim(t.as_str()).to_owned()),
        None => crate::policy::version_from_url(url),
    }
}

} // verus!
