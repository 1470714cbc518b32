//! Bounded breadth-first crawl of one package's documentation. The crawler
//! decides; its driver fetches each URL that `next_url` hands out and passes the
//! page back to `record_page`.
use vstd::prelude::*;
use std::collections::VecDeque;
use crate::text::{contains, contains_seq};
use crate::policy::{
    should_process_url, spec_should_process_url, should_follow_link, spec_should_follow_link,
    links_enabled, spec_links_enabled,
};
use crate::page::{
    anchor_hrefs, docblock_text_nodes, docblock_texts, link_hrefs, page_content, page_version,
    relative_path, resolve_link, resolved_url, spec_page_content, spec_page_version,
    spec_relative_path,
};

verus! {

/// One page of extracted documentation.
#[derive(Debug, Clone)]
pub struct Document {
    pub path: String,
    pub content: String,
}

/// Documents of a crawl in emission order, and the version it found.
#[derive(Debug)]
pub struct LoadResult {
    pub documents: Vec<Document>,
    pub version: Option<String>,
}

/// Page budget when the caller names none.
pub const DEFAULT_MAX_PAGES: usize = 10000;

pub open spec fn doc_view(d: Document) -> (Seq<char>, Seq<char>) {
    (d.path@, d.content@)
}

pub struct Crawler {
    package_name: String,
    max_pages: usize,
    frontier: VecDeque<String>,
    visited: Vec<String>,
    processed: usize,
    /// Pages taken in through `record_page`.
    recorded: usize,
    /// The URL last handed out, until its page is recorded.
    current: Option<String>,
    documents: Vec<Document>,
    /// The URL each document was read from.
    sources: Ghost<Seq<Seq<char>>>,
    version: Option<String>,
}

/// A URL on the documentation host that names the package.
pub open spec fn on_host(url: Seq<char>, name: Seq<char>) -> bool {
    contains_seq(url, "docs.rs"@) && contains_seq(url, name)
}

/// A URL that the crawl may fetch: on the host, naming the package, and
/// passing the URL policy.
pub open spec fn fetchable(url: Seq<char>, name: Seq<char>) -> bool {
    on_host(url, name) && spec_should_process_url(url)
}

/// URLs popped without being fetched: each was visited already, popped
/// earlier in the same run, or rejected by the URL policy.
pub open spec fn skipped_ok(skipped: Seq<Seq<char>>, visited: Set<Seq<char>>) -> bool {
    forall|j: int|
        0 <= j < skipped.len() ==> visited.contains(#[trigger] skipped[j]) || skipped.take(
            j,
        ).contains(skipped[j]) || !spec_should_process_url(skipped[j])
}

/// A discovered absolute URL is queued when it stays on the documentation host,
/// names the package, is not visited yet and passes the URL policy.
pub open spec fn admissible(url: Seq<char>, name: Seq<char>, visited: Set<Seq<char>>) -> bool {
    contains_seq(url, "docs.rs"@) && contains_seq(url, name) && !visited.contains(url)
        && spec_should_process_url(url)
}

/// The URLs that a page's links add to the frontier, in document order.
pub open spec fn discovered(
    hrefs: Seq<Option<Seq<char>>>,
    base: Seq<char>,
    name: Seq<char>,
    visited: Set<Seq<char>>,
) -> Seq<Seq<char>>
    decreases hrefs.len(),
{
    if hrefs.len() == 0 {
        Seq::empty()
    } else {
        let rest = discovered(hrefs.drop_last(), base, name, visited);
        match hrefs.last() {
            Some(h) => if spec_should_follow_link(h) {
                match resolved_url(base, h) {
                    Some(u) => if admissible(u, name, visited) { rest.push(u) } else { rest },
                    None => rest,
                }
            } else {
                rest
            },
            None => rest,
        }
    }
}

impl Crawler {
    pub closed spec fn spec_package_name(&self) -> Seq<char> {
        self.package_name@
    }

    pub closed spec fn spec_max_pages(&self) -> nat {
        self.max_pages as nat
    }

    pub closed spec fn spec_processed(&self) -> nat {
        self.processed as nat
    }

    pub closed spec fn spec_recorded(&self) -> nat {
        self.recorded as nat
    }

    pub closed spec fn spec_current(&self) -> Option<Seq<char>> {
        match self.current {
            Some(c) => Some(c@),
            None => None,
        }
    }

    pub closed spec fn spec_frontier(&self) -> Seq<Seq<char>> {
        self.frontier@.map_values(|u: String| u@)
    }

    pub closed spec fn spec_visited(&self) -> Set<Seq<char>> {
        self.visited.deep_view().to_set()
    }

    pub closed spec fn spec_documents(&self) -> Seq<(Seq<char>, Seq<char>)> {
        self.documents@.map_values(|d: Document| doc_view(d))
    }

    /// The URL each document was read from, in the documents' order.
    pub closed spec fn spec_sources(&self) -> Seq<Seq<char>> {
        self.sources@
    }

    pub closed spec fn spec_version(&self) -> Option<Seq<char>> {
        match self.version {
            Some(v) => Some(v@),
            None => None,
        }
    }

    /// The page budget is never exceeded; a page is recorded only for a URL
    /// handed out; every queued URL is on the host and names the package; each
    /// document comes from a distinct fetched URL that the policy admits.
    pub closed spec fn wf(&self) -> bool {
        &&& self.processed <= self.max_pages
        &&& self.recorded + (if self.current.is_some() { 1nat } else { 0nat }) <= self.processed
        &&& self.documents.len() <= self.recorded
        &&& forall|i: int|
            0 <= i < self.frontier@.len() ==> on_host(#[trigger] self.frontier@[i]@, self.package_name@)
        &&& (self.current matches Some(c) ==> {
            &&& self.spec_visited().contains(c@)
            &&& fetchable(c@, self.package_name@)
            &&& !self.sources@.contains(c@)
        })
        &&& self.sources@.len() == self.documents.len()
        &&& self.sources@.no_duplicates()
        &&& forall|i: int|
            0 <= i < self.sources@.len() ==> {
                &&& self.spec_documents()[i].0 == spec_relative_path(#[trigger] self.sources@[i])
                &&& self.spec_visited().contains(self.sources@[i])
                &&& fetchable(self.sources@[i], self.package_name@)
            }
    }

    /// A crawl of `package_name` seeded with its root documentation URL.
    pub fn new(package_name: &str, max_pages: Option<usize>) -> (r: Crawler)
        ensures
            r.wf(),
            r.spec_package_name() == package_name@,
            r.spec_max_pages() == match max_pages {
                Some(m) => m as nat,
                None => DEFAULT_MAX_PAGES as nat,
            },
            r.spec_processed() == 0,
            r.spec_recorded() == 0,
            r.spec_current() is None,
            r.spec_frontier() == seq![seed_url(package_name@)],
            r.spec_visited() == Set::<Seq<char>>::empty(),
            r.spec_documents().len() == 0,
            r.spec_sources().len() == 0,
            r.spec_version().is_none(),
    {
        let max = match max_pages {
            Some(m) => m,
            None => DEFAULT_MAX_PAGES,
        };
        let seed = String::from_str("https://docs.rs/").concat(package_name).concat("/latest/")
            .concat(package_name).concat("/");
        let mut frontier: VecDeque<String> = VecDeque::new();
        frontier.push_back(seed);
        let visited: Vec<String> = Vec::new();
        let r = Crawler {
            package_name: package_name.to_owned(),
            max_pages: max,
            frontier,
            visited,
            processed: 0,
            recorded: 0,
            current: None,
            documents: Vec::new(),
            sources: Ghost(Seq::empty()),
            version: None,
        };
        proof {
            assert(r.spec_frontier() =~= seq![seed_url(package_name@)]);
            assert(r.spec_visited() =~= Set::<Seq<char>>::empty());
            lemma_seed_on_host(package_name@);
            assert(r.spec_documents() =~= Seq::<(Seq<char>, Seq<char>)>::empty());
        }
        r
    }

    /// Number of pages handed out so far.
    pub fn processed(&self) -> (r: usize)
        ensures
            r == self.spec_processed(),
    {
        self.processed
    }

    fn is_visited(&self, url: &String) -> (r: bool)
        ensures
            r == self.spec_visited().contains(url@),
    {
        let mut i: usize = 0;
        while i < self.visited.len()
            invariant
                i <= self.visited.len(),
                forall|j: int| 0 <= j < i ==> self.visited.deep_view()[j] != url@,
            decreases self.visited.len() - i,
        {
            if self.visited[i] == *url {
                proof {
                    assert(self.visited.deep_view()[i as int] == url@);
                }
                return true;
            }
            i = i + 1;
        }
        proof {
            if self.spec_visited().contains(url@) {
                let j = choose|j: int| 0 <= j < self.visited.deep_view().len()
                    && self.visited.deep_view()[j] == url@;
                assert(self.visited.deep_view()[j] == url@);
            }
        }
        false
    }

    fn mark_visited(&mut self, url: String)
        ensures
            final(self).spec_visited() == old(self).spec_visited().insert(url@),
            final(self).package_name == old(self).package_name,
            final(self).max_pages == old(self).max_pages,
            final(self).frontier == old(self).frontier,
            final(self).processed == old(self).processed,
            final(self).recorded == old(self).recorded,
            final(self).current == old(self).current,
            final(self).documents == old(self).documents,
            final(self).sources == old(self).sources,
            final(self).version == old(self).version,
    {
        let ghost before = self.visited.deep_view();
        self.visited.push(url);
        proof {
            assert(self.visited.deep_view() =~= before.push(url@));
            assert(before.push(url@).to_set() =~= before.to_set().insert(url@)) by {
                before.lemma_push_to_set_commute(url@);
            }
        }
    }

    /// The next URL to fetch: pops the front of the frontier, skipping URLs
    /// already visited and those that the URL policy rejects, until a URL is
    /// found, the frontier is empty, or the page budget is spent.
    pub fn next_url(&mut self) -> (r: Option<String>)
        requires
            old(self).wf(),
        ensures
            final(self).wf(),
            final(self).spec_package_name() == old(self).spec_package_name(),
            final(self).spec_max_pages() == old(self).spec_max_pages(),
            final(self).spec_documents() == old(self).spec_documents(),
            final(self).spec_sources() == old(self).spec_sources(),
            final(self).spec_version() == old(self).spec_version(),
            final(self).spec_recorded() == old(self).spec_recorded(),
            old(self).spec_visited().subset_of(final(self).spec_visited()),
            match r {
                Some(u) => {
                    &&& fetchable(u@, old(self).spec_package_name())
                    &&& !old(self).spec_visited().contains(u@)
                    &&& final(self).spec_current() == Some(u@)
                    &&& final(self).spec_processed() == old(self).spec_processed() + 1
                    &&& exists|skipped: Seq<Seq<char>>|
                        {
                            &&& skipped_ok(skipped, old(self).spec_visited())
                            &&& old(self).spec_frontier() == skipped + seq![u@]
                                + final(self).spec_frontier()
                            &&& final(self).spec_visited() == old(self).spec_visited().union(
                                skipped.to_set(),
                            ).insert(u@)
                        }
                },
                None => {
                    &&& final(self).spec_processed() == old(self).spec_processed()
                    &&& final(self).spec_current() == old(self).spec_current()
                    &&& (final(self).spec_frontier().len() == 0 || final(self).spec_processed()
                        >= final(self).spec_max_pages())
                    &&& exists|skipped: Seq<Seq<char>>|
                        {
                            &&& skipped_ok(skipped, old(self).spec_visited())
                            &&& old(self).spec_frontier() == skipped + final(self).spec_frontier()
                            &&& final(self).spec_visited() == old(self).spec_visited().union(
                                skipped.to_set(),
                            )
                        }
                },
            },
    {
        let ghost mut skipped: Seq<Seq<char>> = Seq::empty();
        proof {
            assert(old(self).spec_frontier() =~= skipped + self.spec_frontier());
            assert(self.spec_visited() =~= old(self).spec_visited().union(skipped.to_set()));
        }
        loop
            invariant
                self.wf(),
                self.package_name == old(self).package_name,
                self.max_pages == old(self).max_pages,
                self.documents == old(self).documents,
                self.sources == old(self).sources,
                self.version == old(self).version,
                self.processed == old(self).processed,
                self.recorded == old(self).recorded,
                self.current == old(self).current,
                old(self).spec_visited().subset_of(self.spec_visited()),
                skipped_ok(skipped, old(self).spec_visited()),
                old(self).spec_frontier() == skipped + self.spec_frontier(),
                self.spec_visited() == old(self).spec_visited().union(skipped.to_set()),
            decreases self.frontier@.len(),
        {
            if self.processed >= self.max_pages {
                return None;
            }
            let ghost before = self.spec_frontier();
            let popped = self.frontier.pop_front();
            match popped {
                None => {
                    proof {
                        assert(self.spec_frontier().len() == 0);
                    }
                    return None;
                },
                Some(url) => {
                    proof {
                        assert(self.spec_frontier() =~= before.subrange(1, before.len() as int));
                        assert(before[0] == url@);
                        assert(on_host(url@, self.package_name@));
                        assert forall|i: int|
                            0 <= i < self.frontier@.len() implies on_host(
                            #[trigger] self.frontier@[i]@,
                            self.package_name@,
                        ) by {
                            assert(self.spec_frontier()[i] == before[i + 1]);
                        }
                        assert(old(self).spec_frontier() =~= skipped.push(url@) + self.spec_frontier());
                    }
                    if self.is_visited(&url) {
                        proof {
                            let ns = skipped.push(url@);
                            assert forall|j: int| 0 <= j < ns.len() implies old(self).spec_visited().contains(
                                #[trigger] ns[j],
                            ) || ns.take(j).contains(ns[j]) || !spec_should_process_url(ns[j]) by {
                                if j < skipped.len() {
                                    assert(ns[j] == skipped[j]);
                                    assert(ns.take(j) =~= skipped.take(j));
                                } else {
                                    assert(ns.take(j) =~= skipped);
                                    if !old(self).spec_visited().contains(url@) {
                                        assert(skipped.to_set().contains(url@));
                                        let k = choose|k: int| 0 <= k < skipped.len() && skipped[k] == url@;
                                        assert(skipped[k] == url@);
                                    }
                                }
                            }
                            skipped.lemma_push_to_set_commute(url@);
                            assert(self.spec_visited() =~= old(self).spec_visited().union(ns.to_set()));
                            skipped = ns;
                        }
                        continue;
                    }
                    if !should_process_url(url.as_str()) {
                        self.mark_visited(url);
                        proof {
                            let ns = skipped.push(url@);
                            assert forall|j: int| 0 <= j < ns.len() implies old(self).spec_visited().contains(
                                #[trigger] ns[j],
                            ) || ns.take(j).contains(ns[j]) || !spec_should_process_url(ns[j]) by {
                                if j < skipped.len() {
                                    assert(ns[j] == skipped[j]);
                                    assert(ns.take(j) =~= skipped.take(j));
                                }
                            }
                            skipped.lemma_push_to_set_commute(url@);
                            assert(self.spec_visited() =~= old(self).spec_visited().union(ns.to_set()));
                            skipped = ns;
                        }
                        continue;
                    }
                    let ghost visited_before = self.spec_visited();
                    self.mark_visited(url.clone());
                    self.processed = self.processed + 1;
                    self.current = Some(url.clone());
                    proof {
                        assert(!visited_before.contains(url@));
                        assert(old(self).spec_visited().subset_of(visited_before));
                        assert(!old(self).spec_visited().contains(url@));
                        assert(old(self).spec_frontier() =~= skipped + seq![url@] + self.spec_frontier());
                        if self.sources@.contains(url@) {
                            let k = choose|k: int| 0 <= k < self.sources@.len() && self.sources@[k] == url@;
                            assert(visited_before.contains(self.sources@[k]));
                        }
                    }
                    return Some(url);
                },
            }
        }
    }

    /// Takes in the page fetched for `url`, the last URL handed out: records
    /// its version if it is the first page fetched, emits its content as a
    /// document, and queues the links it admits while link discovery is on.
    pub fn record_page(&mut self, url: &str, html: &str)
        requires
            old(self).wf(),
            old(self).spec_current() == Some(url@),
        ensures
            final(self).wf(),
            final(self).spec_current() is None,
            final(self).spec_sources() == if spec_page_content(docblock_text_nodes(html@)).len() > 0 {
                old(self).spec_sources().push(url@)
            } else {
                old(self).spec_sources()
            },
            final(self).spec_package_name() == old(self).spec_package_name(),
            final(self).spec_max_pages() == old(self).spec_max_pages(),
            final(self).spec_processed() == old(self).spec_processed(),
            final(self).spec_visited() == old(self).spec_visited(),
            final(self).spec_recorded() == old(self).spec_recorded() + 1,
            final(self).spec_version() == if old(self).spec_recorded() == 0 {
                spec_page_version(html@, url@)
            } else {
                old(self).spec_version()
            },
            final(self).spec_documents() == if spec_page_content(docblock_text_nodes(html@)).len()
                > 0 {
                old(self).spec_documents().push(
                    (spec_relative_path(url@), spec_page_content(docblock_text_nodes(html@))),
                )
            } else {
                old(self).spec_documents()
            },
            final(self).spec_frontier() == if spec_links_enabled(
                old(self).spec_processed(),
                old(self).spec_max_pages(),
            ) {
                old(self).spec_frontier() + discovered(
                    anchor_hrefs(html@),
                    url@,
                    old(self).spec_package_name(),
                    old(self).spec_visited(),
                )
            } else {
                old(self).spec_frontier()
            },
    {
        if self.recorded == 0 {
            let v = page_version(html, url);
            self.version = v;
            proof {
                assert(self.spec_version() == spec_page_version(html@, url@));
            }
        }
        let blocks = docblock_texts(html);
        let content = page_content(&blocks);
        self.current = None;
        if content.unicode_len() > 0 {
            let doc = Document { path: relative_path(url), content };
            let ghost before = self.documents@;
            let ghost before_sources = self.sources@;
            self.documents.push(doc);
            self.sources = Ghost(self.sources@.push(url@));
            proof {
                assert(self.documents@.map_values(|d: Document| doc_view(d)) =~= before.map_values(
                    |d: Document| doc_view(d),
                ).push(doc_view(doc)));
                assert forall|a: int, b: int|
                    0 <= a < b < self.sources@.len() implies self.sources@[a] != self.sources@[b] by {
                    if b == before_sources.len() {
                        assert(before_sources.contains(before_sources[a]));
                    }
                }
                assert forall|i: int| 0 <= i < self.sources@.len() implies {
                    &&& self.spec_documents()[i].0 == spec_relative_path(#[trigger] self.sources@[i])
                    &&& self.spec_visited().contains(self.sources@[i])
                    &&& fetchable(self.sources@[i], self.package_name@)
                } by {
                    if i < before_sources.len() {
                        assert(self.spec_documents()[i] == old(self).spec_documents()[i]);
                    }
                }
            }
        }
        self.recorded = self.recorded + 1;
        let ghost docs_after = self.documents@;
        let ghost version_after = self.version;
        let ghost sources_after = self.sources;
        if links_enabled(self.processed, self.max_pages) {
            let hrefs = link_hrefs(html);
            let ghost start = self.spec_frontier();
            let mut i: usize = 0;
            while i < hrefs.len()
                invariant
                    i <= hrefs.len(),
                    self.wf(),
                    self.package_name == old(self).package_name,
                    self.max_pages == old(self).max_pages,
                    self.processed == old(self).processed,
                    self.recorded == old(self).recorded + 1,
                    self.current is None,
                    self.sources == sources_after,
                    self.visited == old(self).visited,
                    self.documents@ == docs_after,
                    self.version == version_after,
                    self.spec_frontier() == start + discovered(
                        hrefs.deep_view().take(i as int),
                        url@,
                        self.package_name@,
                        self.spec_visited(),
                    ),
                decreases hrefs.len() - i,
            {
                proof {
                    assert(hrefs.deep_view().take(i as int + 1).drop_last() == hrefs.deep_view().take(
                        i as int,
                    ));
                }
                match &hrefs[i] {
                    Some(h) => {
                        if should_follow_link(h.as_str()) {
                            match resolve_link(url, h.as_str()) {
                                Some(abs) => {
                                    if contains(abs.as_str(), "docs.rs") && contains(
                                        abs.as_str(),
                                        self.package_name.as_str(),
                                    ) && !self.is_visited(&abs) && should_process_url(
                                        abs.as_str(),
                                    ) {
                                        let ghost f = self.spec_frontier();
                                        self.frontier.push_back(abs);
                                        proof {
                                            assert(self.spec_frontier() =~= f.push(abs@));
                                            assert forall|k: int|
                                                0 <= k < self.frontier@.len() implies on_host(
                                                #[trigger] self.frontier@[k]@,
                                                self.package_name@,
                                            ) by {
                                                if k < f.len() {
                                                    assert(self.spec_frontier()[k] == f[k]);
                                                }
                                            }
                                        }
                                    }
                                },
                                None => {},
                            }
                        }
                    },
                    None => {},
                }
                i = i + 1;
            }
            proof {
                assert(hrefs.deep_view().take(hrefs.len() as int) == hrefs.deep_view());
            }
        }
    }

    /// The page of the last URL handed out could not be fetched: it is
    /// skipped, adding no document, no version and no link.
    pub fn fetch_failed(&mut self)
        requires
            old(self).wf(),
        ensures
            final(self).wf(),
            final(self).spec_current() is None,
            final(self).spec_package_name() == old(self).spec_package_name(),
            final(self).spec_max_pages() == old(self).spec_max_pages(),
            final(self).spec_processed() == old(self).spec_processed(),
            final(self).spec_recorded() == old(self).spec_recorded(),
            final(self).spec_visited() == old(self).spec_visited(),
            final(self).spec_frontier() == old(self).spec_frontier(),
            final(self).spec_documents() == old(self).spec_documents(),
            final(self).spec_sources() == old(self).spec_sources(),
            final(self).spec_version() == old(self).spec_version(),
    {
        self.current = None;
    }

    /// The documents emitted so far, in emission order, and the version found.
    pub fn finish(self) -> (r: LoadResult)
        ensures
            r.documents@.map_values(|d: Document| doc_view(d)) == self.spec_documents(),
            match r.version {
                Some(v) => self.spec_version() == Some(v@),
                None => self.spec_version().is_none(),
            },
    {
        LoadResult { documents: self.documents, version: self.version }
    }
}

/// Root documentation URL of a package at its latest version.
pub open spec fn seed_url(name: Seq<char>) -> Seq<char> {
    "https://docs.rs/"@ + name + "/latest/"@ + name + "/"@
}

/// A crawl never hands out more pages than its budget, and so never emits
/// more documents than that: this holds of every crawler that its own
/// operations produce.
pub proof fn crawl_within_budget(c: &Crawler)
    requires
        c.wf(),
    ensures
        c.spec_processed() <= c.spec_max_pages(),
        c.spec_documents().len() <= c.spec_max_pages(),
{
}

/// Every document of a crawl was read from a distinct URL that was fetched,
/// is on the documentation host, names the package and passes the URL
/// policy; its path is that URL relative to the host.
pub proof fn documents_from_fetched_urls(c: &Crawler)
    requires
        c.wf(),
    ensures
        c.spec_sources().len() == c.spec_documents().len(),
        c.spec_sources().no_duplicates(),
        forall|i: int|
            0 <= i < c.spec_sources().len() ==> {
                &&& c.spec_documents()[i].0 == spec_relative_path(#[trigger] c.spec_sources()[i])
                &&& c.spec_visited().contains(c.spec_sources()[i])
                &&& fetchable(c.spec_sources()[i], c.spec_package_name())
            },
{
}

proof fn lemma_seed_on_host(name: Seq<char>)
    ensures
        on_host(seed_url(name), name),
{
    let seed = seed_url(name);
    let host = "https://docs.rs/"@;
    reveal_strlit("https://docs.rs/");
    reveal_strlit("docs.rs");
    assert(seed.subrange(8, 15) =~= "docs.rs"@);
    assert(crate::text::occurs_at(seed, "docs.rs"@, 8));
    assert(seed.subrange(host.len() as int, (host.len() + name.len()) as int) =~= name);
    assert(crate::text::occurs_at(seed, name, host.len() as int));
}

} // verus!
