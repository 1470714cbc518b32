//! Decisions and replies of the protocol tools: querying a package, checking
//! its status, removing it, and adding several at once.
use vstd::prelude::*;
use crate::text::{decimal, decimal_text, join, joined, trim, trimmed};
use crate::availability::AvailableSet;
use crate::config::CrateConfig;

verus! {

/// Results shown for one query.
pub const SHOWN_RESULTS: usize = 5;

/// Neighbours asked of the store for one query.
pub const SEARCH_LIMIT: i32 = 10;

/// One search result as the reply shows it: its content, and its similarity
/// already written with three decimals.
#[derive(Debug, Clone, PartialEq, Eq)]
pub struct QueryHit {
    pub content: String,
    pub similarity: String,
}

/// Why a query cannot be answered from the availability set.
pub open spec fn spec_unavailable_message(name: Seq<char>, available: Seq<Seq<char>>) -> Seq<
    char,
> {
    "Crate '"@ + name + "' not available. Available crates: "@ + joined(available, ", "@)
}

/// Admits a query on `name` only if it is available; else the invalid-params
/// message lists what is.
pub fn check_available(set: &AvailableSet, name: &str) -> (r: Result<(), String>)
    requires
        set.wf(),
    ensures
        r.is_ok() == set@.contains(name@),
        r matches Err(m) ==> exists|names: Seq<Seq<char>>|
            names.to_set() == set@ && names.no_duplicates() && m@ == spec_unavailable_message(
                name@,
                names,
            ),
{
    if set.contains(name) {
        Ok(())
    } else {
        let names = set.names();
        let listed = join(&names, ", ");
        let m = String::from_str("Crate '").concat(name).concat("' not available. Available crates: ")
            .concat(listed.as_str());
        proof {
            assert(m@ == spec_unavailable_message(name@, names.deep_view()));
        }
        Err(m)
    }
}

/// One numbered line of a query reply.
pub open spec fn hit_line(index: nat, h: QueryHit) -> Seq<char> {
    decimal(index) + ". "@ + trimmed(h.content@) + " (similarity: "@ + h.similarity@ + ")"@
}

/// Lines for the first `n` hits.
pub open spec fn hit_lines(hits: Seq<QueryHit>, n: nat) -> Seq<Seq<char>>
    decreases n,
{
    if n == 0 {
        Seq::empty()
    } else {
        hit_lines(hits, (n - 1) as nat).push(hit_line(n, hits[n - 1]))
    }
}

pub open spec fn shown(len: nat) -> nat {
    if len < SHOWN_RESULTS { len } else { SHOWN_RESULTS as nat }
}

/// Reply to a query: the best hits, at most five, numbered from 1 and
/// separated by blank lines, after a header naming the package; or a note
/// that nothing was found.
pub open spec fn spec_query_reply(name: Seq<char>, question: Seq<char>, hits: Seq<QueryHit>) -> Seq<
    char,
> {
    if hits.len() == 0 {
        "No relevant documentation found for '"@ + question + "' in crate '"@ + name + "'"@
    } else {
        "From "@ + name + " docs (via vector database search): "@ + joined(
            hit_lines(hits, shown(hits.len())),
            "\n\n"@,
        )
    }
}

pub fn query_reply(name: &str, question: &str, hits: &Vec<QueryHit>) -> (r: String)
    ensures
        r@ == spec_query_reply(name@, question@, hits@),
{
    if hits.len() == 0 {
        return String::from_str("No relevant documentation found for '").concat(question).concat(
            "' in crate '",
        ).concat(name).concat("'");
    }
    let n = if hits.len() < SHOWN_RESULTS { hits.len() } else { SHOWN_RESULTS };
    let mut lines: Vec<String> = Vec::new();
    let mut i: usize = 0;
    while i < n
        invariant
            i <= n,
            n <= hits.len(),
            n <= SHOWN_RESULTS,
            lines.deep_view() == hit_lines(hits@, i as nat),
        decreases n - i,
    {
        let h = &hits[i];
        let line = decimal_text((i + 1) as u64).concat(". ").concat(trim(h.content.as_str())).concat(
            " (similarity: ",
        ).concat(h.similarity.as_str()).concat(")");
        let ghost before = lines.deep_view();
        lines.push(line);
        proof {
            assert(lines.deep_view() =~= before.push(line@));
        }
        i = i + 1;
    }
    String::from_str("From ").concat(name).concat(" docs (via vector database search): ").concat(
        join(&lines, "\n\n").as_str(),
    )
}

/// Population status of a configured package.
pub open spec fn spec_status_label(has_embeddings: bool, total_docs: nat) -> Seq<char> {
    if has_embeddings && total_docs > 0 {
        "populated"@
    } else if has_embeddings {
        "empty"@
    } else {
        "not_populated"@
    }
}

pub fn status_label(has_embeddings: bool, total_docs: usize) -> (r: &'static str)
    ensures
        r@ == spec_status_label(has_embeddings, total_docs as nat),
{
    if has_embeddings && total_docs > 0 {
        "populated"
    } else if has_embeddings {
        "empty"
    } else {
        "not_populated"
    }
}

/// Advice shown beside a package's status.
pub open spec fn spec_status_note(name: Seq<char>, features: Seq<Seq<char>>, ready: bool) -> Seq<
    char,
> {
    if ready {
        "Crate is populated and ready for queries"@
    } else {
        "Run on server: cargo run --bin populate_db -- --crate-name "@ + name + " --features "@
            + joined(features, " "@)
    }
}

pub fn status_note(config: &CrateConfig, has_embeddings: bool, total_docs: usize) -> (r: String)
    ensures
        r@ == spec_status_note(
            config.name@,
            config.features.deep_view(),
            has_embeddings && total_docs > 0,
        ),
{
    if has_embeddings && total_docs > 0 {
        String::from_str("Crate is populated and ready for queries")
    } else {
        String::from_str("Run on server: cargo run --bin populate_db -- --crate-name ").concat(
            config.name.as_str(),
        ).concat(" --features ").concat(join(&config.features, " ").as_str())
    }
}

/// A configuration is listed as populated once an ingestion completed for it.
pub fn listing_label(config: &CrateConfig) -> (r: &'static str)
    ensures
        r@ == (if config.last_populated.is_some() { "populated"@ } else { "pending"@ }),
{
    if config.last_populated.is_some() {
        "populated"
    } else {
        "pending"
    }
}

/// Reply to a removal: a confirmation when a configuration was deleted, else
/// the invalid-params message.
pub fn removal_reply(name: &str, version_spec: &str, deleted: bool) -> (r: Result<String, String>)
    ensures
        r.is_ok() == deleted,
        r matches Ok(m) ==> m@ == "Removed crate configuration for "@ + name@ + " ("@
            + version_spec@ + ")"@,
        r matches Err(m) ==> m@ == "No configuration found for "@ + name@ + " ("@ + version_spec@
            + ")"@,
{
    if deleted {
        Ok(String::from_str("Removed crate configuration for ").concat(name).concat(" (").concat(
            version_spec,
        ).concat(")"))
    } else {
        Err(String::from_str("No configuration found for ").concat(name).concat(" (").concat(
            version_spec,
        ).concat(")"))
    }
}

/// Outcome of configuring one package of a bulk add.
#[derive(Debug, Clone, PartialEq, Eq)]
pub struct CrateResult {
    pub crate_name: String,
    pub success: bool,
    pub error: Option<String>,
    pub message: String,
}

#[derive(Debug, Clone, Copy, PartialEq, Eq, Structural)]
pub struct AddCratesSummary {
    pub total: usize,
    pub successful: usize,
    pub failed: usize,
    pub ingestion_started: usize,
}

/// A bulk add needs at least one package.
pub fn check_bulk_request(count: usize) -> (r: Result<(), String>)
    ensures
        r.is_ok() == (count > 0),
        r matches Err(m) ==> m@ == "No crates provided"@,
{
    if count == 0 {
        Err(String::from_str("No crates provided"))
    } else {
        Ok(())
    }
}

/// Per-package outcomes of a bulk add, in request order, and whether to go on.
pub struct AddCratesTally {
    fail_fast: bool,
    results: Vec<CrateResult>,
    successful: usize,
    failed: usize,
}

/// Message summing up a bulk add.
pub open spec fn spec_bulk_message(successful: nat, failed: nat) -> Seq<char> {
    if failed == 0 {
        "Successfully configured "@ + decimal(successful) + " crates, ingestion started"@
    } else if successful == 0 {
        "Failed to configure any crates ("@ + decimal(failed) + " errors)"@
    } else {
        "Configured "@ + decimal(successful) + " crates successfully, "@ + decimal(failed)
            + " failed"@
    }
}

impl AddCratesTally {
    pub closed spec fn spec_results(&self) -> Seq<CrateResult> {
        self.results@
    }

    pub closed spec fn spec_successful(&self) -> nat {
        self.successful as nat
    }

    pub closed spec fn spec_failed(&self) -> nat {
        self.failed as nat
    }

    pub closed spec fn spec_fail_fast(&self) -> bool {
        self.fail_fast
    }

    /// Every recorded outcome is counted once, as a success or a failure.
    pub closed spec fn wf(&self) -> bool {
        self.successful + self.failed == self.results.len()
    }

    pub fn new(fail_fast: bool) -> (r: AddCratesTally)
        ensures
            r.wf(),
            r.spec_fail_fast() == fail_fast,
            r.spec_results().len() == 0,
            r.spec_successful() == 0,
            r.spec_failed() == 0,
    {
        AddCratesTally { fail_fast, results: Vec::new(), successful: 0, failed: 0 }
    }

    /// The configuration of `name` was stored and its ingestion started.
    pub fn saved(&mut self, name: &str)
        requires
            old(self).wf(),
            old(self).spec_results().len() < usize::MAX,
        ensures
            final(self).wf(),
            final(self).spec_fail_fast() == old(self).spec_fail_fast(),
            final(self).spec_successful() == old(self).spec_successful() + 1,
            final(self).spec_failed() == old(self).spec_failed(),
            final(self).spec_results().len() == old(self).spec_results().len() + 1,
            final(self).spec_results().take(old(self).spec_results().len() as int)
                == old(self).spec_results(),
            ({
                let c = final(self).spec_results().last();
                c.crate_name@ == name@ && c.success && c.error is None && c.message@
                    == "Configuration saved, ingestion queued"@
            }),
    {
        let c = CrateResult {
            crate_name: name.to_owned(),
            success: true,
            error: None,
            message: String::from_str("Configuration saved, ingestion queued"),
        };
        self.results.push(c);
        self.successful = self.successful + 1;
        proof {
            assert(self.results@.take(old(self).results@.len() as int) =~= old(self).results@);
        }
    }

    /// `name` failed: its request was invalid (`stored` false) or storing it
    /// failed. Returns whether the bulk add goes on.
    pub fn failed(&mut self, name: &str, error: String, stored: bool) -> (go_on: bool)
        requires
            old(self).wf(),
            old(self).spec_results().len() < usize::MAX,
        ensures
            go_on == !old(self).spec_fail_fast(),
            final(self).wf(),
            final(self).spec_fail_fast() == old(self).spec_fail_fast(),
            final(self).spec_successful() == old(self).spec_successful(),
            final(self).spec_failed() == old(self).spec_failed() + 1,
            final(self).spec_results().len() == old(self).spec_results().len() + 1,
            final(self).spec_results().take(old(self).spec_results().len() as int)
                == old(self).spec_results(),
            ({
                let c = final(self).spec_results().last();
                c.crate_name@ == name@ && !c.success && c.error == Some(error) && c.message@ == (
                if stored {
                    "Failed to save configuration"@
                } else {
                    "Validation failed"@
                })
            }),
    {
        let message = if stored {
            String::from_str("Failed to save configuration")
        } else {
            String::from_str("Validation failed")
        };
        let c = CrateResult { crate_name: name.to_owned(), success: false, error: Some(error), message };
        self.results.push(c);
        self.failed = self.failed + 1;
        proof {
            assert(self.results@.take(old(self).results@.len() as int) =~= old(self).results@);
        }
        !self.fail_fast
    }

    /// Counts of the bulk add; every stored configuration started an ingestion.
    pub fn summary(&self) -> (r: AddCratesSummary)
        requires
            self.wf(),
        ensures
            r.total == self.spec_results().len(),
            r.successful == self.spec_successful(),
            r.failed == self.spec_failed(),
            r.ingestion_started == self.spec_successful(),
            r.successful + r.failed == r.total,
    {
        AddCratesSummary {
            total: self.results.len(),
            successful: self.successful,
            failed: self.failed,
            ingestion_started: self.successful,
        }
    }

    pub fn message(&self) -> (r: String)
        ensures
            r@ == spec_bulk_message(self.spec_successful(), self.spec_failed()),
    {
        if self.failed == 0 {
            String::from_str("Successfully configured ").concat(
                decimal_text(self.successful as u64).as_str(),
            ).concat(" crates, ingestion started")
        } else if self.successful == 0 {
            String::from_str("Failed to configure any crates (").concat(
                decimal_text(self.failed as u64).as_str(),
            ).concat(" errors)")
        } else {
            String::from_str("Configured ").concat(decimal_text(self.successful as u64).as_str())
                .concat(" crates successfully, ").concat(decimal_text(self.failed as u64).as_str())
                .concat(" failed")
        }
    }

    /// The outcomes, in request order.
    pub fn into_results(self) -> (r: Vec<CrateResult>)
        ensures
            r@ == self.spec_results(),
    {
        self.results
    }
}

} // verus!
