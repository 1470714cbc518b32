//! Ingestion of one package between crawl and store: the empty-crawl check,
//! per-document token counts, and the rows of the batch insert.
use vstd::prelude::*;
use crate::crawler::Document;
use crate::error::ServerError;
use crate::jobs::{may_follow, JobStatus, JobTracker, JobUpdate};

verus! {

#[verifier::external_type_specification]
#[verifier::external_body]
pub struct ExCoreBPE(tiktoken_rs::CoreBPE);

/// Whether the `cl100k_base` encoder, every special token allowed, tokenizes
/// `text` without a regex error.
pub uninterp spec fn cl100k_encodes(text: Seq<char>) -> bool;

/// Number of tokens of `text` under the `cl100k_base` encoding, every special
/// token allowed.
pub uninterp spec fn cl100k_token_count(text: Seq<char>) -> nat;

/// Relies on `tiktoken_rs::cl100k_base`: it builds the encoder from the
/// vocabulary the crate embeds, which always decodes.
#[verifier::external_body]
fn load_cl100k() -> (r: Result<tiktoken_rs::CoreBPE, String>)
    ensures
        r is Ok,
{
    tiktoken_rs::cl100k_base().map_err(|e| e.to_string())
}

/// Relies on `CoreBPE::encode` with every special token allowed, on the
/// `cl100k_base` encoder that a `Tokenizer` holds: it fails only on a regex
/// error, and otherwise yields the tokens of `text`.
#[verifier::external_body]
fn encode_count(tokenizer: &Tokenizer, text: &str) -> (r: Result<usize, String>)
    ensures
        r is Ok <==> cl100k_encodes(text@),
        r matches Ok(n) ==> n == cl100k_token_count(text@),
{
    let special = tokenizer.bpe.special_tokens();
    tokenizer.bpe.encode(text, &special).map(|(tokens, _)| tokens.len()).map_err(|e| e.message)
}

/// The `cl100k_base` tokenizer. `cl100k` is its only constructor, so the
/// encoder it holds is always that one.
pub struct Tokenizer {
    bpe: tiktoken_rs::CoreBPE,
}

impl Tokenizer {
    pub fn cl100k() -> (r: Tokenizer) {
        let bpe = load_cl100k().unwrap();
        Tokenizer { bpe }
    }

    /// Token count of `text`.
    pub fn count(&self, text: &str) -> (r: Result<usize, ServerError>)
        ensures
            r is Ok <==> cl100k_encodes(text@),
            r matches Ok(n) ==> n == cl100k_token_count(text@),
            r matches Err(e) ==> e is Tokenizer,
    {
        match encode_count(self, text) {
            Ok(n) => Ok(n),
            Err(e) => Err(ServerError::Tokenizer(e)),
        }
    }
}

/// A stored token count: the count, saturated to the column's range.
pub open spec fn stored_count(n: nat) -> i32 {
    if n <= i32::MAX { n as i32 } else { i32::MAX }
}

/// One row of a batch insert, less its vector.
#[derive(Debug, Clone, PartialEq, Eq)]
pub struct BatchRow {
    pub path: String,
    pub content: String,
    pub token_count: i32,
}

/// Rows for `docs`, in order, each with its document's token count.
pub fn build_batch(tokenizer: &Tokenizer, docs: &Vec<Document>) -> (r: Result<
    Vec<BatchRow>,
    ServerError,
>)
    ensures
        r is Ok <==> forall|i: int| 0 <= i < docs.len() ==> cl100k_encodes(#[trigger] docs[i].content@),
        r matches Ok(rows) ==> {
            &&& rows.len() == docs.len()
            &&& forall|i: int|
                0 <= i < rows.len() ==> {
                    &&& #[trigger] rows[i].path@ == docs[i].path@
                    &&& rows[i].content@ == docs[i].content@
                    &&& rows[i].token_count == stored_count(cl100k_token_count(docs[i].content@))
                }
        },
        r matches Err(e) ==> e is Tokenizer,
{
    let mut rows: Vec<BatchRow> = Vec::new();
    let mut i: usize = 0;
    while i < docs.len()
        invariant
            i <= docs.len(),
            rows.len() == i,
            forall|j: int| 0 <= j < i ==> cl100k_encodes(#[trigger] docs[j].content@),
            forall|j: int|
                0 <= j < i ==> {
                    &&& #[trigger] rows[j].path@ == docs[j].path@
                    &&& rows[j].content@ == docs[j].content@
                    &&& rows[j].token_count == stored_count(cl100k_token_count(docs[j].content@))
                },
        decreases docs.len() - i,
    {
        let n = match tokenizer.count(docs[i].content.as_str()) {
            Ok(n) => n,
            Err(e) => return Err(e),
        };
        let count: i32 = if n <= i32::MAX as usize { n as i32 } else { i32::MAX };
        let path = docs[i].path.as_str().to_owned();
        let content = docs[i].content.as_str().to_owned();
        rows.push(BatchRow { path, content, token_count: count });
        i = i + 1;
    }
    Ok(rows)
}

/// An ingestion that found no documents ends here.
pub fn check_documents(package_name: &str, count: usize) -> (r: Result<(), ServerError>)
    ensures
        r.is_ok() == (count > 0),
        r matches Err(e) ==> e matches ServerError::Config(m) && m@ == "No documents found for crate: "@
            + package_name@,
{
    if count == 0 {
        Err(ServerError::Config(String::from_str("No documents found for crate: ").concat(package_name)))
    } else {
        Ok(())
    }
}

/// What an ingestion reports to its caller.
#[derive(Debug, Clone, PartialEq, Eq)]
pub struct IngestReport {
    pub documents_loaded: usize,
    pub embeddings_generated: usize,
    /// Tokens that the embedding provider accounted for.
    pub total_tokens: u64,
    pub version: Option<String>,
}

/// One ingestion of one package, from job start to its end. Its driver crawls,
/// embeds and stores; this records what each step came to and hands out the
/// job update that the store must write.
pub struct Ingestion {
    job: JobTracker,
    documents_loaded: usize,
}

impl Ingestion {
    pub closed spec fn spec_status(&self) -> JobStatus {
        self.job.spec_status()
    }

    pub closed spec fn spec_documents_loaded(&self) -> nat {
        self.documents_loaded as nat
    }

    /// Starts the job: it was pending and is now running.
    pub fn start() -> (r: (Ingestion, JobUpdate))
        ensures
            r.0.spec_status() == JobStatus::Running,
            may_follow(JobStatus::Pending, r.0.spec_status()),
            r.1 == (JobUpdate { status: JobStatus::Running, error_message: None, docs_populated: None }),
    {
        let mut job = JobTracker::new();
        let u = job.start();
        (Ingestion { job, documents_loaded: 0 }, u)
    }

    /// Records the crawl. An empty crawl completes the job with no documents
    /// and ends the ingestion with an error; otherwise the job keeps running.
    pub fn crawled(&mut self, package_name: &str, documents: usize) -> (r: Result<(), (ServerError, JobUpdate)>)
        requires
            old(self).spec_status() == JobStatus::Running,
        ensures
            r.is_ok() == (documents > 0),
            r.is_ok() ==> final(self).spec_status() == JobStatus::Running
                && final(self).spec_documents_loaded() == documents,
            r matches Err((e, u)) ==> {
                &&& final(self).spec_status() == JobStatus::Completed
                &&& may_follow(old(self).spec_status(), final(self).spec_status())
                &&& u == (JobUpdate {
                    status: JobStatus::Completed,
                    error_message: None,
                    docs_populated: Some(0),
                })
                &&& e matches ServerError::Config(m) && m@ == "No documents found for crate: "@
                    + package_name@
            },
    {
        match check_documents(package_name, documents) {
            Ok(()) => {
                self.documents_loaded = documents;
                Ok(())
            },
            Err(e) => {
                let u = self.job.complete(0);
                Err((e, u))
            },
        }
    }

    /// Records that `stored` rows were committed: the job completes with that
    /// count, saturated to the column's range.
    pub fn stored(&mut self, stored: usize, total_tokens: u64, version: Option<String>) -> (r: (IngestReport, JobUpdate))
        requires
            old(self).spec_status() == JobStatus::Running,
        ensures
            final(self).spec_status() == JobStatus::Completed,
            may_follow(old(self).spec_status(), final(self).spec_status()),
            r.0 == (IngestReport {
                documents_loaded: old(self).spec_documents_loaded() as usize,
                embeddings_generated: stored,
                total_tokens,
                version,
            }),
            r.1 == (JobUpdate {
                status: JobStatus::Completed,
                error_message: None,
                docs_populated: Some(stored_count(stored as nat)),
            }),
    {
        let docs: i32 = if stored <= i32::MAX as usize { stored as i32 } else { i32::MAX };
        let u = self.job.complete(docs);
        let report = IngestReport {
            documents_loaded: self.documents_loaded,
            embeddings_generated: stored,
            total_tokens,
            version,
        };
        (report, u)
    }

    /// Records that a step failed: the job fails with the error's message.
    pub fn failed(&mut self, error: &ServerError) -> (u: JobUpdate)
        requires
            old(self).spec_status() == JobStatus::Running,
        ensures
            final(self).spec_status() == JobStatus::Failed,
            may_follow(old(self).spec_status(), final(self).spec_status()),
            u.status == JobStatus::Failed,
            u.docs_populated is None,
            u.error_message matches Some(m) && m@ == error.spec_message(),
    {
        self.job.fail(error.message())
    }
}

} // verus!
