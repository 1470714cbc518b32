use rustdocs_mcp_server::availability::AvailableSet;
use rustdocs_mcp_server::batching::plan_batches;
use rustdocs_mcp_server::config::{
    default_version_spec, new_crate_config, populated_config, validate_crate_spec,
};
use rustdocs_mcp_server::crawler::Document;
use rustdocs_mcp_server::error::ServerError;
use rustdocs_mcp_server::health::{health_reply, ReadinessState};
use rustdocs_mcp_server::ingest::{build_batch, check_documents, Ingestion, Tokenizer};
use rustdocs_mcp_server::jobs::{job_update_sql, JobStatus, JobTracker};
use rustdocs_mcp_server::startup::{connection_id, select_packages, startup_message, ConnectionConfig};
use rustdocs_mcp_server::text::join;
use rustdocs_mcp_server::tools::{
    check_available, check_bulk_request, listing_label, query_reply, removal_reply, status_label,
    status_note, AddCratesTally, QueryHit,
};

fn names(v: &[&str]) -> Vec<String> {
    v.iter().map(|s| s.to_string()).collect()
}

#[test]
fn version_spec_validation() {
    assert!(validate_crate_spec("alpha", "latest").is_ok());
    assert!(validate_crate_spec("alpha", "1.2.3").is_ok());
    assert_eq!(validate_crate_spec("", "latest"), Err("Crate name cannot be empty".to_string()));
    assert_eq!(
        validate_crate_spec("alpha", "newest"),
        Err("Version spec must be 'latest' or a valid version number".to_string())
    );
    assert_eq!(default_version_spec(), "latest");
}

#[test]
fn new_config_takes_defaults() {
    let c = new_crate_config("alpha", "latest", Some(names(&["f1"])), None, None, 7);
    assert_eq!(c.id, 0);
    assert_eq!(c.name, "alpha");
    assert_eq!(c.features, names(&["f1"]));
    assert!(c.enabled);
    assert_eq!(c.expected_docs, 1000);
    assert_eq!(c.current_version, None);
    assert_eq!(c.last_populated, None);
    assert_eq!(c.created_at, 7);
    let p = populated_config(&c, Some("1.2.3".to_string()), 9);
    assert_eq!(p.current_version, Some("1.2.3".to_string()));
    assert_eq!(p.last_populated, Some(9));
    assert_eq!(p.last_checked, Some(9));
    assert_eq!(p.features, c.features);
    assert_eq!(listing_label(&c), "pending");
    assert_eq!(listing_label(&p), "populated");
}

#[test]
fn availability_follows_refresh_insert_and_remove() {
    let mut set = AvailableSet::new();
    set.refresh(&names(&["alpha", "beta", "alpha"]));
    assert!(set.contains("alpha"));
    assert!(set.contains("beta"));
    assert_eq!(set.names().len(), 2);
    set.remove("alpha");
    assert!(!set.contains("alpha"));
    assert!(set.contains("beta"));
    set.insert("alpha");
    set.insert("alpha");
    assert!(set.contains("alpha"));
    assert_eq!(set.names().len(), 2);
    set.refresh(&names(&[]));
    assert!(!set.contains("beta"));
}

#[test]
fn unknown_package_lists_available_ones() {
    let mut set = AvailableSet::new();
    set.insert("alpha");
    assert!(check_available(&set, "alpha").is_ok());
    let err = check_available(&set, "beta").unwrap_err();
    assert_eq!(err, "Crate 'beta' not available. Available crates: alpha");
    assert!(err.contains("alpha"));
}

#[test]
fn query_reply_lists_best_hits_first() {
    let hits = vec![
        QueryHit { content: "  B explained ".to_string(), similarity: "1.000".to_string() },
        QueryHit { content: "A".to_string(), similarity: "0.120".to_string() },
    ];
    let r = query_reply("alpha", "how does B work", &hits);
    assert!(r.starts_with("From alpha docs (via vector database search):"));
    assert_eq!(
        r,
        "From alpha docs (via vector database search): 1. B explained (similarity: 1.000)\n\n2. A (similarity: 0.120)"
    );
    assert_eq!(
        query_reply("alpha", "?", &vec![]),
        "No relevant documentation found for '?' in crate 'alpha'"
    );
}

#[test]
fn query_reply_shows_at_most_five() {
    let hits: Vec<QueryHit> = (0..10)
        .map(|i| QueryHit { content: format!("doc{i}"), similarity: "0.500".to_string() })
        .collect();
    let r = query_reply("alpha", "q", &hits);
    assert!(r.contains("5. doc4"));
    assert!(!r.contains("6. "));
}

#[test]
fn status_of_a_package() {
    assert_eq!(status_label(true, 2), "populated");
    assert_eq!(status_label(true, 0), "empty");
    assert_eq!(status_label(false, 0), "not_populated");
    let c = new_crate_config("alpha", "latest", Some(names(&["f1", "f2"])), None, None, 0);
    assert_eq!(status_note(&c, true, 2), "Crate is populated and ready for queries");
    assert_eq!(
        status_note(&c, false, 0),
        "Run on server: cargo run --bin populate_db -- --crate-name alpha --features f1 f2"
    );
}

#[test]
fn removal_replies() {
    assert_eq!(
        removal_reply("alpha", "latest", true),
        Ok("Removed crate configuration for alpha (latest)".to_string())
    );
    assert_eq!(
        removal_reply("alpha", "latest", false),
        Err("No configuration found for alpha (latest)".to_string())
    );
}

#[test]
fn bulk_add_tally() {
    assert_eq!(check_bulk_request(0), Err("No crates provided".to_string()));
    assert!(check_bulk_request(1).is_ok());
    let mut t = AddCratesTally::new(false);
    t.saved("alpha");
    assert!(t.failed("", "Crate name cannot be empty".to_string(), false));
    t.saved("gamma");
    let s = t.summary();
    assert_eq!((s.total, s.successful, s.failed, s.ingestion_started), (3, 2, 1, 2));
    assert_eq!(t.message(), "Configured 2 crates successfully, 1 failed");
    let results = t.into_results();
    assert_eq!(results[1].message, "Validation failed");
    assert!(!results[1].success);

    let mut t = AddCratesTally::new(true);
    assert!(!t.failed("alpha", "db down".to_string(), true));
    assert_eq!(t.message(), "Failed to configure any crates (1 errors)");
    let mut t = AddCratesTally::new(true);
    t.saved("alpha");
    assert_eq!(t.message(), "Successfully configured 1 crates, ingestion started");
}

#[test]
fn job_statements() {
    assert_eq!(
        job_update_sql(JobStatus::Running, false, false),
        "UPDATE population_jobs SET status = $1, started_at = CURRENT_TIMESTAMP WHERE id = $2 AND status = 'pending'"
    );
    assert_eq!(
        job_update_sql(JobStatus::Completed, false, true),
        "UPDATE population_jobs SET status = $1, completed_at = CURRENT_TIMESTAMP, docs_populated = $2 WHERE id = $3 AND status = 'running'"
    );
    assert_eq!(
        job_update_sql(JobStatus::Failed, true, true),
        "UPDATE population_jobs SET status = $1, completed_at = CURRENT_TIMESTAMP, error_message = $2, docs_populated = $3 WHERE id = $4 AND status = 'running'"
    );
    assert_eq!(
        job_update_sql(JobStatus::Pending, false, false),
        "UPDATE population_jobs SET status = $1 WHERE id = $2"
    );
}

#[test]
fn job_moves_pending_running_completed() {
    let mut j = JobTracker::new();
    assert_eq!(j.status(), JobStatus::Pending);
    let u = j.start();
    assert_eq!(u.status.as_str(), "running");
    let done = j.complete(3);
    assert_eq!(done.docs_populated, Some(3));
    assert_eq!(j.status().as_str(), "completed");
    assert!(done.sql().contains("completed_at"));
    let mut f = JobTracker::new();
    f.start();
    let failed = f.fail("boom".to_string());
    assert_eq!(failed.error_message, Some("boom".to_string()));
    assert!(failed.sql().contains("completed_at"));
}

#[test]
fn health_gating() {
    let mut s = ReadinessState::new();
    let live = health_reply(true, "/health/live", &s);
    assert_eq!(live.status, 200);
    let ready = health_reply(true, "/health/ready", &s);
    assert_eq!(ready.status, 503);
    assert!(ready.body.contains("\"database_connected\":false"));
    s.database_connected = true;
    s.embedding_initialized = true;
    let ready = health_reply(true, "/health/ready", &s);
    assert_eq!(ready.status, 200);
    assert_eq!(
        ready.body,
        "{\"status\":\"ready\",\"service\":\"rustdocs-mcp-server\",\"auto_population_complete\":false}"
    );
    assert_eq!(health_reply(true, "/health", &s).status, 200);
    assert_eq!(health_reply(true, "/other", &s).status, 404);
    assert_eq!(health_reply(false, "/health/live", &s).status, 404);
}

#[test]
fn package_selection() {
    let configured = names(&["alpha", "beta", "gamma"]);
    assert_eq!(select_packages(&configured, &names(&[])), configured);
    assert_eq!(select_packages(&configured, &names(&["gamma", "alpha", "zeta"])), names(&["alpha", "gamma"]));
}

#[test]
fn startup_messages() {
    assert_eq!(
        startup_message(&names(&[]), &names(&[]), &vec![]),
        "HTTP SSE MCP server initialized with no crates. Use the 'add_crate' tool to configure crates."
    );
    assert_eq!(
        startup_message(&names(&[]), &names(&["beta"]), &vec![]),
        "HTTP SSE MCP server initialized. 1 crates configured but not populated: beta. Use MCP tools to manage crates."
    );
    assert_eq!(
        startup_message(&names(&["alpha"]), &names(&["beta"]), &vec![Some(2)]),
        "HTTP SSE MCP server for crate 'alpha' initialized. 2 documents available via database search. (Note: 1 crates pending population: beta)"
    );
    assert_eq!(
        startup_message(&names(&["alpha", "gamma", "delta"]), &names(&[]), &vec![Some(2), Some(5), None]),
        "HTTP SSE MCP multi-crate server initialized. 7 total documents available from 3 crates: alpha (2), gamma (5)."
    );
}

#[test]
fn session_settings() {
    let c = ConnectionConfig::default();
    assert_eq!(c.initialize_timeout_ms, 30000);
    assert_eq!(connection_id(7), "conn-7");
}

#[test]
fn batches_keep_order_and_limits() {
    let b = plan_batches(&vec![3, 3, 3, 10, 1], 2, 6);
    assert_eq!(b, vec![(0, 2), (2, 3), (3, 4), (4, 5)]);
    assert!(plan_batches(&vec![], 4, 4).is_empty());
    assert_eq!(plan_batches(&vec![1, 1, 1], 10, 100), vec![(0, 3)]);
}

#[test]
fn token_counts_of_batch_rows() {
    let tok = Tokenizer::cl100k();
    assert_eq!(tok.count("hello world").unwrap(), 2);
    let docs = vec![
        Document { path: "a".to_string(), content: "hello world".to_string() },
        Document { path: "b".to_string(), content: "".to_string() },
    ];
    let rows = build_batch(&tok, &docs).unwrap();
    assert_eq!(rows.len(), 2);
    assert_eq!(rows[0].path, "a");
    assert_eq!(rows[0].token_count, 2);
    assert_eq!(rows[1].token_count, 0);
}

#[test]
fn empty_crawl_is_reported() {
    assert_eq!(
        check_documents("alpha", 0),
        Err(ServerError::Config("No documents found for crate: alpha".to_string()))
    );
    assert!(check_documents("alpha", 2).is_ok());
}

#[test]
fn text_helpers() {
    assert_eq!(connection_id(0), "conn-0");
    assert_eq!(connection_id(1234), "conn-1234");
    assert_eq!(join(&names(&["a", "b", "c"]), ", "), "a, b, c");
    assert_eq!(join(&names(&[]), ", "), "");
}

#[test]
fn ingestion_completes_with_stored_count() {
    let (mut ing, start) = Ingestion::start();
    assert_eq!(start.status, JobStatus::Running);
    assert!(ing.crawled("alpha", 3).is_ok());
    let (report, done) = ing.stored(3, 42, Some("1.2.3".to_string()));
    assert_eq!(done.status, JobStatus::Completed);
    assert_eq!(done.docs_populated, Some(3));
    assert_eq!(report.documents_loaded, 3);
    assert_eq!(report.embeddings_generated, 3);
    assert_eq!(report.total_tokens, 42);
}

#[test]
fn ingestion_of_nothing_completes_empty() {
    let (mut ing, _) = Ingestion::start();
    let (err, done) = ing.crawled("alpha", 0).unwrap_err();
    assert_eq!(err, ServerError::Config("No documents found for crate: alpha".to_string()));
    assert_eq!(done.status, JobStatus::Completed);
    assert_eq!(done.docs_populated, Some(0));
}

#[test]
fn ingestion_failure_records_message() {
    let (mut ing, _) = Ingestion::start();
    let err = ServerError::Database("Failed to insert embedding: timeout".to_string());
    let failed = ing.failed(&err);
    assert_eq!(failed.status, JobStatus::Failed);
    assert_eq!(
        failed.error_message,
        Some("Database error: Failed to insert embedding: timeout".to_string())
    );
    assert!(failed.sql().contains("completed_at"));
}
