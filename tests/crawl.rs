use rustdocs_mcp_server::crawler::Crawler;
use rustdocs_mcp_server::error::DocLoaderError;
use rustdocs_mcp_server::page::{page_content, page_version, relative_path};
use rustdocs_mcp_server::policy::{
    links_enabled, should_follow_link, should_process_url, version_from_url,
};
use rustdocs_mcp_server::retry::{FetchOutcome, FetchRetry, FetchStep};

const ROOT: &str = "https://docs.rs/alpha/latest/alpha/";

fn page(version: Option<&str>, blocks: &[&str], links: &[&str]) -> String {
    let mut html = String::from("<html><body>");
    if let Some(v) = version {
        html.push_str(&format!("<span class=\"version\"> {v} </span>"));
    }
    for b in blocks {
        html.push_str(&format!("<div class=\"docblock\">{b}</div>"));
    }
    for l in links {
        html.push_str(&format!("<a href=\"{l}\">link</a>"));
    }
    html.push_str("</body></html>");
    html
}

#[test]
fn url_policy_rejects_source_and_item_anchors() {
    assert!(should_process_url("https://docs.rs/alpha/latest/alpha/struct.A.html"));
    assert!(!should_process_url("https://docs.rs/alpha/latest/src/alpha/lib.rs.html"));
    assert!(!should_process_url("https://docs.rs/alpha/latest/alpha/struct.A.html#method.new"));
    assert!(!should_process_url("https://docs.rs/alpha/latest/alpha/struct.A.html#impl-Clone"));
    assert!(!should_process_url("https://docs.rs/alpha/latest/alpha/trait.T.html#associatedtype.X"));
    assert!(!should_process_url(
        "https://docs.rs/alpha/latest/alpha/trait.T.html#associatedconstant.C"
    ));
}

#[test]
fn link_following_takes_relative_paths_only() {
    assert!(should_follow_link("./struct.A.html"));
    assert!(should_follow_link("../beta/index.html"));
    assert!(should_follow_link("struct.A.html"));
    assert!(!should_follow_link("https://example.com/a.html"));
    assert!(!should_follow_link("#section"));
    assert!(!should_follow_link("/alpha/index.html"));
    assert!(!should_follow_link("struct.A"));
}

#[test]
fn link_discovery_stops_at_three_quarters_of_budget() {
    assert!(links_enabled(0, 4));
    assert!(links_enabled(2, 4));
    assert!(!links_enabled(3, 4));
    assert!(!links_enabled(0, 1));
    assert!(links_enabled(7499, 10000));
    assert!(!links_enabled(7500, 10000));
}

#[test]
fn version_from_url_path() {
    assert_eq!(version_from_url("https://docs.rs/serde/1.0.0/serde/"), Some("1.0.0".to_string()));
    assert_eq!(
        version_from_url("https://docs.rs/serde/1.0.0/serde/struct.X.html"),
        Some("1.0.0".to_string())
    );
    assert_eq!(version_from_url("https://docs.rs/serde/latest/serde/"), None);
    assert_eq!(version_from_url("https://docs.rs/serde/stable/serde/"), None);
    assert_eq!(version_from_url("a/b"), None);
}

#[test]
fn version_element_wins_over_url() {
    let html = page(Some("2.0.1"), &[], &[]);
    assert_eq!(
        page_version(&html, "https://docs.rs/serde/1.0.0/serde/"),
        Some("2.0.1".to_string())
    );
    let plain = page(None, &[], &[]);
    assert_eq!(
        page_version(&plain, "https://docs.rs/serde/1.0.0/serde/"),
        Some("1.0.0".to_string())
    );
    assert_eq!(page_version(&plain, ROOT), None);
}

#[test]
fn content_joins_trimmed_text_of_blocks() {
    let blocks = vec![
        vec![" Hello ".to_string(), "   ".to_string(), "World".to_string()],
        vec!["  ".to_string()],
        vec!["Second".to_string()],
    ];
    assert_eq!(page_content(&blocks), "Hello\nWorld\n\nSecond");
    assert_eq!(page_content(&vec![]), "");
}

#[test]
fn paths_are_relative_to_docs_host() {
    assert_eq!(relative_path("https://docs.rs/alpha/latest/alpha/"), "alpha/latest/alpha/");
    assert_eq!(relative_path("https://other.org/x"), "https://other.org/x");
}

#[test]
fn crawl_emits_content_version_and_admitted_links() {
    let mut c = Crawler::new("alpha", Some(5));
    let url = c.next_url().unwrap();
    assert_eq!(url, ROOT);
    let html = page(
        Some("1.2.3"),
        &["<p>Hello</p><p>World</p>"],
        &["struct.A.html", "../src/alpha/lib.rs.html", "#method.x", "https://other.org/b.html"],
    );
    c.record_page(&url, &html);
    let next = c.next_url().unwrap();
    assert_eq!(next, "https://docs.rs/alpha/latest/alpha/struct.A.html");
    assert_eq!(c.next_url(), None);
    let result = c.finish();
    assert_eq!(result.version, Some("1.2.3".to_string()));
    assert_eq!(result.documents.len(), 1);
    assert_eq!(result.documents[0].path, "alpha/latest/alpha/");
    assert_eq!(result.documents[0].content, "Hello\nWorld");
}

#[test]
fn crawl_never_exceeds_page_budget() {
    let mut c = Crawler::new("alpha", Some(4));
    let links: Vec<String> = (0..10).map(|i| format!("struct.S{i}.html")).collect();
    let refs: Vec<&str> = links.iter().map(|s| s.as_str()).collect();
    let mut handed = 0;
    while let Some(url) = c.next_url() {
        handed += 1;
        c.record_page(&url, &page(None, &["<p>text</p>"], &refs));
    }
    assert_eq!(handed, 4);
    assert_eq!(c.processed(), 4);
}

#[test]
fn crawl_with_zero_budget_hands_out_nothing() {
    let mut c = Crawler::new("alpha", Some(0));
    assert_eq!(c.next_url(), None);
    assert!(c.finish().documents.is_empty());
}

#[test]
fn crawl_skips_pages_that_fail_permanently() {
    let links = ["struct.A.html", "struct.B.html", "struct.C.html", "struct.D.html"];
    let mut c = Crawler::new("alpha", Some(5));
    let mut n = 0;
    while let Some(url) = c.next_url() {
        n += 1;
        let mut retry = FetchRetry::new();
        let outcome = if n == 2 || n == 4 {
            FetchOutcome::Status(404, "404 Not Found".to_string())
        } else {
            FetchOutcome::Body(page(None, &[&format!("<p>page {n}</p>")], &links))
        };
        match retry.step(outcome) {
            FetchStep::Done(body) => c.record_page(&url, &body),
            FetchStep::Failed(_) => c.fetch_failed(),
            FetchStep::Retry(_) => panic!("a 404 or a body is never retried"),
        }
    }
    assert_eq!(n, 5);
    assert_eq!(c.finish().documents.len(), 3);
}

#[test]
fn retry_backs_off_then_returns_body() {
    let mut r = FetchRetry::new();
    assert_eq!(r.step(FetchOutcome::Status(500, "500 Internal Server Error".to_string())), FetchStep::Retry(1000));
    assert_eq!(r.step(FetchOutcome::Status(429, "429 Too Many Requests".to_string())), FetchStep::Retry(2000));
    assert_eq!(r.step(FetchOutcome::Body("ok".to_string())), FetchStep::Done("ok".to_string()));
}

#[test]
fn retry_fails_at_once_on_not_found() {
    let mut r = FetchRetry::new();
    assert_eq!(
        r.step(FetchOutcome::Status(404, "404 Not Found".to_string())),
        FetchStep::Failed(DocLoaderError::Network("HTTP 404 Not Found".to_string()))
    );
    let mut r = FetchRetry::new();
    assert_eq!(
        r.step(FetchOutcome::Status(403, "403 Forbidden".to_string())),
        FetchStep::Failed(DocLoaderError::Network("HTTP 403 Forbidden".to_string()))
    );
}

#[test]
fn retry_gives_up_after_last_attempt() {
    let mut r = FetchRetry::new();
    assert_eq!(r.step(FetchOutcome::Status(503, "503 Service Unavailable".to_string())), FetchStep::Retry(1000));
    assert_eq!(r.step(FetchOutcome::Status(503, "503 Service Unavailable".to_string())), FetchStep::Retry(2000));
    assert_eq!(
        r.step(FetchOutcome::Status(503, "503 Service Unavailable".to_string())),
        FetchStep::Failed(DocLoaderError::Network("HTTP 503 Service Unavailable".to_string()))
    );
    let mut r = FetchRetry::new();
    r.step(FetchOutcome::Status(429, "429 Too Many Requests".to_string()));
    r.step(FetchOutcome::Status(429, "429 Too Many Requests".to_string()));
    assert_eq!(
        r.step(FetchOutcome::Status(429, "429 Too Many Requests".to_string())),
        FetchStep::Failed(DocLoaderError::RateLimited("Rate limited after 3 attempts".to_string()))
    );
    let mut r = FetchRetry::new();
    r.step(FetchOutcome::Transport("reset".to_string()));
    r.step(FetchOutcome::BodyUnreadable("cut".to_string()));
    assert_eq!(
        r.step(FetchOutcome::Transport("refused".to_string())),
        FetchStep::Failed(DocLoaderError::Http("refused".to_string()))
    );
}

#[test]
fn version_is_read_from_first_page_only() {
    let mut c2 = Crawler::new("alpha", Some(10));
    let first = c2.next_url().unwrap();
    c2.record_page(&first, &page(None, &["<p>root</p>"], &["struct.A.html"]));
    let second = c2.next_url().unwrap();
    c2.record_page(&second, &page(Some("9.9.9"), &["<p>a</p>"], &[]));
    assert_eq!(c2.finish().version, None);

    let mut c3 = Crawler::new("alpha", Some(10));
    let first = c3.next_url().unwrap();
    c3.record_page(&first, &page(Some("0.4.1"), &[], &[]));
    let r = c3.finish();
    assert_eq!(r.version, Some("0.4.1".to_string()));
    assert!(r.documents.is_empty());
}
