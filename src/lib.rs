//! Verified core of a documentation search service: crawl policy and state,
//! fetch retry decisions, ingestion bookkeeping, the availability set, tool
//! replies and health probes.

pub mod availability;
pub mod batching;
pub mod config;
pub mod crawler;
pub mod error;
pub mod health;
pub mod ingest;
pub mod jobs;
pub mod page;
pub mod policy;
pub mod retry;
pub mod startup;
pub mod text;
pub mod tools;
