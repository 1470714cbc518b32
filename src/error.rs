//! Error kinds of the library.
use vstd::prelude::*;

verus! {

/// Failure of the documentation loader for one page or one crawl.
#[derive(Debug, Clone, PartialEq, Eq)]
pub enum DocLoaderError {
    /// A transport or body-read failure, with the client's message.
    Http(String),
    Selector(String),
    Parsing(String),
    /// A permanent failure status, or a server error after the last attempt.
    Network(String),
    /// Still rate limited after the last attempt.
    RateLimited(String),
}


/// Failure of a service operation.
#[derive(Debug, Clone, PartialEq, Eq)]
pub enum ServerError {
    Config(String),
    Database(String),
    DocLoader(DocLoaderError),
    Tokenizer(String),
    Internal(String),
    MissingEnvVar(String),
    McpRuntime(String),
}


impl DocLoaderError {
    pub open spec fn spec_message(&self) -> Seq<char> {
        match self {
            DocLoaderError::Http(m) => "HTTP Error: "@ + m@,
            DocLoaderError::Selector(m) => "CSS selector error: "@ + m@,
            DocLoaderError::Parsing(m) => "Parsing error: "@ + m@,
            DocLoaderError::Network(m) => "Network error: "@ + m@,
            DocLoaderError::RateLimited(m) => "Rate limited: "@ + m@,
        }
    }

    /// Human-readable description.
    pub fn message(&self) -> (r: String)
        ensures
            r@ == self.spec_message(),
    {
        match self {
            DocLoaderError::Http(m) => String::from_str("HTTP Error: ").concat(m.as_str()),
            DocLoaderError::Selector(m) => String::from_str("CSS selector error: ").concat(m.as_str()),
            DocLoaderError::Parsing(m) => String::from_str("Parsing error: ").concat(m.as_str()),
            DocLoaderError::Network(m) => String::from_str("Network error: ").concat(m.as_str()),
            DocLoaderError::RateLimited(m) => String::from_str("Rate limited: ").concat(m.as_str()),
        }
    }
}

impl ServerError {
    pub open spec fn spec_message(&self) -> Seq<char> {
        match self {
            ServerError::Config(m) => "Configuration error: "@ + m@,
            ServerError::Database(m) => "Database error: "@ + m@,
            ServerError::DocLoader(e) => "Document loader error: "@ + e.spec_message(),
            ServerError::Tokenizer(m) => "Tokenizer error: "@ + m@,
            ServerError::Internal(m) => "Internal error: "@ + m@,
            ServerError::MissingEnvVar(m) => "Missing environment variable: "@ + m@,
            ServerError::McpRuntime(m) => "MCP runtime error: "@ + m@,
        }
    }

    /// Human-readable description.
    pub fn message(&self) -> (r: String)
        ensures
            r@ == self.spec_message(),
    {
        match self {
            ServerError::Config(m) => String::from_str("Configuration error: ").concat(m.as_str()),
            ServerError::Database(m) => String::from_str("Database error: ").concat(m.as_str()),
            ServerError::DocLoader(e) => String::from_str("Document loader error: ").concat(
                e.message().as_str(),
            ),
            ServerError::Tokenizer(m) => String::from_str("Tokenizer error: ").concat(m.as_str()),
            ServerError::Internal(m) => String::from_str("Internal error: ").concat(m.as_str()),
            ServerError::MissingEnvVar(m) => String::from_str("Missing environment variable: ")
                .concat(m.as_str()),
            ServerError::McpRuntime(m) => String::from_str("MCP runtime error: ").concat(m.as_str()),
        }
    }
}

} // verus!
