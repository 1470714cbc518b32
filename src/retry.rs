//! Decisions of fetching one URL with retries and exponential backoff. The
//! driver performs each attempt and each wait; `FetchRetry::step` decides what
//! follows an attempt's outcome.
use vstd::prelude::*;
use crate::error::DocLoaderError;
use crate::text::{decimal, decimal_text};

verus! {

/// Attempts per URL.
pub const MAX_ATTEMPTS: u32 = 3;

/// Wait before the first retry, in milliseconds.
pub const INITIAL_DELAY_MS: u64 = 1000;

/// Longest wait between attempts, in milliseconds.
pub const MAX_DELAY_MS: u64 = 30000;

/// What one attempt to fetch a URL came to.
#[derive(Debug, Clone, PartialEq, Eq)]
pub enum FetchOutcome {
    /// A success status with its body.
    Body(String),
    /// A success status whose body could not be read.
    BodyUnreadable(String),
    /// Any status that is not a success: its code, and the status as the
    /// client displays it (code and reason phrase, such as `404 Not Found`).
    Status(u16, String),
    /// No response: connection or transport failure.
    Transport(String),
}

/// What to do after an attempt.
#[derive(Debug, Clone, PartialEq, Eq)]
pub enum FetchStep {
    Done(String),
    /// Wait this many milliseconds, then attempt again.
    Retry(u64),
    Failed(DocLoaderError),
}

pub struct FetchRetry {
    attempts: u32,
    delay_ms: u64,
}

/// A status that is never retried: a client error other than 429.
pub open spec fn is_permanent_status(code: u16) -> bool {
    400 <= code < 500 && code != 429
}

pub open spec fn is_retryable(o: FetchOutcome) -> bool {
    match o {
        FetchOutcome::Body(_) => false,
        FetchOutcome::Status(c, _) => !is_permanent_status(c),
        _ => true,
    }
}

/// `e` is the error that ends the fetch on outcome `o` after `attempts` attempts.
pub open spec fn is_final_error(e: DocLoaderError, o: FetchOutcome, attempts: nat) -> bool {
    match (o, e) {
        (FetchOutcome::BodyUnreadable(m), DocLoaderError::Http(x)) => x@ == m@,
        (FetchOutcome::Transport(m), DocLoaderError::Http(x)) => x@ == m@,
        (FetchOutcome::Status(c, _), DocLoaderError::RateLimited(x)) => c == 429 && x@
            == "Rate limited after "@ + decimal(attempts) + " attempts"@,
        (FetchOutcome::Status(c, line), DocLoaderError::Network(x)) => c != 429 && x@ == "HTTP "@
            + line@,
        _ => false,
    }
}

/// The wait after `delay`: doubled, at most the cap.
pub open spec fn next_delay(delay: nat) -> nat {
    if 2 * delay < MAX_DELAY_MS { 2 * delay } else { MAX_DELAY_MS as nat }
}

fn failure(o: &FetchOutcome, attempts: u32) -> (e: DocLoaderError)
    requires
        is_retryable(*o) || o is Status,
        !(o is Body),
    ensures
        is_final_error(e, *o, attempts as nat),
{
    match o {
        FetchOutcome::BodyUnreadable(m) => DocLoaderError::Http(m.clone()),
        FetchOutcome::Transport(m) => DocLoaderError::Http(m.clone()),
        FetchOutcome::Status(c, line) => {
            if *c == 429 {
                let msg = String::from_str("Rate limited after ").concat(
                    decimal_text(attempts as u64).as_str(),
                ).concat(" attempts");
                DocLoaderError::RateLimited(msg)
            } else {
                let msg = String::from_str("HTTP ").concat(line.as_str());
                DocLoaderError::Network(msg)
            }
        },
        FetchOutcome::Body(_) => DocLoaderError::Parsing(String::new()),
    }
}

impl FetchRetry {
    pub closed spec fn spec_attempts(&self) -> nat {
        self.attempts as nat
    }

    pub closed spec fn spec_delay_ms(&self) -> nat {
        self.delay_ms as nat
    }

    pub closed spec fn wf(&self) -> bool {
        self.attempts < MAX_ATTEMPTS && 0 < self.delay_ms <= MAX_DELAY_MS
    }

    /// No attempt made yet; the first wait is one second.
    pub fn new() -> (r: FetchRetry)
        ensures
            r.wf(),
            r.spec_attempts() == 0,
            r.spec_delay_ms() == INITIAL_DELAY_MS,
    {
        FetchRetry { attempts: 0, delay_ms: INITIAL_DELAY_MS }
    }

    /// Decides what follows the outcome of the attempt just made. A body ends
    /// the fetch; a client error other than 429 fails at once; anything else is
    /// retried after the current delay, until the last attempt, which fails.
    pub fn step(&mut self, outcome: FetchOutcome) -> (r: FetchStep)
        requires
            old(self).wf(),
        ensures
            match outcome {
                FetchOutcome::Body(b) => r == FetchStep::Done(b),
                _ => if !is_retryable(outcome) {
                    match r {
                        FetchStep::Failed(e) => is_final_error(e, outcome, old(self).spec_attempts() + 1),
                        _ => false,
                    }
                } else if old(self).spec_attempts() + 1 >= MAX_ATTEMPTS {
                    match r {
                        FetchStep::Failed(e) => is_final_error(e, outcome, old(self).spec_attempts() + 1),
                        _ => false,
                    }
                } else {
                    &&& r == FetchStep::Retry(old(self).spec_delay_ms() as u64)
                    &&& final(self).wf()
                    &&& final(self).spec_attempts() == old(self).spec_attempts() + 1
                    &&& final(self).spec_delay_ms() == next_delay(old(self).spec_delay_ms())
                },
            },
    {
        match outcome {
            FetchOutcome::Body(b) => FetchStep::Done(b),
            _ => {
                let made = self.attempts + 1;
                let retryable = match &outcome {
                    FetchOutcome::Status(c, _) => !(400 <= *c && *c < 500 && *c != 429),
                    _ => true,
                };
                if !retryable || made >= MAX_ATTEMPTS {
                    FetchStep::Failed(failure(&outcome, made))
                } else {
                    let wait = self.delay_ms;
                    self.attempts = made;
                    self.delay_ms = if wait < MAX_DELAY_MS / 2 { 2 * wait } else { MAX_DELAY_MS };
                    FetchStep::Retry(wait)
                }
            },
        }
    }
}

} // verus!
