//! Ingestion job records: their statuses, the order those may follow each
//! other, and the statement that writes a status change.
use vstd::prelude::*;
use crate::text::{contains_seq, decimal, decimal_text};

verus! {

#[derive(Debug, Clone, Copy, PartialEq, Eq, Structural)]
pub enum JobStatus {
    Pending,
    Running,
    Completed,
    Failed,
}

pub open spec fn status_name(s: JobStatus) -> Seq<char> {
    match s {
        JobStatus::Pending => "pending"@,
        JobStatus::Running => "running"@,
        JobStatus::Completed => "completed"@,
        JobStatus::Failed => "failed"@,
    }
}

pub open spec fn is_terminal(s: JobStatus) -> bool {
    s == JobStatus::Completed || s == JobStatus::Failed
}

/// Jobs go pending, then running, then completed or failed.
pub open spec fn may_follow(from: JobStatus, to: JobStatus) -> bool {
    (from == JobStatus::Pending && to == JobStatus::Running) || (from == JobStatus::Running
        && is_terminal(to))
}

impl JobStatus {
    /// The status as the store records it.
    pub fn as_str(&self) -> (r: &'static str)
        ensures
            r@ == status_name(*self),
    {
        match self {
            JobStatus::Pending => "pending",
            JobStatus::Running => "running",
            JobStatus::Completed => "completed",
            JobStatus::Failed => "failed",
        }
    }
}

/// The status a job must hold for a change to `to` to apply.
pub open spec fn predecessor(to: JobStatus) -> Option<JobStatus> {
    match to {
        JobStatus::Pending => None,
        JobStatus::Running => Some(JobStatus::Pending),
        _ => Some(JobStatus::Running),
    }
}

/// The condition that keeps a change from applying to a job in any other status.
pub open spec fn guard(to: JobStatus) -> Seq<char> {
    match to {
        JobStatus::Pending => Seq::empty(),
        JobStatus::Running => " AND status = 'pending'"@,
        _ => " AND status = 'running'"@,
    }
}

/// The parametrised statement that writes a status change to job `$last`:
/// `$1` is the status; the error message and the document count follow, in that
/// order, when given. Starting stamps `started_at`; finishing stamps
/// `completed_at`. A change applies only to a job in the status that may
/// precede it, so a row never moves against `may_follow`.
pub open spec fn spec_job_update_sql(status: JobStatus, has_error: bool, has_docs: bool) -> Seq<
    char,
> {
    let stamp = match status {
        JobStatus::Running => ", started_at = CURRENT_TIMESTAMP"@,
        JobStatus::Completed => ", completed_at = CURRENT_TIMESTAMP"@,
        JobStatus::Failed => ", completed_at = CURRENT_TIMESTAMP"@,
        JobStatus::Pending => Seq::empty(),
    };
    let err_n: nat = 2;
    let docs_n: nat = if has_error { 3 } else { 2 };
    let id_n: nat = 2 + (if has_error { 1nat } else { 0 }) + (if has_docs { 1nat } else { 0 });
    "UPDATE population_jobs SET status = $1"@ + stamp + (if has_error {
        ", error_message = $"@ + decimal(err_n)
    } else {
        Seq::empty()
    }) + (if has_docs {
        ", docs_populated = $"@ + decimal(docs_n)
    } else {
        Seq::empty()
    }) + " WHERE id = $"@ + decimal(id_n) + guard(status)
}

pub fn job_update_sql(status: JobStatus, has_error: bool, has_docs: bool) -> (r: String)
    ensures
        r@ == spec_job_update_sql(status, has_error, has_docs),
{
    let mut q = String::from_str("UPDATE population_jobs SET status = $1");
    match status {
        JobStatus::Running => q.append(", started_at = CURRENT_TIMESTAMP"),
        JobStatus::Completed => q.append(", completed_at = CURRENT_TIMESTAMP"),
        JobStatus::Failed => q.append(", completed_at = CURRENT_TIMESTAMP"),
        JobStatus::Pending => {},
    }
    let mut n: u64 = 1;
    if has_error {
        n = n + 1;
        q.append(", error_message = $");
        q.append(decimal_text(n).as_str());
    }
    if has_docs {
        n = n + 1;
        q.append(", docs_populated = $");
        q.append(decimal_text(n).as_str());
    }
    q.append(" WHERE id = $");
    q.append(decimal_text(n + 1).as_str());
    match status {
        JobStatus::Running => q.append(" AND status = 'pending'"),
        JobStatus::Completed => q.append(" AND status = 'running'"),
        JobStatus::Failed => q.append(" AND status = 'running'"),
        JobStatus::Pending => {},
    }
    q
}

/// A status change of one job, with the fields it writes.
#[derive(Debug, Clone, PartialEq, Eq)]
pub struct JobUpdate {
    pub status: JobStatus,
    pub error_message: Option<String>,
    pub docs_populated: Option<i32>,
}

impl JobUpdate {
    /// The statement to run for this change; its parameters are the status, the
    /// error message and the document count when present, then the job id.
    pub fn sql(&self) -> (r: String)
        ensures
            r@ == spec_job_update_sql(
                self.status,
                self.error_message.is_some(),
                self.docs_populated.is_some(),
            ),
    {
        job_update_sql(self.status, self.error_message.is_some(), self.docs_populated.is_some())
    }
}

/// Tracks the status of one ingestion job and hands out the update for each
/// change, so that a job only moves along `may_follow`.
pub struct JobTracker {
    status: JobStatus,
}

impl JobTracker {
    pub closed spec fn spec_status(&self) -> JobStatus {
        self.status
    }

    /// A job as created: pending.
    pub fn new() -> (r: JobTracker)
        ensures
            r.spec_status() == JobStatus::Pending,
    {
        JobTracker { status: JobStatus::Pending }
    }

    pub fn status(&self) -> (r: JobStatus)
        ensures
            r == self.spec_status(),
    {
        self.status
    }

    pub fn start(&mut self) -> (u: JobUpdate)
        requires
            old(self).spec_status() == JobStatus::Pending,
        ensures
            may_follow(old(self).spec_status(), final(self).spec_status()),
            final(self).spec_status() == JobStatus::Running,
            u == (JobUpdate { status: JobStatus::Running, error_message: None, docs_populated: None }),
    {
        self.status = JobStatus::Running;
        JobUpdate { status: JobStatus::Running, error_message: None, docs_populated: None }
    }

    pub fn complete(&mut self, docs: i32) -> (u: JobUpdate)
        requires
            old(self).spec_status() == JobStatus::Running,
        ensures
            may_follow(old(self).spec_status(), final(self).spec_status()),
            final(self).spec_status() == JobStatus::Completed,
            u == (JobUpdate {
                status: JobStatus::Completed,
                error_message: None,
                docs_populated: Some(docs),
            }),
    {
        self.status = JobStatus::Completed;
        JobUpdate { status: JobStatus::Completed, error_message: None, docs_populated: Some(docs) }
    }

    pub fn fail(&mut self, message: String) -> (u: JobUpdate)
        requires
            old(self).spec_status() == JobStatus::Running,
        ensures
            may_follow(old(self).spec_status(), final(self).spec_status()),
            final(self).spec_status() == JobStatus::Failed,
            u == (JobUpdate {
                status: JobStatus::Failed,
                error_message: Some(message),
                docs_populated: None,
            }),
    {
        self.status = JobStatus::Failed;
        JobUpdate { status: JobStatus::Failed, error_message: Some(message), docs_populated: None }
    }
}

/// Every update that finishes a job stamps its completion time, whatever
/// optional fields it carries.
pub proof fn finishing_stamps_completion(status: JobStatus, has_error: bool, has_docs: bool)
    requires
        is_terminal(status),
    ensures
        contains_seq(
            spec_job_update_sql(status, has_error, has_docs),
            ", completed_at = CURRENT_TIMESTAMP"@,
        ),
{
    let s = spec_job_update_sql(status, has_error, has_docs);
    let head = "UPDATE population_jobs SET status = $1"@;
    let stamp = ", completed_at = CURRENT_TIMESTAMP"@;
    assert(s.subrange(head.len() as int, (head.len() + stamp.len()) as int) =~= stamp);
    assert(crate::text::occurs_at(s, stamp, head.len() as int));
}

/// A status change is guarded by exactly the status that may precede it:
/// the statement's condition names `from` only when `may_follow(from, to)`.
pub proof fn updates_follow_lifecycle(to: JobStatus, from: JobStatus)
    ensures
        predecessor(to) == Some(from) <==> may_follow(from, to),
        predecessor(to) matches Some(p) ==> guard(to) == " AND status = '"@ + status_name(p) + "'"@,
{
    reveal_strlit(" AND status = 'pending'");
    reveal_strlit(" AND status = 'running'");
    reveal_strlit(" AND status = '");
    reveal_strlit("pending");
    reveal_strlit("running");
    reveal_strlit("'");
    assert(" AND status = 'pending'"@ =~= " AND status = '"@ + "pending"@ + "'"@);
    assert(" AND status = 'running'"@ =~= " AND status = '"@ + "running"@ + "'"@);
}

} // verus!
