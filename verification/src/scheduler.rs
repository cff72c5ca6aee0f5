//! Proof jobs and their lifecycle.

pub mod job_queue;
pub mod retry;

use crate::dispatcher::ProverKind;
use crate::text::{copy_option, copy_strings, opt_text, texts};
use vstd::prelude::*;

verus! {

/// Identifier of a job: a 128-bit value.
#[derive(Debug, Clone, Copy, PartialEq, Eq, Hash, Structural)]
pub struct JobId(pub u128);

/// How urgent a job is. The variants are declared in rising order.
#[derive(Debug, Clone, Copy, PartialEq, Eq, PartialOrd, Ord, Hash, Structural)]
pub enum JobPriority {
    Low,
    Normal,
    High,
    Critical,
}

/// Where a job stands in its life.
#[derive(Debug, Clone, Copy, PartialEq, Eq, Structural)]
pub enum JobStatus {
    Queued,
    Running,
    Completed,
    Failed,
    Cancelled,
}

/// What a finished job reports.
#[derive(Debug)]
pub struct JobResult {
    pub success: bool,
    pub message: String,
    pub prover_output: String,
    pub duration_ms: u64,
    pub verified_files: Vec<String>,
    pub failed_files: Vec<String>,
}

/// One unit of work: one prover on one commit of one repository.
#[derive(Debug)]
pub struct ProofJob {
    pub id: JobId,
    pub repo_id: u128,
    pub commit_sha: String,
    pub prover: ProverKind,
    /// The files to check; empty means all.
    pub file_paths: Vec<String>,
    pub priority: JobPriority,
    pub status: JobStatus,
    /// Milliseconds since the Unix epoch.
    pub queued_at: i64,
    pub started_at: Option<i64>,
    pub completed_at: Option<i64>,
    pub error_message: Option<String>,
}

/// A job as contracts see it: texts in place of strings.
pub struct JobView {
    pub id: u128,
    pub repo_id: u128,
    pub commit_sha: Seq<char>,
    pub prover: ProverKind,
    pub file_paths: Seq<Seq<char>>,
    pub priority: JobPriority,
    pub status: JobStatus,
    pub queued_at: i64,
    pub started_at: Option<i64>,
    pub completed_at: Option<i64>,
    pub error_message: Option<Seq<char>>,
}

impl View for ProofJob {
    type V = JobView;

    open spec fn view(&self) -> JobView {
        JobView {
            id: self.id.0,
            repo_id: self.repo_id,
            commit_sha: self.commit_sha@,
            prover: self.prover,
            file_paths: texts(self.file_paths@),
            priority: self.priority,
            status: self.status,
            queued_at: self.queued_at,
            started_at: self.started_at,
            completed_at: self.completed_at,
            error_message: opt_text(self.error_message),
        }
    }
}

/// The number that orders priorities: a higher number is served first.
pub open spec fn rank(p: JobPriority) -> int {
    match p {
        JobPriority::Low => 0,
        JobPriority::Normal => 1,
        JobPriority::High => 2,
        JobPriority::Critical => 3,
    }
}

/// Milliseconds from `from` to `to`, and zero where `to` lies before `from`.
pub open spec fn elapsed_ms(from: i64, to: i64) -> int {
    if to >= from {
        to - from
    } else {
        0
    }
}

impl JobView {
    /// Two jobs ask for the same work: same repository, commit and prover.
    pub open spec fn same_work(self, other: JobView) -> bool {
        self.repo_id == other.repo_id && self.commit_sha == other.commit_sha && self.prover
            == other.prover
    }

    /// The timestamps agree with the status: a start time is recorded from
    /// `Running` on, a completion time exactly in the terminal states.
    pub open spec fn consistent(self) -> bool {
        match self.status {
            JobStatus::Queued => self.started_at is None && self.completed_at is None,
            JobStatus::Running => self.started_at is Some && self.completed_at is None,
            JobStatus::Completed | JobStatus::Failed => self.started_at is Some
                && self.completed_at is Some,
            JobStatus::Cancelled => self.completed_at is Some,
        }
    }

    /// The job once it runs, started at `now`.
    pub open spec fn started(self, now: i64) -> JobView {
        JobView { status: JobStatus::Running, started_at: Some(now), ..self }
    }

    /// The job once it has finished at `now` with the given outcome. A
    /// failure leaves its message on the job.
    pub open spec fn completed(self, success: bool, message: Seq<char>, now: i64) -> JobView {
        JobView {
            status: if success {
                JobStatus::Completed
            } else {
                JobStatus::Failed
            },
            completed_at: Some(now),
            error_message: if success {
                self.error_message
            } else {
                Some(message)
            },
            ..self
        }
    }

    /// The job once it was cancelled at `now`.
    pub open spec fn cancelled(self, now: i64) -> JobView {
        JobView { status: JobStatus::Cancelled, completed_at: Some(now), ..self }
    }

    /// How long the job ran, once it has both timestamps.
    pub open spec fn duration(self) -> Option<u64> {
        match (self.started_at, self.completed_at) {
            (Some(s), Some(c)) => Some(elapsed_ms(s, c) as u64),
            _ => None,
        }
    }
}

/// The value is laid out as a random UUID: the four bits of the version
/// field say 4 and the two bits of the variant field say binary 10. The
/// other 122 bits are free.
pub open spec fn is_random_uuid(v: u128) -> bool {
    (v as int / 0x1000_0000_0000_0000_0000) % 16 == 4 && (v as int / 0x4000_0000_0000_0000) % 4
        == 2
}

/// `Uuid::new_v4` of the uuid crate, as a 128-bit number. The value is
/// random; what holds of every outcome is its layout: the crate sets the
/// version field to 4 and the variant field to binary 10.
#[verifier::external_body]
pub(crate) fn fresh_id() -> (r: u128)
    ensures
        is_random_uuid(r),
{
    uuid::Uuid::new_v4().as_u128()
}

/// `Utc::now` of the chrono crate, as milliseconds since the Unix epoch.
/// The value is the clock's: nothing is claimed of it.
#[verifier::external_body]
pub(crate) fn now_millis() -> i64 {
    chrono::Utc::now().timestamp_millis()
}

/// Milliseconds from `from` to `to`, and zero where `to` lies before `from`.
pub fn elapsed(from: i64, to: i64) -> (r: u64)
    ensures
        r == elapsed_ms(from, to),
{
    if to >= from {
        let wide: i128 = to as i128 - from as i128;
        wide as u64
    } else {
        0
    }
}

impl JobId {
    /// A new random identifier, laid out as a random UUID.
    pub fn new() -> (r: JobId)
        ensures
            is_random_uuid(r.0),
    {
        JobId(fresh_id())
    }
}

impl JobPriority {
    /// The number that orders priorities.
    pub fn rank(&self) -> (r: u8)
        ensures
            r == rank(*self),
    {
        match self {
            JobPriority::Low => 0,
            JobPriority::Normal => 1,
            JobPriority::High => 2,
            JobPriority::Critical => 3,
        }
    }
}

impl JobStatus {
    /// Whether the job has reached an end: completed, failed or cancelled.
    pub fn is_terminal(&self) -> (r: bool)
        ensures
            r == (*self is Completed || *self is Failed || *self is Cancelled),
    {
        match self {
            JobStatus::Completed | JobStatus::Failed | JobStatus::Cancelled => true,
            JobStatus::Queued | JobStatus::Running => false,
        }
    }
}

impl Clone for JobResult {
    fn clone(&self) -> (r: Self)
        ensures
            r.success == self.success,
            r.message@ == self.message@,
            r.prover_output@ == self.prover_output@,
            r.duration_ms == self.duration_ms,
            texts(r.verified_files@) == texts(self.verified_files@),
            texts(r.failed_files@) == texts(self.failed_files@),
    {
        JobResult {
            success: self.success,
            message: self.message.clone(),
            prover_output: self.prover_output.clone(),
            duration_ms: self.duration_ms,
            verified_files: copy_strings(&self.verified_files),
            failed_files: copy_strings(&self.failed_files),
        }
    }
}

impl Clone for ProofJob {
    fn clone(&self) -> (r: Self)
        ensures
            r@ == self@,
    {
        let error_message = copy_option(&self.error_message);
        ProofJob {
            id: self.id,
            repo_id: self.repo_id,
            commit_sha: self.commit_sha.clone(),
            prover: self.prover,
            file_paths: copy_strings(&self.file_paths),
            priority: self.priority,
            status: self.status,
            queued_at: self.queued_at,
            started_at: self.started_at,
            completed_at: self.completed_at,
            error_message,
        }
    }
}

impl ProofJob {
    /// A queued job of normal priority with the given identifier, queued at
    /// `now`.
    pub fn with_id(
        id: JobId,
        now: i64,
        repo_id: u128,
        commit_sha: String,
        prover: ProverKind,
        file_paths: Vec<String>,
    ) -> (r: ProofJob)
        ensures
            r@ == (JobView {
                id: id.0,
                repo_id,
                commit_sha: commit_sha@,
                prover,
                file_paths: texts(file_paths@),
                priority: JobPriority::Normal,
                status: JobStatus::Queued,
                queued_at: now,
                started_at: None,
                completed_at: None,
                error_message: None,
            }),
            r@.consistent(),
    {
        ProofJob {
            id,
            repo_id,
            commit_sha,
            prover,
            file_paths,
            priority: JobPriority::Normal,
            status: JobStatus::Queued,
            queued_at: now,
            started_at: None,
            completed_at: None,
            error_message: None,
        }
    }

    /// A queued job of normal priority, with a fresh identifier and the
    /// current time as its queueing time.
    pub fn new(repo_id: u128, commit_sha: String, prover: ProverKind, file_paths: Vec<String>) -> (r:
        ProofJob)
        ensures
            r@ == (JobView {
                id: r@.id,
                repo_id,
                commit_sha: commit_sha@,
                prover,
                file_paths: texts(file_paths@),
                priority: JobPriority::Normal,
                status: JobStatus::Queued,
                queued_at: r@.queued_at,
                started_at: None,
                completed_at: None,
                error_message: None,
            }),
            r@.consistent(),
    {
        ProofJob::with_id(JobId::new(), now_millis(), repo_id, commit_sha, prover, file_paths)
    }

    /// The same job with another priority.
    pub fn with_priority(self, priority: JobPriority) -> (r: ProofJob)
        ensures
            r@ == (JobView { priority, ..self@ }),
    {
        let mut job = self;
        job.priority = priority;
        job
    }

    /// Marks the job as running since `now`.
    pub fn start_at(&mut self, now: i64)
        ensures
            final(self)@ == old(self)@.started(now),
            old(self)@.status is Queued && old(self)@.consistent() ==> final(self)@.consistent(),
    {
        self.status = JobStatus::Running;
        self.started_at = Some(now);
    }

    /// Marks the job as running since the current time.
    pub fn start(&mut self)
        ensures
            final(self)@.started_at is Some,
            final(self)@ == old(self)@.started(final(self)@.started_at->0),
    {
        self.start_at(now_millis());
    }

    /// Marks the job as finished at `now` with the outcome that `result`
    /// reports.
    pub fn complete_at(&mut self, result: &JobResult, now: i64)
        ensures
            final(self)@ == old(self)@.completed(result.success, result.message@, now),
            old(self)@.status is Running && old(self)@.consistent() ==> final(self)@.consistent(),
    {
        if result.success {
            self.status = JobStatus::Completed;
        } else {
            self.status = JobStatus::Failed;
            self.error_message = Some(result.message.clone());
        }
        self.completed_at = Some(now);
    }

    /// Marks the job as finished at the current time.
    pub fn complete(&mut self, result: JobResult)
        ensures
            final(self)@.completed_at is Some,
            final(self)@ == old(self)@.completed(
                result.success,
                result.message@,
                final(self)@.completed_at->0,
            ),
    {
        self.complete_at(&result, now_millis());
    }

    /// Marks the job as cancelled at `now`.
    pub fn cancel_at(&mut self, now: i64)
        ensures
            final(self)@ == old(self)@.cancelled(now),
            old(self)@.status is Queued && old(self)@.consistent() ==> final(self)@.consistent(),
    {
        self.status = JobStatus::Cancelled;
        self.completed_at = Some(now);
    }

    /// Marks the job as cancelled at the current time.
    pub fn cancel(&mut self)
        ensures
            final(self)@.completed_at is Some,
            final(self)@ == old(self)@.cancelled(final(self)@.completed_at->0),
    {
        self.cancel_at(now_millis());
    }

    /// How long the job ran, once it has started and finished.
    pub fn duration_ms(&self) -> (r: Option<u64>)
        ensures
            r == self@.duration(),
    {
        match (self.started_at, self.completed_at) {
            (Some(s), Some(c)) => Some(elapsed(s, c)),
            _ => None,
        }
    }
}

} // verus!
