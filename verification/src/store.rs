//! Repositories, jobs and results as the bot records them, and a store
//! that keeps them in memory with the guarantees asked of every store: one
//! row per natural key, deletion that cascades, and job lists with the
//! most recent job first.

use crate::adapters::Platform;
use crate::dispatcher::ProverKind;
use crate::error::Error;
use crate::scheduler::{JobId, JobResult, JobStatus, ProofJob};
use crate::text::{opt_text, same_text, texts};
use crate::seqs::{
    first_where, lemma_filter_empty, lemma_filter_position, lemma_filter_positions,
    lemma_filter_prefix, lemma_filter_step, lemma_first_where,
};
use vstd::prelude::*;

verus! {

/// A registered repository.
#[derive(Debug, Clone)]
pub struct Repository {
    /// The surrogate key.
    pub id: u128,
    pub platform: Platform,
    pub owner: String,
    pub name: String,
    /// The provers to run, in order; never empty for a registered
    /// repository.
    pub enabled_provers: Vec<ProverKind>,
    pub enabled: bool,
    pub check_on_push: bool,
    pub check_on_pr: bool,
    pub auto_comment: bool,
    pub webhook_secret: Option<String>,
    pub last_checked_commit: Option<String>,
    /// Milliseconds since the Unix epoch.
    pub created_at: i64,
    pub updated_at: i64,
}

/// A job as the store keeps it.
#[derive(Debug, Clone)]
pub struct ProofJobRecord {
    pub id: JobId,
    pub repo_id: u128,
    pub commit_sha: String,
    pub prover: ProverKind,
    pub file_paths: Vec<String>,
    pub status: JobStatus,
    pub queued_at: i64,
    pub started_at: Option<i64>,
    pub completed_at: Option<i64>,
    pub error_message: Option<String>,
}

/// The result of a job as the store keeps it.
#[derive(Debug, Clone)]
pub struct ProofResultRecord {
    pub job_id: JobId,
    pub result: JobResult,
}

/// Two repositories share their natural key.
pub open spec fn same_key(a: Repository, b: Repository) -> bool {
    a.platform == b.platform && a.owner@ == b.owner@ && a.name@ == b.name@
}

/// The repository carries the natural key `(platform, owner, name)`.
pub open spec fn has_key(r: Repository, platform: Platform, owner: Seq<char>, name: Seq<char>)
    -> bool {
    r.platform == platform && r.owner@ == owner && r.name@ == name
}

/// The test for the natural key `(platform, owner, name)`.
pub open spec fn with_key(platform: Platform, owner: Seq<char>, name: Seq<char>) -> spec_fn(
    Repository,
) -> bool {
    |r: Repository| has_key(r, platform, owner, name)
}

/// The test for the surrogate key `id`.
pub open spec fn with_id(id: u128) -> spec_fn(Repository) -> bool {
    |r: Repository| r.id == id
}

/// The test for the job identifier `id`.
pub open spec fn job_with_id(id: JobId) -> spec_fn(ProofJobRecord) -> bool {
    |j: ProofJobRecord| j.id == id
}

/// The test for the result of the job `id`.
pub open spec fn result_of(id: JobId) -> spec_fn(ProofResultRecord) -> bool {
    |x: ProofResultRecord| x.job_id == id
}

/// The test for jobs that were not queued later than at `at`.
pub open spec fn not_after(at: i64) -> spec_fn(ProofJobRecord) -> bool {
    |j: ProofJobRecord| j.queued_at <= at
}

/// The position of the repository with the given natural key; the length
/// of `repos` if there is none.
pub open spec fn position_by_name(
    repos: Seq<Repository>,
    platform: Platform,
    owner: Seq<char>,
    name: Seq<char>,
) -> int {
    first_where(repos, with_key(platform, owner, name))
}

/// The position of the repository with the given surrogate key; the length
/// of `repos` if there is none.
pub open spec fn position_by_id(repos: Seq<Repository>, id: u128) -> int {
    first_where(repos, with_id(id))
}

/// No two rows share a surrogate key, and no two share a natural key.
pub open spec fn unique(repos: Seq<Repository>) -> bool {
    forall|i: int, j: int|
        #![trigger repos[i], repos[j]]
        0 <= i < j < repos.len() ==> repos[i].id != repos[j].id && !same_key(repos[i], repos[j])
}

/// The jobs are in order of queueing time, the most recent first.
pub open spec fn recent_first(jobs: Seq<ProofJobRecord>) -> bool {
    forall|i: int, j: int|
        #![trigger jobs[i], jobs[j]]
        0 <= i < j < jobs.len() ==> jobs[i].queued_at >= jobs[j].queued_at
}

/// No job has two results.
pub open spec fn one_result_per_job(results: Seq<ProofResultRecord>) -> bool {
    forall|i: int, j: int|
        #![trigger results[i], results[j]]
        0 <= i < j < results.len() ==> results[i].job_id != results[j].job_id
}

/// Job `job_id` is one of `jobs` and belongs to repository `repo_id`.
pub open spec fn job_of_repo(jobs: Seq<ProofJobRecord>, job_id: u128, repo_id: u128) -> bool {
    exists|i: int| 0 <= i < jobs.len() && (#[trigger] jobs[i]).id.0 == job_id && jobs[i].repo_id
        == repo_id
}

/// The record of a job: every field carried over.
pub open spec fn record_of(job: ProofJob, r: ProofJobRecord) -> bool {
    &&& r.id == job.id
    &&& r.repo_id == job.repo_id
    &&& r.commit_sha@ == job.commit_sha@
    &&& r.prover == job.prover
    &&& texts(r.file_paths@) == texts(job.file_paths@)
    &&& r.status == job.status
    &&& r.queued_at == job.queued_at
    &&& r.started_at == job.started_at
    &&& r.completed_at == job.completed_at
    &&& opt_text(r.error_message) == opt_text(job.error_message)
}

impl Repository {
    /// A repository as registration creates it: enabled, checked on pushes
    /// and on pull requests, commented on, with Metamath as its prover.
    pub fn with_id(id: u128, now: i64, platform: Platform, owner: String, name: String) -> (r:
        Repository)
        ensures
            r.id == id,
            r.platform == platform,
            r.owner == owner,
            r.name == name,
            r.enabled_provers@ == seq![ProverKind::Metamath],
            r.enabled && r.check_on_push && r.check_on_pr && r.auto_comment,
            r.webhook_secret is None,
            r.last_checked_commit is None,
            r.created_at == now && r.updated_at == now,
    {
        let mut provers: Vec<ProverKind> = Vec::new();
        provers.push(ProverKind::Metamath);
        Repository {
            id,
            platform,
            owner,
            name,
            enabled_provers: provers,
            enabled: true,
            check_on_push: true,
            check_on_pr: true,
            auto_comment: true,
            webhook_secret: None,
            last_checked_commit: None,
            created_at: now,
            updated_at: now,
        }
    }

    /// A repository as registration creates it, with a fresh identifier
    /// and the current time.
    pub fn new(platform: Platform, owner: String, name: String) -> (r: Repository)
        ensures
            r.platform == platform,
            r.owner == owner,
            r.name == name,
            r.enabled_provers@ == seq![ProverKind::Metamath],
            r.enabled && r.check_on_push && r.check_on_pr && r.auto_comment,
            r.webhook_secret is None,
            r.last_checked_commit is None,
            r.created_at == r.updated_at,
    {
        Repository::with_id(
            crate::scheduler::fresh_id(),
            crate::scheduler::now_millis(),
            platform,
            owner,
            name,
        )
    }
}

impl ProofJobRecord {
    /// The record of a job.
    pub fn from_job(job: ProofJob) -> (r: ProofJobRecord)
        ensures
            record_of(job, r),
    {
        ProofJobRecord {
            id: job.id,
            repo_id: job.repo_id,
            commit_sha: job.commit_sha,
            prover: job.prover,
            file_paths: job.file_paths,
            status: job.status,
            queued_at: job.queued_at,
            started_at: job.started_at,
            completed_at: job.completed_at,
            error_message: job.error_message,
        }
    }
}

/// A store in memory.
pub struct MemoryStore {
    repos: Vec<Repository>,
    jobs: Vec<ProofJobRecord>,
    results: Vec<ProofResultRecord>,
}

impl MemoryStore {
    /// The rows of the repositories, in the order of their creation.
    pub closed spec fn repositories(&self) -> Seq<Repository> {
        self.repos@
    }

    /// The rows of the jobs, the most recent first.
    pub closed spec fn jobs(&self) -> Seq<ProofJobRecord> {
        self.jobs@
    }

    /// The rows of the results.
    pub closed spec fn results(&self) -> Seq<ProofResultRecord> {
        self.results@
    }

    /// The invariant of the store: keys are unique, jobs are in order, and
    /// no job has two results.
    pub open spec fn inv(&self) -> bool {
        unique(self.repositories()) && recent_first(self.jobs()) && one_result_per_job(
            self.results(),
        )
    }

    /// An empty store.
    pub fn new() -> (r: MemoryStore)
        ensures
            r.inv(),
            r.repositories() == Seq::<Repository>::empty(),
            r.jobs() == Seq::<ProofJobRecord>::empty(),
            r.results() == Seq::<ProofResultRecord>::empty(),
    {
        MemoryStore { repos: Vec::new(), jobs: Vec::new(), results: Vec::new() }
    }

    /// The store answers.
    pub fn health_check(&self) -> (r: bool)
        ensures
            r,
    {
        true
    }

    /// Adds a row. A row that shares its surrogate or its natural key with
    /// an existing one is refused, and nothing changes.
    #[verifier::loop_isolation(false)]
    pub fn create_repository(&mut self, repo: Repository) -> (r: Result<(), Error>)
        requires
            old(self).inv(),
        ensures
            final(self).inv(),
            final(self).jobs() == old(self).jobs(),
            final(self).results() == old(self).results(),
            r is Ok <==> (forall|i: int|
                0 <= i < old(self).repositories().len() ==> (#[trigger] old(
                    self,
                ).repositories()[i]).id != repo.id && !same_key(
                    old(self).repositories()[i],
                    repo,
                )),
            r is Ok ==> final(self).repositories() == old(self).repositories().push(repo),
            r is Err ==> final(self).repositories() == old(self).repositories() && r->Err_0
                is Sqlx,
    {
        let mut i: usize = 0;
        while i < self.repos.len()
            invariant
                i <= self.repos.len(),
                forall|k: int|
                    0 <= k < i ==> (#[trigger] self.repos@[k]).id != repo.id && !same_key(
                        self.repos@[k],
                        repo,
                    ),
            decreases self.repos.len() - i,
        {
            let other = &self.repos[i];
            if other.id == repo.id {
                return Err(Error::Sqlx("UNIQUE constraint failed: repositories.id".to_owned()));
            }
            if other.platform == repo.platform && same_text(other.owner.as_str(), repo.owner.as_str())
                && same_text(other.name.as_str(), repo.name.as_str()) {
                assert(same_key(self.repos@[i as int], repo));
                return Err(
                    Error::Sqlx(
                        "UNIQUE constraint failed: repositories.platform, repositories.owner, repositories.name".to_owned(),
                    ),
                );
            }
            i += 1;
        }
        self.repos.push(repo);
        Ok(())
    }

    /// The row with the given surrogate key.
    #[verifier::loop_isolation(false)]
    pub fn get_repository(&self, id: u128) -> (r: Option<&Repository>)
        ensures
            r is Some <==> position_by_id(self.repositories(), id) < self.repositories().len(),
            r is Some ==> *r->0 == self.repositories()[position_by_id(self.repositories(), id)]
                && r->0.id == id,
    {
        let mut i: usize = 0;
        while i < self.repos.len()
            invariant
                i <= self.repos.len(),
                forall|k: int| 0 <= k < i ==> (#[trigger] self.repos@[k]).id != id,
            decreases self.repos.len() - i,
        {
            if self.repos[i].id == id {
                proof {
                    lemma_first_where(self.repos@, with_id(id), i as int);
                }
                return Some(&self.repos[i]);
            }
            i += 1;
        }
        proof {
            lemma_first_where(self.repos@, with_id(id), self.repos@.len() as int);
        }
        None
    }

    /// The row with the given natural key.
    #[verifier::loop_isolation(false)]
    pub fn get_repository_by_name(&self, platform: Platform, owner: &str, name: &str) -> (r: Option<
        &Repository,
    >)
        ensures
            r is Some <==> position_by_name(self.repositories(), platform, owner@, name@)
                < self.repositories().len(),
            r is Some ==> *r->0 == self.repositories()[position_by_name(
                self.repositories(),
                platform,
                owner@,
                name@,
            )] && has_key(*r->0, platform, owner@, name@),
    {
        let mut i: usize = 0;
        while i < self.repos.len()
            invariant
                i <= self.repos.len(),
                forall|k: int|
                    0 <= k < i ==> !has_key(#[trigger] self.repos@[k], platform, owner@, name@),
            decreases self.repos.len() - i,
        {
            let row = &self.repos[i];
            if row.platform == platform && same_text(row.owner.as_str(), owner) && same_text(
                row.name.as_str(),
                name,
            ) {
                proof {
                    lemma_first_where(self.repos@, with_key(platform, owner@, name@), i as int);
                }
                return Some(&self.repos[i]);
            }
            i += 1;
        }
        proof {
            lemma_first_where(
                self.repos@,
                with_key(platform, owner@, name@),
                self.repos@.len() as int,
            );
        }
        None
    }

    /// The rows of one platform, or of all, in the order of their creation.
    #[verifier::loop_isolation(false)]
    pub fn list_repositories(&self, platform: Option<Platform>) -> (r: Vec<&Repository>)
        ensures
            r@.map_values(|x: &Repository| *x) == self.repositories().filter(
                |x: Repository| platform is None || x.platform == platform->0,
            ),
    {
        let ghost wanted = |x: Repository| platform is None || x.platform == platform->0;
        let ghost deref = |x: &Repository| *x;
        let mut r: Vec<&Repository> = Vec::new();
        let mut i: usize = 0;
        assert(self.repos@.take(0).filter(wanted) =~= Seq::empty()) by {
            reveal(Seq::filter);
        }
        assert(r@.map_values(deref) =~= Seq::empty());
        while i < self.repos.len()
            invariant
                i <= self.repos.len(),
                r@.map_values(deref) == self.repos@.take(i as int).filter(wanted),
            decreases self.repos.len() - i,
        {
            proof {
                reveal(Seq::filter);
                assert(self.repos@.take(i + 1).drop_last() =~= self.repos@.take(i as int));
            }
            let keep = match platform {
                None => true,
                Some(p) => self.repos[i].platform == p,
            };
            if keep {
                let ghost before = r@;
                r.push(&self.repos[i]);
                assert(r@.map_values(deref) =~= before.map_values(deref).push(self.repos@[i as int]));
            }
            i += 1;
        }
        assert(self.repos@.take(self.repos@.len() as int) =~= self.repos@);
        r
    }

    /// Replaces the row that has the surrogate key of `repo`. Nothing
    /// changes if there is no such row. The update is refused if the new
    /// natural key belongs to another row.
    #[verifier::loop_isolation(false)]
    pub fn update_repository(&mut self, repo: Repository) -> (r: Result<(), Error>)
        requires
            old(self).inv(),
        ensures
            final(self).inv(),
            final(self).jobs() == old(self).jobs(),
            final(self).results() == old(self).results(),
            ({
                let rows = old(self).repositories();
                let pos = position_by_id(rows, repo.id);
                let taken = exists|k: int|
                    0 <= k < rows.len() && k != pos && same_key(#[trigger] rows[k], repo);
                &&& r is Err <==> pos < rows.len() && taken
                &&& r is Err ==> r->Err_0 is Sqlx && final(self).repositories() == rows
                &&& r is Ok ==> final(self).repositories() == if pos < rows.len() {
                    rows.update(pos, repo)
                } else {
                    rows
                }
            }),
    {
        let ghost rows = self.repos@;
        let mut pos: usize = 0;
        while pos < self.repos.len() && self.repos[pos].id != repo.id
            invariant
                pos <= self.repos.len(),
                forall|k: int| 0 <= k < pos ==> (#[trigger] self.repos@[k]).id != repo.id,
            decreases self.repos.len() - pos,
        {
            pos += 1;
        }
        proof {
            lemma_first_where(rows, with_id(repo.id), pos as int);
        }
        if pos >= self.repos.len() {
            return Ok(());
        }
        let mut k: usize = 0;
        while k < self.repos.len()
            invariant
                k <= self.repos.len(),
                forall|j: int| 0 <= j < k && j != pos ==> !same_key(#[trigger] self.repos@[j], repo),
            decreases self.repos.len() - k,
        {
            let other = &self.repos[k];
            if k != pos && other.platform == repo.platform && same_text(
                other.owner.as_str(),
                repo.owner.as_str(),
            ) && same_text(other.name.as_str(), repo.name.as_str()) {
                assert(same_key(rows[k as int], repo));
                return Err(
                    Error::Sqlx(
                        "UNIQUE constraint failed: repositories.platform, repositories.owner, repositories.name".to_owned(),
                    ),
                );
            }
            k += 1;
        }
        self.repos.set(pos, repo);
        proof {
            let after = self.repos@;
            assert forall|i: int, j: int| 0 <= i < j < after.len() implies after[i].id
                != after[j].id && !same_key(after[i], after[j]) by {
                assert(rows[i].id != rows[j].id);
                if i != pos && j != pos {
                    assert(!same_key(rows[i], rows[j]));
                }
            }
        }
        Ok(())
    }

    /// Deletes the row with the given surrogate key, the jobs of that
    /// repository and the results of those jobs.
    pub fn delete_repository(&mut self, id: u128) -> (r: Result<(), Error>)
        requires
            old(self).inv(),
        ensures
            final(self).inv(),
            r is Ok,
            final(self).repositories() == old(self).repositories().filter(
                |x: Repository| x.id != id,
            ),
            final(self).jobs() == old(self).jobs().filter(|j: ProofJobRecord| j.repo_id != id),
            final(self).results() == old(self).results().filter(
                |x: ProofResultRecord| !job_of_repo(old(self).jobs(), x.job_id.0, id),
            ),
    {
        let ghost rows = self.repos@;
        let ghost old_jobs = self.jobs@;
        let ghost old_results = self.results@;
        // The results first: they are judged by the jobs as they were.
        purge_results(&mut self.results, &self.jobs, id);
        purge_jobs(&mut self.jobs, id);
        purge_repositories(&mut self.repos, id);
        proof {
            lemma_filter_keeps_unique(rows, |x: Repository| x.id != id);
            lemma_filter_keeps_order(old_jobs, |j: ProofJobRecord| j.repo_id != id);
            lemma_filter_keeps_results(
                old_results,
                |x: ProofResultRecord| !job_of_repo(old_jobs, x.job_id.0, id),
            );
        }
        Ok(())
    }

    /// Adds the record of a job, behind the records that were queued
    /// later and before all others.
    #[verifier::loop_isolation(false)]
    pub fn create_job(&mut self, job: ProofJobRecord) -> (r: Result<(), Error>)
        requires
            old(self).inv(),
        ensures
            final(self).inv(),
            r is Ok,
            final(self).repositories() == old(self).repositories(),
            final(self).results() == old(self).results(),
            final(self).jobs() == old(self).jobs().insert(
                first_where(old(self).jobs(), not_after(job.queued_at)),
                job,
            ),
    {
        let ghost before = self.jobs@;
        let mut pos: usize = 0;
        while pos < self.jobs.len() && self.jobs[pos].queued_at > job.queued_at
            invariant
                pos <= self.jobs.len(),
                forall|k: int| 0 <= k < pos ==> (#[trigger] self.jobs@[k]).queued_at > job.queued_at,
            decreases self.jobs.len() - pos,
        {
            pos += 1;
        }
        proof {
            lemma_first_where(before, not_after(job.queued_at), pos as int);
        }
        self.jobs.insert(pos, job);
        proof {
            let after = self.jobs@;
            assert forall|i: int, j: int| #![trigger after[i], after[j]] 0 <= i < j < after.len() implies after[i].queued_at
                >= after[j].queued_at by {
                if i == pos {
                    assert(after[j] == before[j - 1]);
                    assert(before[pos as int].queued_at >= before[j - 1].queued_at || j - 1 == pos);
                } else if j == pos {
                    assert(after[i] == before[i]);
                } else {
                    let a = if i < pos {
                        i
                    } else {
                        i - 1
                    };
                    let b = if j < pos {
                        j
                    } else {
                        j - 1
                    };
                    assert(after[i] == before[a]);
                    assert(after[j] == before[b]);
                }
            }
        }
        Ok(())
    }

    /// The first record with the given identifier.
    #[verifier::loop_isolation(false)]
    pub fn get_job(&self, id: JobId) -> (r: Option<&ProofJobRecord>)
        ensures
            r is Some <==> first_where(self.jobs(), job_with_id(id)) < self.jobs().len(),
            r is Some ==> *r->0 == self.jobs()[first_where(self.jobs(), job_with_id(id))]
                && r->0.id == id,
    {
        let mut i: usize = 0;
        while i < self.jobs.len()
            invariant
                i <= self.jobs.len(),
                forall|k: int| 0 <= k < i ==> (#[trigger] self.jobs@[k]).id != id,
            decreases self.jobs.len() - i,
        {
            if self.jobs[i].id.0 == id.0 {
                proof {
                    lemma_first_where(self.jobs@, job_with_id(id), i as int);
                }
                return Some(&self.jobs[i]);
            }
            i += 1;
        }
        proof {
            lemma_first_where(self.jobs@, job_with_id(id), self.jobs@.len() as int);
        }
        None
    }

    /// The records of one repository, the most recent first, at most
    /// `limit` of them.
    #[verifier::loop_isolation(false)]
    pub fn list_jobs_for_repo(&self, repo_id: u128, limit: usize) -> (r: Vec<&ProofJobRecord>)
        requires
            self.inv(),
        ensures
            ({
                let all = self.jobs().filter(|j: ProofJobRecord| j.repo_id == repo_id);
                let listed = r@.map_values(|x: &ProofJobRecord| *x);
                &&& listed == if all.len() <= limit {
                    all
                } else {
                    all.take(limit as int)
                }
                &&& recent_first(listed)
            }),
    {
        let ghost wanted = |j: ProofJobRecord| j.repo_id == repo_id;
        let ghost deref = |x: &ProofJobRecord| *x;
        let ghost all = self.jobs@.filter(wanted);
        let mut r: Vec<&ProofJobRecord> = Vec::new();
        let mut i: usize = 0;
        assert(self.jobs@.take(0).filter(wanted) =~= Seq::empty()) by {
            reveal(Seq::filter);
        }
        assert(r@.map_values(deref) =~= Seq::empty());
        while i < self.jobs.len() && r.len() < limit
            invariant
                i <= self.jobs.len(),
                r.len() <= limit,
                r@.map_values(deref) == self.jobs@.take(i as int).filter(wanted),
            decreases self.jobs.len() - i,
        {
            proof {
                reveal(Seq::filter);
                assert(self.jobs@.take(i + 1).drop_last() =~= self.jobs@.take(i as int));
            }
            if self.jobs[i].repo_id == repo_id {
                let ghost before = r@;
                r.push(&self.jobs[i]);
                assert(r@.map_values(deref) =~= before.map_values(deref).push(self.jobs@[i as int]));
            }
            i += 1;
        }
        proof {
            let listed = r@.map_values(deref);
            lemma_filter_prefix(self.jobs@, wanted, i as int);
            if i == self.jobs.len() {
                assert(self.jobs@.take(i as int) =~= self.jobs@);
                assert(listed =~= all);
            } else {
                assert(listed.len() == limit);
                assert(listed =~= all.take(limit as int));
            }
            lemma_filter_keeps_order(self.jobs@, wanted);
            assert forall|a: int, b: int| 0 <= a < b < listed.len() implies listed[a].queued_at
                >= listed[b].queued_at by {
                assert(listed[a] == all[a] && listed[b] == all[b]);
            }
        }
        r
    }

    /// Records the result of a job. A job has one result: a second result
    /// for the same job is refused, and nothing changes.
    #[verifier::loop_isolation(false)]
    pub fn save_result(&mut self, record: ProofResultRecord) -> (r: Result<(), Error>)
        requires
            old(self).inv(),
        ensures
            final(self).inv(),
            final(self).repositories() == old(self).repositories(),
            final(self).jobs() == old(self).jobs(),
            r is Ok <==> first_where(old(self).results(), result_of(record.job_id)) == old(
                self,
            ).results().len(),
            r is Ok ==> final(self).results() == old(self).results().push(record),
            r is Err ==> final(self).results() == old(self).results() && r->Err_0 is Sqlx,
    {
        let ghost before = self.results@;
        let mut i: usize = 0;
        while i < self.results.len()
            invariant
                i <= self.results.len(),
                forall|k: int| 0 <= k < i ==> (#[trigger] self.results@[k]).job_id != record.job_id,
            decreases self.results.len() - i,
        {
            if self.results[i].job_id.0 == record.job_id.0 {
                proof {
                    lemma_first_where(before, result_of(record.job_id), i as int);
                }
                return Err(
                    Error::Sqlx("UNIQUE constraint failed: proof_results.job_id".to_owned()),
                );
            }
            i += 1;
        }
        proof {
            lemma_first_where(before, result_of(record.job_id), before.len() as int);
        }
        self.results.push(record);
        proof {
            let after = self.results@;
            assert forall|x: int, y: int| #![trigger after[x], after[y]] 0 <= x < y
                < after.len() implies after[x].job_id != after[y].job_id by {
                assert(after[x] == before[x]);
                if y < before.len() {
                    assert(after[y] == before[y]);
                }
            }
        }
        Ok(())
    }

    /// The first result recorded for the given job.
    #[verifier::loop_isolation(false)]
    pub fn get_result_for_job(&self, id: JobId) -> (r: Option<&ProofResultRecord>)
        ensures
            r is Some <==> first_where(self.results(), result_of(id)) < self.results().len(),
            r is Some ==> *r->0 == self.results()[first_where(self.results(), result_of(id))]
                && r->0.job_id == id,
    {
        let mut i: usize = 0;
        while i < self.results.len()
            invariant
                i <= self.results.len(),
                forall|k: int| 0 <= k < i ==> (#[trigger] self.results@[k]).job_id != id,
            decreases self.results.len() - i,
        {
            if self.results[i].job_id.0 == id.0 {
                proof {
                    lemma_first_where(self.results@, result_of(id), i as int);
                }
                return Some(&self.results[i]);
            }
            i += 1;
        }
        proof {
            lemma_first_where(self.results@, result_of(id), self.results@.len() as int);
        }
        None
    }
}

/// Rows that were unique stay unique when some are filtered out.
pub proof fn lemma_filter_keeps_unique(rows: Seq<Repository>, p: spec_fn(Repository) -> bool)
    requires
        unique(rows),
    ensures
        unique(rows.filter(p)),
{
    let f = rows.filter(p);
    assert forall|i: int, j: int| #![trigger f[i], f[j]] 0 <= i < j < f.len() implies f[i].id
        != f[j].id && !same_key(f[i], f[j]) by {
        let (x, y) = lemma_filter_positions(rows, p, i, j);
        assert(rows[x].id != rows[y].id && !same_key(rows[x], rows[y]));
    }
}

/// Results that were one per job stay so when some are filtered out.
pub proof fn lemma_filter_keeps_results(
    results: Seq<ProofResultRecord>,
    p: spec_fn(ProofResultRecord) -> bool,
)
    requires
        one_result_per_job(results),
    ensures
        one_result_per_job(results.filter(p)),
{
    let f = results.filter(p);
    assert forall|i: int, j: int| #![trigger f[i], f[j]] 0 <= i < j < f.len() implies f[i].job_id
        != f[j].job_id by {
        let (x, y) = lemma_filter_positions(results, p, i, j);
        assert(results[x].job_id != results[y].job_id);
    }
}

/// Jobs that were in order stay in order when some are filtered out.
pub proof fn lemma_filter_keeps_order(jobs: Seq<ProofJobRecord>, p: spec_fn(ProofJobRecord) -> bool)
    requires
        recent_first(jobs),
    ensures
        recent_first(jobs.filter(p)),
{
    let f = jobs.filter(p);
    assert forall|i: int, j: int| #![trigger f[i], f[j]] 0 <= i < j < f.len() implies f[i].queued_at
        >= f[j].queued_at by {
        let (x, y) = lemma_filter_positions(jobs, p, i, j);
        assert(jobs[x].queued_at >= jobs[y].queued_at);
    }
}

/// Removes the rows with the given surrogate key.
fn purge_repositories(repos: &mut Vec<Repository>, id: u128)
    ensures
        final(repos)@ == old(repos)@.filter(|x: Repository| x.id != id),
{
    let ghost rows = repos@;
    let ghost keep = |x: Repository| x.id != id;
    let mut i: usize = 0;
    let ghost mut k: int = 0;
    proof {
        lemma_filter_empty(rows, keep);
        assert(rows.skip(0) =~= rows);
    }
    while i < repos.len()
        invariant
            0 <= k <= rows.len(),
            keep == (|x: Repository| x.id != id),
            i == rows.take(k).filter(keep).len(),
            repos@ == rows.take(k).filter(keep) + rows.skip(k),
        decreases rows.len() - k,
    {
        let ghost kept = rows.take(k).filter(keep);
        assert(repos@[i as int] == rows.skip(k)[0]);
        proof {
            lemma_filter_step(rows, keep, k);
            assert(rows.skip(k).drop_first() =~= rows.skip(k + 1));
        }
        if repos[i].id == id {
            repos.remove(i);
            assert(repos@ =~= kept + rows.skip(k + 1));
        } else {
            i += 1;
            assert(repos@ =~= kept.push(rows[k]) + rows.skip(k + 1));
        }
        proof {
            k = k + 1;
        }
    }
    proof {
        assert(rows.take(k) =~= rows);
        assert(repos@ =~= rows.filter(keep));
    }
}

/// Removes the jobs of the given repository.
fn purge_jobs(jobs: &mut Vec<ProofJobRecord>, id: u128)
    ensures
        final(jobs)@ == old(jobs)@.filter(|j: ProofJobRecord| j.repo_id != id),
{
    let ghost rows = jobs@;
    let ghost keep = |j: ProofJobRecord| j.repo_id != id;
    let mut i: usize = 0;
    let ghost mut k: int = 0;
    proof {
        lemma_filter_empty(rows, keep);
        assert(rows.skip(0) =~= rows);
    }
    while i < jobs.len()
        invariant
            0 <= k <= rows.len(),
            keep == (|j: ProofJobRecord| j.repo_id != id),
            i == rows.take(k).filter(keep).len(),
            jobs@ == rows.take(k).filter(keep) + rows.skip(k),
        decreases rows.len() - k,
    {
        let ghost kept = rows.take(k).filter(keep);
        assert(jobs@[i as int] == rows.skip(k)[0]);
        proof {
            lemma_filter_step(rows, keep, k);
            assert(rows.skip(k).drop_first() =~= rows.skip(k + 1));
        }
        if jobs[i].repo_id == id {
            jobs.remove(i);
            assert(jobs@ =~= kept + rows.skip(k + 1));
        } else {
            i += 1;
            assert(jobs@ =~= kept.push(rows[k]) + rows.skip(k + 1));
        }
        proof {
            k = k + 1;
        }
    }
    proof {
        assert(rows.take(k) =~= rows);
        assert(jobs@ =~= rows.filter(keep));
    }
}

/// Whether job `job_id` is one of `jobs` and belongs to repository `id`.
fn belongs(jobs: &Vec<ProofJobRecord>, job_id: JobId, id: u128) -> (r: bool)
    ensures
        r == job_of_repo(jobs@, job_id.0, id),
{
    let mut j: usize = 0;
    while j < jobs.len()
        invariant
            j <= jobs.len(),
            forall|x: int|
                0 <= x < j ==> !((#[trigger] jobs@[x]).id.0 == job_id.0 && jobs@[x].repo_id == id),
        decreases jobs.len() - j,
    {
        if jobs[j].id.0 == job_id.0 && jobs[j].repo_id == id {
            return true;
        }
        j += 1;
    }
    false
}

/// Removes the results of the jobs of the given repository.
fn purge_results(results: &mut Vec<ProofResultRecord>, jobs: &Vec<ProofJobRecord>, id: u128)
    ensures
        final(results)@ == old(results)@.filter(
            |x: ProofResultRecord| !job_of_repo(jobs@, x.job_id.0, id),
        ),
{
    let ghost rows = results@;
    let ghost keep = |x: ProofResultRecord| !job_of_repo(jobs@, x.job_id.0, id);
    let mut i: usize = 0;
    let ghost mut k: int = 0;
    proof {
        lemma_filter_empty(rows, keep);
        assert(rows.skip(0) =~= rows);
    }
    while i < results.len()
        invariant
            0 <= k <= rows.len(),
            keep == (|x: ProofResultRecord| !job_of_repo(jobs@, x.job_id.0, id)),
            i == rows.take(k).filter(keep).len(),
            results@ == rows.take(k).filter(keep) + rows.skip(k),
        decreases rows.len() - k,
    {
        let ghost kept = rows.take(k).filter(keep);
        assert(results@[i as int] == rows.skip(k)[0]);
        proof {
            lemma_filter_step(rows, keep, k);
            assert(rows.skip(k).drop_first() =~= rows.skip(k + 1));
        }
        if belongs(jobs, results[i].job_id, id) {
            results.remove(i);
            assert(results@ =~= kept + rows.skip(k + 1));
        } else {
            i += 1;
            assert(results@ =~= kept.push(rows[k]) + rows.skip(k + 1));
        }
        proof {
            k = k + 1;
        }
    }
    proof {
        assert(rows.take(k) =~= rows);
        assert(results@ =~= rows.filter(keep));
    }
}

/// At most one row per natural key: of a store in order, two rows with the
/// same natural key are one row.
pub proof fn law_one_row_per_key(store: MemoryStore, i: int, j: int)
    requires
        store.inv(),
        0 <= i < store.repositories().len(),
        0 <= j < store.repositories().len(),
        same_key(store.repositories()[i], store.repositories()[j]),
    ensures
        i == j,
{
    if i < j {
        assert(!same_key(store.repositories()[i], store.repositories()[j]));
    } else if j < i {
        assert(!same_key(store.repositories()[j], store.repositories()[i]));
    }
}

/// A completed job has exactly one result: of a store in order, two
/// results for the same job are one result, and the result that is found
/// for a job is the only one.
pub proof fn law_one_result_per_job(store: MemoryStore, i: int, j: int)
    requires
        store.inv(),
        0 <= i < store.results().len(),
        0 <= j < store.results().len(),
        store.results()[i].job_id == store.results()[j].job_id,
    ensures
        i == j,
        first_where(store.results(), result_of(store.results()[i].job_id)) == i,
{
    let rs = store.results();
    if i < j {
        assert(rs[i].job_id != rs[j].job_id);
    } else if j < i {
        assert(rs[j].job_id != rs[i].job_id);
    }
    assert forall|k: int| 0 <= k < i implies !result_of(rs[i].job_id)(rs[k]) by {
        assert(rs[k].job_id != rs[i].job_id);
    }
    lemma_first_where(rs, result_of(rs[i].job_id), i);
}

/// The surrogate key and the natural key name the same row: a row found by
/// one is the row found by the other.
pub proof fn law_keys_agree(rows: Seq<Repository>, i: int)
    requires
        unique(rows),
        0 <= i < rows.len(),
    ensures
        position_by_id(rows, rows[i].id) == i,
        position_by_name(rows, rows[i].platform, rows[i].owner@, rows[i].name@) == i,
{
    let r = rows[i];
    assert forall|k: int| 0 <= k < i implies rows[k].id != r.id && !has_key(
        rows[k],
        r.platform,
        r.owner@,
        r.name@,
    ) by {
        assert(!same_key(rows[k], rows[i]));
    }
    lemma_first_where(rows, with_id(r.id), i);
    lemma_first_where(rows, with_key(r.platform, r.owner@, r.name@), i);
}

/// Register, look up, delete, look up: a row that was created is found by
/// its natural key, and once it is deleted the key finds nothing.
pub proof fn law_register_delete(rows: Seq<Repository>, repo: Repository)
    requires
        unique(rows),
        forall|i: int|
            0 <= i < rows.len() ==> (#[trigger] rows[i]).id != repo.id && !same_key(rows[i], repo),
    ensures
        ({
            let created = rows.push(repo);
            let deleted = created.filter(|x: Repository| x.id != repo.id);
            &&& unique(created)
            &&& position_by_name(created, repo.platform, repo.owner@, repo.name@) == rows.len()
            &&& created[rows.len() as int] == repo
            &&& position_by_name(deleted, repo.platform, repo.owner@, repo.name@) == deleted.len()
        }),
{
    let created = rows.push(repo);
    let keep = |x: Repository| x.id != repo.id;
    let deleted = created.filter(keep);
    assert forall|i: int, j: int| 0 <= i < j < created.len() implies created[i].id
        != created[j].id && !same_key(created[i], created[j]) by {
        assert(created[i] == rows[i]);
        if j < rows.len() {
            assert(created[j] == rows[j]);
        }
    }
    assert forall|k: int| 0 <= k < rows.len() implies !has_key(
        created[k],
        repo.platform,
        repo.owner@,
        repo.name@,
    ) by {
        assert(!same_key(rows[k], repo));
    }
    lemma_first_where(
        created,
        with_key(repo.platform, repo.owner@, repo.name@),
        rows.len() as int,
    );
    assert forall|k: int| 0 <= k < deleted.len() implies !has_key(
        deleted[k],
        repo.platform,
        repo.owner@,
        repo.name@,
    ) by {
        let x = lemma_filter_position(created, keep, k);
        created.lemma_filter_pred(keep, k);
        assert(keep(deleted[k]));
        if x < rows.len() {
            assert(!same_key(rows[x], repo));
        }
    }
    lemma_first_where(
        deleted,
        with_key(repo.platform, repo.owner@, repo.name@),
        deleted.len() as int,
    );
}

} // verus!
