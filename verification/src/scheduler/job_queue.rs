//! The job scheduler: a priority queue with deduplication, admission control
//! and bounded concurrency.
//!
//! The scheduler is described by a mathematical model, `QueueModel`, and a
//! step function for each operation. Every executable method is tied to its
//! step; the laws at the end of the file are proved of the model.

use crate::error::Error;
use crate::scheduler::{
    elapsed, elapsed_ms, now_millis, rank, JobId, JobResult, JobView, ProofJob,
};
use crate::seqs::{first_where, lemma_filter_step, lemma_first_where, lemma_first_where_props};
use std::collections::VecDeque;
use vstd::prelude::*;

verus! {

/// A snapshot of the scheduler's load and limits.
#[derive(Debug, Clone, Copy, PartialEq, Eq, Structural)]
pub struct QueueStats {
    pub queued: usize,
    pub running: usize,
    pub max_concurrent: usize,
    pub max_queue_size: usize,
}

/// The scheduler as contracts see it.
pub struct QueueModel {
    /// The waiting jobs, the next to start first.
    pub queue: Seq<JobView>,
    /// The jobs that were started and have not completed.
    pub running: Seq<JobView>,
    pub max_concurrent: nat,
    pub max_queue_size: nat,
}

/// One operation on the scheduler.
pub enum Op {
    /// Offer a job.
    Enqueue(JobView),
    /// Start the next job, at the given time.
    Start(i64),
    /// Complete the running job with the given identifier.
    Complete(u128),
    /// Cancel the waiting job with the given identifier.
    Cancel(u128),
}

/// How many offers were accepted, how many jobs completed and how many were
/// cancelled.
pub struct Tally {
    pub accepted: nat,
    pub completed: nat,
    pub cancelled: nat,
}

impl QueueModel {
    /// A scheduler with nothing waiting and nothing running.
    pub open spec fn empty(max_concurrent: nat, max_queue_size: nat) -> QueueModel {
        QueueModel { queue: Seq::empty(), running: Seq::empty(), max_concurrent, max_queue_size }
    }

    /// The invariant: the queue is in order of descending priority, holds no
    /// two jobs for the same work and respects its limit; no more jobs run
    /// than allowed, and each of them is marked as running.
    pub open spec fn wf(self) -> bool {
        &&& forall|i: int, j: int|
            0 <= i < j < self.queue.len() ==> rank(self.queue[i].priority) >= rank(
                self.queue[j].priority,
            )
        &&& forall|i: int, j: int|
            0 <= i < j < self.queue.len() ==> !self.queue[i].same_work(self.queue[j])
        &&& self.queue.len() <= self.max_queue_size
        &&& self.running.len() <= self.max_concurrent
        &&& forall|i: int|
            0 <= i < self.running.len() ==> (#[trigger] self.running[i]).status is Running
                && self.running[i].started_at is Some
    }

    /// A waiting job asks for the same work as `job`.
    pub open spec fn has_duplicate(self, job: JobView) -> bool {
        exists|i: int| 0 <= i < self.queue.len() && (#[trigger] self.queue[i]).same_work(job)
    }

    /// An offer of `job` is accepted: the queue has room and holds no
    /// duplicate. Running jobs do not count as duplicates.
    pub open spec fn accepts(self, job: JobView) -> bool {
        self.queue.len() < self.max_queue_size && !self.has_duplicate(job)
    }

    /// Where an accepted job goes: before the first waiting job of strictly
    /// lower priority, at the end if there is none.
    pub open spec fn insert_position(self, job: JobView) -> int {
        first_where(self.queue, |j: JobView| rank(j.priority) < rank(job.priority))
    }

    /// The scheduler after an offer of `job`.
    pub open spec fn enqueued(self, job: JobView) -> QueueModel {
        if self.accepts(job) {
            QueueModel { queue: self.queue.insert(self.insert_position(job), job), ..self }
        } else {
            self
        }
    }

    /// A job can be started: one is waiting and capacity is left.
    pub open spec fn can_start(self) -> bool {
        self.running.len() < self.max_concurrent && self.queue.len() > 0
    }

    /// The scheduler after an attempt to start the next job at `now`.
    pub open spec fn started(self, now: i64) -> QueueModel {
        if self.can_start() {
            QueueModel {
                queue: self.queue.drop_first(),
                running: self.running.push(self.queue[0].started(now)),
                ..self
            }
        } else {
            self
        }
    }

    /// The position in `running` of the first job with identifier `id`; the
    /// length of `running` if there is none.
    pub open spec fn running_position(self, id: u128) -> int {
        first_where(self.running, |j: JobView| j.id == id)
    }

    /// The position in the queue of the first job with identifier `id`; the
    /// length of the queue if there is none.
    pub open spec fn queue_position(self, id: u128) -> int {
        first_where(self.queue, |j: JobView| j.id == id)
    }

    /// A job with identifier `id` runs.
    pub open spec fn runs(self, id: u128) -> bool {
        self.running_position(id) < self.running.len()
    }

    /// A job with identifier `id` waits.
    pub open spec fn waits(self, id: u128) -> bool {
        self.queue_position(id) < self.queue.len()
    }

    /// The scheduler after the completion of job `id`: the job leaves the
    /// running set; nothing changes if no such job runs.
    pub open spec fn completed(self, id: u128) -> QueueModel {
        if self.runs(id) {
            QueueModel { running: self.running.remove(self.running_position(id)), ..self }
        } else {
            self
        }
    }

    /// The scheduler after the cancellation of job `id`: the job leaves the
    /// queue; nothing changes if no such job waits. Running jobs stay.
    pub open spec fn cancelled(self, id: u128) -> QueueModel {
        if self.waits(id) {
            QueueModel { queue: self.queue.remove(self.queue_position(id)), ..self }
        } else {
            self
        }
    }

    /// The scheduler after one operation.
    pub open spec fn step(self, op: Op) -> QueueModel {
        match op {
            Op::Enqueue(job) => self.enqueued(job),
            Op::Start(now) => self.started(now),
            Op::Complete(id) => self.completed(id),
            Op::Cancel(id) => self.cancelled(id),
        }
    }

    /// The scheduler after a sequence of operations.
    pub open spec fn run(self, ops: Seq<Op>) -> QueueModel
        decreases ops.len(),
    {
        if ops.len() == 0 {
            self
        } else {
            self.run(ops.drop_last()).step(ops.last())
        }
    }

    /// What one operation adds to the tally.
    pub open spec fn count(self, op: Op, t: Tally) -> Tally {
        match op {
            Op::Enqueue(job) => if self.accepts(job) {
                Tally { accepted: t.accepted + 1, ..t }
            } else {
                t
            },
            Op::Start(_) => t,
            Op::Complete(id) => if self.runs(id) {
                Tally { completed: t.completed + 1, ..t }
            } else {
                t
            },
            Op::Cancel(id) => if self.waits(id) {
                Tally { cancelled: t.cancelled + 1, ..t }
            } else {
                t
            },
        }
    }

    /// The tally of a sequence of operations that begins in this state.
    pub open spec fn tally(self, ops: Seq<Op>) -> Tally
        decreases ops.len(),
    {
        if ops.len() == 0 {
            Tally { accepted: 0, completed: 0, cancelled: 0 }
        } else {
            self.run(ops.drop_last()).count(ops.last(), self.tally(ops.drop_last()))
        }
    }
}

/// The views of a list of jobs.
pub open spec fn job_views(jobs: Seq<ProofJob>) -> Seq<JobView> {
    jobs.map_values(|j: ProofJob| j@)
}

/// The job scheduler.
pub struct JobScheduler {
    queue: VecDeque<ProofJob>,
    running: Vec<ProofJob>,
    active_count: usize,
    max_concurrent: usize,
    max_queue_size: usize,
}

impl View for JobScheduler {
    type V = QueueModel;

    closed spec fn view(&self) -> QueueModel {
        QueueModel {
            queue: job_views(self.queue@),
            running: job_views(self.running@),
            max_concurrent: self.max_concurrent as nat,
            max_queue_size: self.max_queue_size as nat,
        }
    }
}

impl JobScheduler {
    /// The scheduler is in order: its model satisfies the invariant and its
    /// counter of active jobs agrees with the running set. `new` establishes
    /// this and every method keeps it.
    pub closed spec fn inv(&self) -> bool {
        self@.wf() && self.active_count == self.running.len()
    }

    /// A scheduler with nothing waiting and nothing running.
    pub fn new(max_concurrent: usize, max_queue_size: usize) -> (r: JobScheduler)
        ensures
            r@ == QueueModel::empty(max_concurrent as nat, max_queue_size as nat),
            r.inv(),
    {
        let r = JobScheduler {
            queue: VecDeque::new(),
            running: Vec::new(),
            active_count: 0,
            max_concurrent,
            max_queue_size,
        };
        assert(r@.queue =~= Seq::empty());
        assert(r@.running =~= Seq::empty());
        r
    }

    /// Offers a job. It is accepted unless the queue is full or a waiting
    /// job asks for the same work; the result is its identifier if it was
    /// accepted. The call never fails.
    #[verifier::loop_isolation(false)]
    pub fn enqueue(&mut self, job: ProofJob) -> (r: Result<Option<JobId>, Error>)
        requires
            old(self).inv(),
        ensures
            final(self).inv(),
            final(self)@ == old(self)@.enqueued(job@),
            final(self)@.wf(),
            r is Ok,
            r->Ok_0 == if old(self)@.accepts(job@) {
                Some(job.id)
            } else {
                None
            },
    {
        if self.queue.len() >= self.max_queue_size {
            return Ok(None);
        }
        let mut i: usize = 0;
        while i < self.queue.len()
            invariant
                i <= self.queue.len(),
                forall|k: int| 0 <= k < i ==> !(#[trigger] self@.queue[k]).same_work(job@),
            decreases self.queue.len() - i,
        {
            let other = &self.queue[i];
            if other.repo_id == job.repo_id && other.commit_sha == job.commit_sha && other.prover
                == job.prover {
                assert(self@.queue[i as int].same_work(job@));
                return Ok(None);
            }
            i += 1;
        }
        assert(!self@.has_duplicate(job@));
        let mut pos: usize = 0;
        while pos < self.queue.len() && self.queue[pos].priority.rank() >= job.priority.rank()
            invariant
                pos <= self.queue.len(),
                forall|k: int|
                    0 <= k < pos ==> rank((#[trigger] self@.queue[k]).priority) >= rank(
                        job@.priority,
                    ),
            decreases self.queue.len() - pos,
        {
            pos += 1;
        }
        let id = job.id;
        proof {
            let lower = |j: JobView| rank(j.priority) < rank(job@.priority);
            assert(pos < self@.queue.len() ==> lower(self@.queue[pos as int]));
            lemma_first_where(self@.queue, lower, pos as int);
            lemma_insert_keeps_wf(self@, job@);
            assert(job_views(self.queue@.insert(pos as int, job)) =~= job_views(
                self.queue@,
            ).insert(pos as int, job@));
        }
        self.queue.insert(pos, job);
        Ok(Some(id))
    }

    /// Starts the next job at `now` if one waits and capacity is left: the
    /// head of the queue is marked as running and moved to the running set.
    /// The result is a copy of the started job.
    pub fn try_start_next_at(&mut self, now: i64) -> (r: Option<ProofJob>)
        requires
            old(self).inv(),
        ensures
            final(self).inv(),
            final(self)@ == old(self)@.started(now),
            final(self)@.wf(),
            r is Some <==> old(self)@.can_start(),
            r is Some ==> r->0@ == old(self)@.queue[0].started(now),
    {
        if self.active_count >= self.max_concurrent || self.queue.len() == 0 {
            return None;
        }
        proof {
            lemma_start_keeps_wf(self@, now);
            assert(job_views(self.queue@.subrange(1, self.queue@.len() as int)) =~= job_views(
                self.queue@,
            ).drop_first());
        }
        let mut job = match self.queue.pop_front() {
            Some(job) => job,
            None => {
                return None;
            },
        };
        job.start_at(now);
        let copy = job.clone();
        proof {
            assert(job_views(self.running@.push(job)) =~= job_views(self.running@).push(job@));
        }
        self.active_count = self.active_count + 1;
        self.running.push(job);
        Some(copy)
    }

    /// Starts the next job at the current time if one waits and capacity is
    /// left.
    pub fn try_start_next(&mut self) -> (r: Option<ProofJob>)
        requires
            old(self).inv(),
        ensures
            final(self).inv(),
            r is Some <==> old(self)@.can_start(),
            r is Some ==> r->0@.started_at is Some && r->0@ == old(self)@.queue[0].started(
                r->0@.started_at->0,
            ) && final(self)@ == old(self)@.started(r->0@.started_at->0),
            r is None ==> final(self)@ == old(self)@,
            final(self)@.wf(),
    {
        self.try_start_next_at(now_millis())
    }

    /// Completes the running job `job_id` at `now`. The job leaves the
    /// running set and is returned in its terminal state, together with its
    /// result, whose duration is the time from start to `now`. Nothing
    /// happens if no such job runs.
    #[verifier::loop_isolation(false)]
    pub fn complete_job_at(&mut self, job_id: JobId, success: bool, message: String, now: i64) -> (r:
        Option<(ProofJob, JobResult)>)
        requires
            old(self).inv(),
        ensures
            final(self).inv(),
            final(self)@ == old(self)@.completed(job_id.0),
            final(self)@.wf(),
            r is Some <==> old(self)@.runs(job_id.0),
            r is Some ==> {
                let before = old(self)@.running[old(self)@.running_position(job_id.0)];
                let (job, result) = r->0;
                &&& job@ == before.completed(success, message@, now)
                &&& result.success == success
                &&& result.message@ == message@
                &&& result.prover_output@ == Seq::<char>::empty()
                &&& result.duration_ms == elapsed_ms(before.started_at->0, now)
                &&& result.verified_files@.len() == 0
                &&& result.failed_files@.len() == 0
            },
    {
        let mut pos: usize = 0;
        while pos < self.running.len() && self.running[pos].id.0 != job_id.0
            invariant
                pos <= self.running.len(),
                forall|k: int| 0 <= k < pos ==> (#[trigger] self@.running[k]).id != job_id.0,
            decreases self.running.len() - pos,
        {
            pos += 1;
        }
        proof {
            let is_it = |j: JobView| j.id == job_id.0;
            assert(pos < self@.running.len() ==> is_it(self@.running[pos as int]));
            lemma_first_where(self@.running, is_it, pos as int);
        }
        if pos >= self.running.len() {
            return None;
        }
        proof {
            lemma_complete_keeps_wf(self@, job_id.0);
            assert(job_views(self.running@.remove(pos as int)) =~= job_views(self.running@).remove(
                pos as int,
            ));
        }
        self.active_count = self.active_count - 1;
        let mut job = self.running.remove(pos);
        let started: i64 = match job.started_at {
            Some(t) => t,
            None => now,
        };
        let result = JobResult {
            success,
            message,
            prover_output: String::new(),
            duration_ms: elapsed(started, now),
            verified_files: Vec::new(),
            failed_files: Vec::new(),
        };
        job.complete_at(&result, now);
        Some((job, result))
    }

    /// Completes the running job `job_id` at the current time.
    pub fn complete_job(&mut self, job_id: JobId, success: bool, message: String) -> (r: Option<
        (ProofJob, JobResult)>)
        requires
            old(self).inv(),
        ensures
            final(self).inv(),
            final(self)@ == old(self)@.completed(job_id.0),
            final(self)@.wf(),
            r is Some <==> old(self)@.runs(job_id.0),
            r is Some ==> {
                let before = old(self)@.running[old(self)@.running_position(job_id.0)];
                let (job, result) = r->0;
                &&& job@.completed_at is Some
                &&& job@ == before.completed(success, message@, job@.completed_at->0)
                &&& result.success == success
                &&& result.message@ == message@
                &&& result.duration_ms == elapsed_ms(before.started_at->0, job@.completed_at->0)
            },
    {
        self.complete_job_at(job_id, success, message, now_millis())
    }

    /// A copy of the job `job_id`: the first such job that runs, else the
    /// first that waits.
    #[verifier::loop_isolation(false)]
    pub fn get_job(&self, job_id: JobId) -> (r: Option<ProofJob>)
        requires
            self.inv(),
        ensures
            r is Some <==> self@.runs(job_id.0) || self@.waits(job_id.0),
            r is Some ==> r->0@ == if self@.runs(job_id.0) {
                self@.running[self@.running_position(job_id.0)]
            } else {
                self@.queue[self@.queue_position(job_id.0)]
            },
    {
        let is_it = Ghost(|j: JobView| j.id == job_id.0);
        let mut i: usize = 0;
        while i < self.running.len()
            invariant
                i <= self.running.len(),
                forall|k: int| 0 <= k < i ==> (#[trigger] self@.running[k]).id != job_id.0,
            decreases self.running.len() - i,
        {
            if self.running[i].id.0 == job_id.0 {
                proof {
                    assert(is_it@(self@.running[i as int]));
                    lemma_first_where(self@.running, is_it@, i as int);
                }
                return Some(self.running[i].clone());
            }
            i += 1;
        }
        proof {
            lemma_first_where(self@.running, is_it@, self@.running.len() as int);
        }
        let mut j: usize = 0;
        while j < self.queue.len()
            invariant
                j <= self.queue.len(),
                !self@.runs(job_id.0),
                forall|k: int| 0 <= k < j ==> (#[trigger] self@.queue[k]).id != job_id.0,
            decreases self.queue.len() - j,
        {
            if self.queue[j].id.0 == job_id.0 {
                proof {
                    assert(is_it@(self@.queue[j as int]));
                    lemma_first_where(self@.queue, is_it@, j as int);
                }
                return Some(self.queue[j].clone());
            }
            j += 1;
        }
        proof {
            lemma_first_where(self@.queue, is_it@, self@.queue.len() as int);
        }
        None
    }

    /// Copies of all jobs of repository `repo_id`: the running ones first,
    /// then the waiting ones, each group in its order.
    #[verifier::loop_isolation(false)]
    pub fn jobs_for_repo(&self, repo_id: u128) -> (r: Vec<ProofJob>)
        requires
            self.inv(),
        ensures
            job_views(r@) == self@.running.filter(|j: JobView| j.repo_id == repo_id)
                + self@.queue.filter(|j: JobView| j.repo_id == repo_id),
    {
        let ghost of_repo = |j: JobView| j.repo_id == repo_id;
        let mut jobs: Vec<ProofJob> = Vec::new();
        let mut i: usize = 0;
        assert(self@.running.take(0).filter(of_repo) =~= Seq::empty()) by {
            reveal(Seq::filter);
        }
        assert(job_views(jobs@) =~= Seq::empty());
        while i < self.running.len()
            invariant
                i <= self.running.len(),
                of_repo == (|j: JobView| j.repo_id == repo_id),
                job_views(jobs@) == self@.running.take(i as int).filter(of_repo),
            decreases self.running.len() - i,
        {
            proof {
                lemma_filter_step(self@.running, of_repo, i as int);
            }
            if self.running[i].repo_id == repo_id {
                let copy = self.running[i].clone();
                proof {
                    assert(job_views(jobs@.push(copy)) =~= job_views(jobs@).push(copy@));
                }
                jobs.push(copy);
            }
            i += 1;
        }
        assert(self@.running.take(self@.running.len() as int) =~= self@.running);
        let ghost first = job_views(jobs@);
        let mut j: usize = 0;
        assert(self@.queue.take(0).filter(of_repo) =~= Seq::empty()) by {
            reveal(Seq::filter);
        }
        assert(first + Seq::<JobView>::empty() =~= first);
        while j < self.queue.len()
            invariant
                j <= self.queue.len(),
                of_repo == (|j: JobView| j.repo_id == repo_id),
                first == self@.running.filter(of_repo),
                job_views(jobs@) == first + self@.queue.take(j as int).filter(of_repo),
            decreases self.queue.len() - j,
        {
            proof {
                lemma_filter_step(self@.queue, of_repo, j as int);
            }
            if self.queue[j].repo_id == repo_id {
                let copy = self.queue[j].clone();
                proof {
                    assert(job_views(jobs@.push(copy)) =~= job_views(jobs@).push(copy@));
                    assert((first + self@.queue.take(j as int).filter(of_repo)).push(copy@) =~= first
                        + self@.queue.take(j as int).filter(of_repo).push(copy@));
                }
                jobs.push(copy);
            }
            j += 1;
        }
        assert(self@.queue.take(self@.queue.len() as int) =~= self@.queue);
        jobs
    }

    /// Cancels the waiting job `job_id` at `now`: it leaves the queue and is
    /// returned, marked as cancelled. A job that runs cannot be cancelled:
    /// the result is `None` and nothing changes.
    #[verifier::loop_isolation(false)]
    pub fn cancel_job_at(&mut self, job_id: JobId, now: i64) -> (r: Option<ProofJob>)
        requires
            old(self).inv(),
        ensures
            final(self).inv(),
            final(self)@ == old(self)@.cancelled(job_id.0),
            final(self)@.wf(),
            final(self)@.running == old(self)@.running,
            r is Some <==> old(self)@.waits(job_id.0),
            r is Some ==> r->0@ == old(self)@.queue[old(self)@.queue_position(job_id.0)].cancelled(
                now,
            ),
    {
        let mut pos: usize = 0;
        while pos < self.queue.len() && self.queue[pos].id.0 != job_id.0
            invariant
                pos <= self.queue.len(),
                forall|k: int| 0 <= k < pos ==> (#[trigger] self@.queue[k]).id != job_id.0,
            decreases self.queue.len() - pos,
        {
            pos += 1;
        }
        proof {
            let is_it = |j: JobView| j.id == job_id.0;
            assert(pos < self@.queue.len() ==> is_it(self@.queue[pos as int]));
            lemma_first_where(self@.queue, is_it, pos as int);
        }
        if pos >= self.queue.len() {
            return None;
        }
        proof {
            lemma_cancel_keeps_wf(self@, job_id.0);
            assert(job_views(self.queue@.remove(pos as int)) =~= job_views(self.queue@).remove(
                pos as int,
            ));
        }
        let mut job = match self.queue.remove(pos) {
            Some(job) => job,
            None => {
                return None;
            },
        };
        job.cancel_at(now);
        Some(job)
    }

    /// Cancels the waiting job `job_id`. The result tells whether a job was
    /// cancelled; a job that runs cannot be.
    pub fn cancel_job(&mut self, job_id: JobId) -> (r: bool)
        requires
            old(self).inv(),
        ensures
            final(self).inv(),
            final(self)@ == old(self)@.cancelled(job_id.0),
            final(self)@.wf(),
            final(self)@.running == old(self)@.running,
            r == old(self)@.waits(job_id.0),
    {
        self.cancel_job_at(job_id, now_millis()).is_some()
    }

    /// The scheduler's load and limits.
    pub fn stats(&self) -> (r: QueueStats)
        requires
            self.inv(),
        ensures
            self@.wf(),
            r.queued == self@.queue.len(),
            r.running == self@.running.len(),
            r.max_concurrent == self@.max_concurrent,
            r.max_queue_size == self@.max_queue_size,
    {
        QueueStats {
            queued: self.queue.len(),
            running: self.running.len(),
            max_concurrent: self.max_concurrent,
            max_queue_size: self.max_queue_size,
        }
    }

    /// The number of jobs that run. It never exceeds the limit.
    pub fn active_count(&self) -> (r: usize)
        requires
            self.inv(),
        ensures
            r == self@.running.len(),
            r <= self@.max_concurrent,
    {
        self.active_count
    }

    /// Whether another job could be started.
    pub fn has_capacity(&self) -> (r: bool)
        requires
            self.inv(),
        ensures
            r == (self@.running.len() < self@.max_concurrent),
    {
        self.active_count < self.max_concurrent
    }
}

/// An accepted offer keeps the invariant.
pub proof fn lemma_insert_keeps_wf(s: QueueModel, job: JobView)
    requires
        s.wf(),
    ensures
        s.enqueued(job).wf(),
{
    if s.accepts(job) {
        let lower = |j: JobView| rank(j.priority) < rank(job.priority);
        lemma_first_where_props(s.queue, lower);
        let pos = s.insert_position(job);
        let q = s.queue.insert(pos, job);
        assert forall|i: int, j: int| 0 <= i < j < q.len() implies rank(q[i].priority) >= rank(
            q[j].priority,
        ) && !q[i].same_work(q[j]) by {
            if i == pos {
                assert(q[j] == s.queue[j - 1]);
                assert(rank(s.queue[pos].priority) >= rank(s.queue[j - 1].priority) || j - 1 == pos);
                assert(lower(s.queue[pos]));
            } else if j == pos {
                assert(q[i] == s.queue[i]);
                assert(!lower(s.queue[i]));
            } else {
                let a = if i < pos {
                    i
                } else {
                    i - 1
                };
                let b = if j < pos {
                    j
                } else {
                    j - 1
                };
                assert(q[i] == s.queue[a]);
                assert(q[j] == s.queue[b]);
            }
        }
    }
}

/// Starting a job keeps the invariant.
pub proof fn lemma_start_keeps_wf(s: QueueModel, now: i64)
    requires
        s.wf(),
    ensures
        s.started(now).wf(),
{
    if s.can_start() {
        let q = s.queue.drop_first();
        assert forall|i: int, j: int| 0 <= i < j < q.len() implies rank(q[i].priority) >= rank(
            q[j].priority,
        ) && !q[i].same_work(q[j]) by {
            assert(q[i] == s.queue[i + 1]);
            assert(q[j] == s.queue[j + 1]);
        }
    }
}

/// Completing a job keeps the invariant.
pub proof fn lemma_complete_keeps_wf(s: QueueModel, id: u128)
    requires
        s.wf(),
    ensures
        s.completed(id).wf(),
{
    if s.runs(id) {
        lemma_first_where_props(s.running, |j: JobView| j.id == id);
        let pos = s.running_position(id);
        let r = s.running.remove(pos);
        assert forall|i: int| 0 <= i < r.len() implies (#[trigger] r[i]).status is Running
            && r[i].started_at is Some by {
            if i < pos {
                assert(r[i] == s.running[i]);
            } else {
                assert(r[i] == s.running[i + 1]);
            }
        }
    }
}

/// Cancelling a job keeps the invariant.
pub proof fn lemma_cancel_keeps_wf(s: QueueModel, id: u128)
    requires
        s.wf(),
    ensures
        s.cancelled(id).wf(),
{
    if s.waits(id) {
        lemma_first_where_props(s.queue, |j: JobView| j.id == id);
        let pos = s.queue_position(id);
        let q = s.queue.remove(pos);
        assert forall|i: int, j: int| 0 <= i < j < q.len() implies rank(q[i].priority) >= rank(
            q[j].priority,
        ) && !q[i].same_work(q[j]) by {
            let a = if i < pos {
                i
            } else {
                i + 1
            };
            let b = if j < pos {
                j
            } else {
                j + 1
            };
            assert(q[i] == s.queue[a]);
            assert(q[j] == s.queue[b]);
        }
    }
}

/// Every operation keeps the invariant of the scheduler.
pub proof fn law_step_keeps_invariant(s: QueueModel, op: Op)
    requires
        s.wf(),
    ensures
        s.step(op).wf(),
{
    match op {
        Op::Enqueue(job) => lemma_insert_keeps_wf(s, job),
        Op::Start(now) => lemma_start_keeps_wf(s, now),
        Op::Complete(id) => lemma_complete_keeps_wf(s, id),
        Op::Cancel(id) => lemma_cancel_keeps_wf(s, id),
    }
}

/// After any sequence of operations on a scheduler that began empty, the
/// invariant holds; in particular no more jobs run than the limit allows.
pub proof fn law_concurrency_bound(max_concurrent: nat, max_queue_size: nat, ops: Seq<Op>)
    ensures
        QueueModel::empty(max_concurrent, max_queue_size).run(ops).wf(),
        QueueModel::empty(max_concurrent, max_queue_size).run(ops).running.len() <= max_concurrent,
        QueueModel::empty(max_concurrent, max_queue_size).run(ops).max_concurrent == max_concurrent,
    decreases ops.len(),
{
    let start = QueueModel::empty(max_concurrent, max_queue_size);
    if ops.len() > 0 {
        law_concurrency_bound(max_concurrent, max_queue_size, ops.drop_last());
        law_step_keeps_invariant(start.run(ops.drop_last()), ops.last());
    }
}

/// Conservation of jobs: after any sequence of operations on a scheduler
/// that began empty, the jobs that wait and the jobs that run are the
/// accepted ones less the completed and the cancelled ones.
pub proof fn law_conservation(max_concurrent: nat, max_queue_size: nat, ops: Seq<Op>)
    ensures
        ({
            let start = QueueModel::empty(max_concurrent, max_queue_size);
            let end = start.run(ops);
            let t = start.tally(ops);
            end.queue.len() + end.running.len() == t.accepted - t.completed - t.cancelled
        }),
    decreases ops.len(),
{
    let start = QueueModel::empty(max_concurrent, max_queue_size);
    if ops.len() > 0 {
        law_conservation(max_concurrent, max_queue_size, ops.drop_last());
        let before = start.run(ops.drop_last());
        match ops.last() {
            Op::Enqueue(job) => {
                lemma_first_where_props(
                    before.queue,
                    |j: JobView| rank(j.priority) < rank(job.priority),
                );
            },
            Op::Start(now) => {},
            Op::Complete(id) => {
                lemma_first_where_props(before.running, |j: JobView| j.id == id);
            },
            Op::Cancel(id) => {
                lemma_first_where_props(before.queue, |j: JobView| j.id == id);
            },
        }
    }
}

/// Strict priority: of two waiting jobs, the one of higher priority stands
/// nearer the head of the queue, whichever was offered first.
pub proof fn law_priority_order(s: QueueModel, i: int, j: int)
    requires
        s.wf(),
        0 <= i < s.queue.len(),
        0 <= j < s.queue.len(),
        rank(s.queue[i].priority) > rank(s.queue[j].priority),
    ensures
        i < j,
{
    if j < i {
        assert(rank(s.queue[j].priority) >= rank(s.queue[i].priority));
    }
}

/// The job that starts has the highest priority of all that wait, and the
/// others keep their order.
pub proof fn law_start_takes_highest(s: QueueModel, now: i64, k: int)
    requires
        s.wf(),
        s.can_start(),
        0 <= k < s.started(now).queue.len(),
    ensures
        s.started(now).running.last() == s.queue[0].started(now),
        rank(s.queue[0].priority) >= rank(s.started(now).queue[k].priority),
        s.started(now).queue[k] == s.queue[k + 1],
{
}

/// A job of higher priority starts first: while it waits, no waiting job
/// of lower priority is the one that starts, whichever was offered first;
/// the job of lower priority waits on, one place nearer the head.
pub proof fn law_higher_priority_starts_first(s: QueueModel, now: i64, i: int, j: int)
    requires
        s.wf(),
        s.can_start(),
        0 <= i < s.queue.len(),
        0 <= j < s.queue.len(),
        rank(s.queue[i].priority) > rank(s.queue[j].priority),
    ensures
        j > 0,
        s.started(now).running.last() == s.queue[0].started(now),
        s.started(now).queue[j - 1] == s.queue[j],
        rank(s.queue[0].priority) >= rank(s.queue[i].priority),
{
    law_priority_order(s, i, j);
    if i > 0 {
        assert(rank(s.queue[0].priority) >= rank(s.queue[i].priority));
    }
}

/// An accepted job is placed behind every waiting job of the same or a
/// higher priority and before every waiting job of a lower one; the jobs
/// that waited keep their order. So jobs of one priority start in the order
/// in which they were offered, and a job of higher priority starts before
/// every job of lower priority that was offered earlier and still waits.
pub proof fn law_enqueue_position(s: QueueModel, job: JobView, k: int)
    requires
        s.wf(),
        s.accepts(job),
        0 <= k < s.queue.len(),
    ensures
        ({
            let pos = s.insert_position(job);
            let after = s.enqueued(job).queue;
            &&& 0 <= pos <= s.queue.len()
            &&& after.len() == s.queue.len() + 1
            &&& after[pos] == job
            &&& rank(s.queue[k].priority) >= rank(job.priority) ==> k < pos && after[k]
                == s.queue[k]
            &&& rank(s.queue[k].priority) < rank(job.priority) ==> k >= pos && after[k + 1]
                == s.queue[k]
        }),
{
    let lower = |j: JobView| rank(j.priority) < rank(job.priority);
    lemma_first_where_props(s.queue, lower);
    let pos = s.insert_position(job);
    if k < pos {
        assert(!lower(s.queue[k]));
    } else {
        assert(lower(s.queue[pos]));
        if k > pos {
            assert(rank(s.queue[pos].priority) >= rank(s.queue[k].priority));
        }
    }
}

/// Of two offers of the same work, made while the first still waits, exactly
/// one is accepted: the second is refused and changes nothing.
pub proof fn law_duplicate_rejected(s: QueueModel, first: JobView, second: JobView)
    requires
        s.wf(),
        s.accepts(first),
        first.same_work(second),
    ensures
        !s.enqueued(first).accepts(second),
        s.enqueued(first).enqueued(second) == s.enqueued(first),
{
    lemma_first_where_props(s.queue, |j: JobView| rank(j.priority) < rank(first.priority));
    let pos = s.insert_position(first);
    let after = s.enqueued(first);
    assert(after.queue[pos] == first);
    assert(after.queue[pos].same_work(second));
}

/// Jobs that run are no duplicates: whether an offer is accepted depends
/// on the queue alone, so the same work can be offered again once the
/// earlier job has started.
pub proof fn law_running_is_no_duplicate(s: QueueModel, running: Seq<JobView>, job: JobView)
    ensures
        (QueueModel { running, ..s }).accepts(job) == s.accepts(job),
        s.queue.len() == 0 && s.max_queue_size > 0 ==> s.accepts(job),
{
    let t = QueueModel { running, ..s };
    assert(t.queue == s.queue);
    if s.has_duplicate(job) {
        let i = choose|i: int| 0 <= i < s.queue.len() && (#[trigger] s.queue[i]).same_work(job);
        assert(t.queue[i].same_work(job));
    }
    if t.has_duplicate(job) {
        let i = choose|i: int| 0 <= i < t.queue.len() && (#[trigger] t.queue[i]).same_work(job);
        assert(s.queue[i].same_work(job));
    }
}

} // verus!
