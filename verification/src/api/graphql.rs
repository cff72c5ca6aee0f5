//! The control interface: its vocabulary, and what its queries and
//! mutations decide.
//!
//! Looking rows up and writing them is the caller's part. The functions
//! here take what was found and say what is to be done.

use crate::adapters::Platform as AdapterPlatform;
use crate::api::webhooks::{accepted_of, admit_all, blanket_drafts, planned};
use crate::dispatcher::echidna_client::ProverStatus as EchidnaProverStatus;
use crate::dispatcher::{extension, tier_of, ProverKind as DispatcherProverKind};
use crate::error::Error;
use crate::ident::{format_uuid, uuid_text};
use crate::scheduler::job_queue::{job_views, JobScheduler, QueueStats as SchedulerStats};
use crate::scheduler::{
    JobPriority, JobStatus as SchedulerJobStatus, ProofJob as SchedulerProofJob,
};
use crate::store::{ProofJobRecord, Repository as StoreRepository};
use crate::text::{opt_text, texts};
use vstd::prelude::*;
use vstd::std_specs::convert::FromSpecImpl;

verus! {

/// The platforms, in the vocabulary of the interface.
#[derive(Debug, Clone, Copy, PartialEq, Eq, Structural)]
pub enum Platform {
    GitHub,
    GitLab,
    Bitbucket,
    Codeberg,
}

/// The provers, in the vocabulary of the interface.
#[derive(Debug, Clone, Copy, PartialEq, Eq, Structural)]
pub enum ProverKind {
    Agda,
    Coq,
    Lean,
    Isabelle,
    Z3,
    Cvc5,
    Metamath,
    HolLight,
    Mizar,
    Pvs,
    Acl2,
    Hol4,
}

/// The states of a job, in the vocabulary of the interface.
#[derive(Debug, Clone, Copy, PartialEq, Eq, Structural)]
pub enum JobStatus {
    Queued,
    Running,
    Completed,
    Failed,
    Cancelled,
}

/// The verdicts on a proof, in the vocabulary of the interface.
#[derive(Debug, Clone, Copy, PartialEq, Eq, Structural)]
pub enum ProofStatus {
    Verified,
    Failed,
    Timeout,
    Error,
    Unknown,
}

/// The availability of a prover, in the vocabulary of the interface.
#[derive(Debug, Clone, Copy, PartialEq, Eq, Structural)]
pub enum ProverStatus {
    Available,
    Degraded,
    Unavailable,
    Unknown,
}

/// A repository as the interface shows it.
#[derive(Debug)]
pub struct Repository {
    /// The surrogate key in UUID notation.
    pub id: String,
    pub platform: Platform,
    pub owner: String,
    pub name: String,
    pub enabled_provers: Vec<ProverKind>,
    pub check_on_push: bool,
    pub check_on_pr: bool,
    pub auto_comment: bool,
    pub enabled: bool,
    pub last_checked_commit: Option<String>,
    pub created_at: i64,
    pub updated_at: i64,
}

/// A job as the interface shows it.
#[derive(Debug)]
pub struct ProofJob {
    pub id: String,
    pub repo_id: String,
    pub commit_sha: String,
    pub prover: ProverKind,
    pub file_paths: Vec<String>,
    pub status: JobStatus,
    pub queued_at: i64,
    pub started_at: Option<i64>,
    pub completed_at: Option<i64>,
}

/// The result of a verification as the interface shows it.
#[derive(Debug)]
pub struct ProofResult {
    pub status: ProofStatus,
    pub message: String,
    pub prover_output: String,
    pub duration_ms: i32,
    pub verified_files: Vec<String>,
    pub failed_files: Vec<String>,
}

/// What is known of a prover.
#[derive(Debug)]
pub struct ProverInfo {
    pub kind: ProverKind,
    pub name: String,
    pub tier: i32,
    pub file_extensions: Vec<String>,
    pub status: ProverStatus,
}

/// The load of the scheduler as the interface shows it.
#[derive(Debug, Clone, Copy, PartialEq, Eq, Structural)]
pub struct QueueStats {
    pub queued: i32,
    pub running: i32,
    pub max_concurrent: i32,
    pub max_queue_size: i32,
}

/// The queries.
#[derive(Debug, Clone, Copy)]
pub struct QueryRoot;

/// The mutations.
#[derive(Debug, Clone, Copy)]
pub struct MutationRoot;

/// What a registration is given.
#[derive(Debug)]
pub struct RegisterRepoInput {
    pub platform: Platform,
    pub owner: String,
    pub name: String,
    pub webhook_secret: Option<String>,
    pub enabled_provers: Option<Vec<ProverKind>>,
}

/// The settings that an update may change; what is `None` stays.
#[derive(Debug)]
pub struct RepoSettingsInput {
    pub webhook_secret: Option<String>,
    pub enabled_provers: Option<Vec<ProverKind>>,
    pub check_on_push: Option<bool>,
    pub check_on_pr: Option<bool>,
    pub auto_comment: Option<bool>,
}

/// What a registration leads to.
#[derive(Debug)]
pub enum Registration {
    /// The repository was registered before: this is its row, unchanged.
    Existing(StoreRepository),
    /// The repository is new: this is the row to create.
    Created(StoreRepository),
}

/// A platform of the interface, in the adapters' vocabulary.
pub open spec fn adapter_platform(p: Platform) -> AdapterPlatform {
    match p {
        Platform::GitHub => AdapterPlatform::GitHub,
        Platform::GitLab => AdapterPlatform::GitLab,
        Platform::Bitbucket => AdapterPlatform::Bitbucket,
        Platform::Codeberg => AdapterPlatform::Codeberg,
    }
}

/// A platform of the adapters, in the interface's vocabulary.
pub open spec fn shown_platform(p: AdapterPlatform) -> Platform {
    match p {
        AdapterPlatform::GitHub => Platform::GitHub,
        AdapterPlatform::GitLab => Platform::GitLab,
        AdapterPlatform::Bitbucket => Platform::Bitbucket,
        AdapterPlatform::Codeberg => Platform::Codeberg,
    }
}

/// A prover of the interface, in the dispatcher's vocabulary.
pub open spec fn dispatcher_prover(p: ProverKind) -> DispatcherProverKind {
    match p {
        ProverKind::Agda => DispatcherProverKind::Agda,
        ProverKind::Coq => DispatcherProverKind::Coq,
        ProverKind::Lean => DispatcherProverKind::Lean,
        ProverKind::Isabelle => DispatcherProverKind::Isabelle,
        ProverKind::Z3 => DispatcherProverKind::Z3,
        ProverKind::Cvc5 => DispatcherProverKind::Cvc5,
        ProverKind::Metamath => DispatcherProverKind::Metamath,
        ProverKind::HolLight => DispatcherProverKind::HolLight,
        ProverKind::Mizar => DispatcherProverKind::Mizar,
        ProverKind::Pvs => DispatcherProverKind::Pvs,
        ProverKind::Acl2 => DispatcherProverKind::Acl2,
        ProverKind::Hol4 => DispatcherProverKind::Hol4,
    }
}

/// A prover of the dispatcher, in the interface's vocabulary.
pub open spec fn shown_prover(p: DispatcherProverKind) -> ProverKind {
    match p {
        DispatcherProverKind::Agda => ProverKind::Agda,
        DispatcherProverKind::Coq => ProverKind::Coq,
        DispatcherProverKind::Lean => ProverKind::Lean,
        DispatcherProverKind::Isabelle => ProverKind::Isabelle,
        DispatcherProverKind::Z3 => ProverKind::Z3,
        DispatcherProverKind::Cvc5 => ProverKind::Cvc5,
        DispatcherProverKind::Metamath => ProverKind::Metamath,
        DispatcherProverKind::HolLight => ProverKind::HolLight,
        DispatcherProverKind::Mizar => ProverKind::Mizar,
        DispatcherProverKind::Pvs => ProverKind::Pvs,
        DispatcherProverKind::Acl2 => ProverKind::Acl2,
        DispatcherProverKind::Hol4 => ProverKind::Hol4,
    }
}

/// A job state of the scheduler, in the interface's vocabulary.
pub open spec fn shown_status(s: SchedulerJobStatus) -> JobStatus {
    match s {
        SchedulerJobStatus::Queued => JobStatus::Queued,
        SchedulerJobStatus::Running => JobStatus::Running,
        SchedulerJobStatus::Completed => JobStatus::Completed,
        SchedulerJobStatus::Failed => JobStatus::Failed,
        SchedulerJobStatus::Cancelled => JobStatus::Cancelled,
    }
}

/// An availability of the client, in the interface's vocabulary.
pub open spec fn shown_availability(s: EchidnaProverStatus) -> ProverStatus {
    match s {
        EchidnaProverStatus::Available => ProverStatus::Available,
        EchidnaProverStatus::Degraded => ProverStatus::Degraded,
        EchidnaProverStatus::Unavailable => ProverStatus::Unavailable,
        EchidnaProverStatus::Unknown => ProverStatus::Unknown,
    }
}

/// A count as the interface shows it: capped at the largest number that
/// 32 bits with a sign hold.
pub open spec fn shown_count(n: usize) -> i32 {
    if n > i32::MAX {
        i32::MAX
    } else {
        n as i32
    }
}

/// How many jobs a list holds at most: twenty where no limit is given; a
/// negative limit counts down from the largest number, as a conversion
/// without a sign would read it.
pub open spec fn list_limit(limit: Option<i32>) -> usize {
    match limit {
        None => 20,
        Some(l) => if l >= 0 {
            l as usize
        } else {
            (usize::MAX + 1 + l) as usize
        },
    }
}

impl From<AdapterPlatform> for Platform {
    fn from(p: AdapterPlatform) -> (r: Self) {
        match p {
            AdapterPlatform::GitHub => Platform::GitHub,
            AdapterPlatform::GitLab => Platform::GitLab,
            AdapterPlatform::Bitbucket => Platform::Bitbucket,
            AdapterPlatform::Codeberg => Platform::Codeberg,
        }
    }
}

impl FromSpecImpl<AdapterPlatform> for Platform {
    open spec fn obeys_from_spec() -> bool {
        true
    }

    open spec fn from_spec(p: AdapterPlatform) -> Self {
        shown_platform(p)
    }
}

impl From<Platform> for AdapterPlatform {
    fn from(p: Platform) -> (r: Self) {
        match p {
            Platform::GitHub => AdapterPlatform::GitHub,
            Platform::GitLab => AdapterPlatform::GitLab,
            Platform::Bitbucket => AdapterPlatform::Bitbucket,
            Platform::Codeberg => AdapterPlatform::Codeberg,
        }
    }
}

impl FromSpecImpl<Platform> for AdapterPlatform {
    open spec fn obeys_from_spec() -> bool {
        true
    }

    open spec fn from_spec(p: Platform) -> Self {
        adapter_platform(p)
    }
}

impl From<DispatcherProverKind> for ProverKind {
    fn from(p: DispatcherProverKind) -> (r: Self) {
        match p {
            DispatcherProverKind::Agda => ProverKind::Agda,
            DispatcherProverKind::Coq => ProverKind::Coq,
            DispatcherProverKind::Lean => ProverKind::Lean,
            DispatcherProverKind::Isabelle => ProverKind::Isabelle,
            DispatcherProverKind::Z3 => ProverKind::Z3,
            DispatcherProverKind::Cvc5 => ProverKind::Cvc5,
            DispatcherProverKind::Metamath => ProverKind::Metamath,
            DispatcherProverKind::HolLight => ProverKind::HolLight,
            DispatcherProverKind::Mizar => ProverKind::Mizar,
            DispatcherProverKind::Pvs => ProverKind::Pvs,
            DispatcherProverKind::Acl2 => ProverKind::Acl2,
            DispatcherProverKind::Hol4 => ProverKind::Hol4,
        }
    }
}

impl FromSpecImpl<DispatcherProverKind> for ProverKind {
    open spec fn obeys_from_spec() -> bool {
        true
    }

    open spec fn from_spec(p: DispatcherProverKind) -> Self {
        shown_prover(p)
    }
}

impl From<ProverKind> for DispatcherProverKind {
    fn from(p: ProverKind) -> (r: Self) {
        match p {
            ProverKind::Agda => DispatcherProverKind::Agda,
            ProverKind::Coq => DispatcherProverKind::Coq,
            ProverKind::Lean => DispatcherProverKind::Lean,
            ProverKind::Isabelle => DispatcherProverKind::Isabelle,
            ProverKind::Z3 => DispatcherProverKind::Z3,
            ProverKind::Cvc5 => DispatcherProverKind::Cvc5,
            ProverKind::Metamath => DispatcherProverKind::Metamath,
            ProverKind::HolLight => DispatcherProverKind::HolLight,
            ProverKind::Mizar => DispatcherProverKind::Mizar,
            ProverKind::Pvs => DispatcherProverKind::Pvs,
            ProverKind::Acl2 => DispatcherProverKind::Acl2,
            ProverKind::Hol4 => DispatcherProverKind::Hol4,
        }
    }
}

impl FromSpecImpl<ProverKind> for DispatcherProverKind {
    open spec fn obeys_from_spec() -> bool {
        true
    }

    open spec fn from_spec(p: ProverKind) -> Self {
        dispatcher_prover(p)
    }
}

impl From<SchedulerJobStatus> for JobStatus {
    fn from(s: SchedulerJobStatus) -> (r: Self) {
        match s {
            SchedulerJobStatus::Queued => JobStatus::Queued,
            SchedulerJobStatus::Running => JobStatus::Running,
            SchedulerJobStatus::Completed => JobStatus::Completed,
            SchedulerJobStatus::Failed => JobStatus::Failed,
            SchedulerJobStatus::Cancelled => JobStatus::Cancelled,
        }
    }
}

impl FromSpecImpl<SchedulerJobStatus> for JobStatus {
    open spec fn obeys_from_spec() -> bool {
        true
    }

    open spec fn from_spec(s: SchedulerJobStatus) -> Self {
        shown_status(s)
    }
}

impl From<EchidnaProverStatus> for ProverStatus {
    fn from(s: EchidnaProverStatus) -> (r: Self) {
        match s {
            EchidnaProverStatus::Available => ProverStatus::Available,
            EchidnaProverStatus::Degraded => ProverStatus::Degraded,
            EchidnaProverStatus::Unavailable => ProverStatus::Unavailable,
            EchidnaProverStatus::Unknown => ProverStatus::Unknown,
        }
    }
}

impl FromSpecImpl<EchidnaProverStatus> for ProverStatus {
    open spec fn obeys_from_spec() -> bool {
        true
    }

    open spec fn from_spec(s: EchidnaProverStatus) -> Self {
        shown_availability(s)
    }
}

/// The provers of a list, in the dispatcher's vocabulary.
pub fn to_dispatcher_provers(provers: &Vec<ProverKind>) -> (r: Vec<DispatcherProverKind>)
    ensures
        r@ == provers@.map_values(|p: ProverKind| dispatcher_prover(p)),
{
    let mut r: Vec<DispatcherProverKind> = Vec::new();
    let mut i: usize = 0;
    while i < provers.len()
        invariant
            i <= provers.len(),
            r@ == provers@.take(i as int).map_values(|p: ProverKind| dispatcher_prover(p)),
        decreases provers.len() - i,
    {
        r.push(DispatcherProverKind::from(provers[i]));
        i += 1;
        assert(r@ =~= provers@.take(i as int).map_values(|p: ProverKind| dispatcher_prover(p)));
    }
    assert(provers@.take(provers@.len() as int) =~= provers@);
    r
}

/// The provers of a list, in the interface's vocabulary.
pub fn to_shown_provers(provers: &Vec<DispatcherProverKind>) -> (r: Vec<ProverKind>)
    ensures
        r@ == provers@.map_values(|p: DispatcherProverKind| shown_prover(p)),
{
    let mut r: Vec<ProverKind> = Vec::new();
    let mut i: usize = 0;
    while i < provers.len()
        invariant
            i <= provers.len(),
            r@ == provers@.take(i as int).map_values(|p: DispatcherProverKind| shown_prover(p)),
        decreases provers.len() - i,
    {
        r.push(ProverKind::from(provers[i]));
        i += 1;
        assert(r@ =~= provers@.take(i as int).map_values(|p: DispatcherProverKind| shown_prover(p)));
    }
    assert(provers@.take(provers@.len() as int) =~= provers@);
    r
}

/// A count as the interface shows it.
pub fn to_shown_count(n: usize) -> (r: i32)
    ensures
        r == shown_count(n),
{
    if n > 0x7fff_ffff {
        0x7fff_ffff
    } else {
        n as i32
    }
}

impl Repository {
    /// A row of the store as the interface shows it. The webhook secret is
    /// not shown.
    pub fn from_store(r: StoreRepository) -> (shown: Repository)
        ensures
            shown.id@ == uuid_text(r.id),
            shown.platform == shown_platform(r.platform),
            shown.owner@ == r.owner@,
            shown.name@ == r.name@,
            shown.enabled_provers@ == r.enabled_provers@.map_values(
                |p: DispatcherProverKind| shown_prover(p),
            ),
            shown.check_on_push == r.check_on_push,
            shown.check_on_pr == r.check_on_pr,
            shown.auto_comment == r.auto_comment,
            shown.enabled == r.enabled,
            opt_text(shown.last_checked_commit) == opt_text(r.last_checked_commit),
            shown.created_at == r.created_at,
            shown.updated_at == r.updated_at,
    {
        Repository {
            id: format_uuid(r.id),
            platform: Platform::from(r.platform),
            enabled_provers: to_shown_provers(&r.enabled_provers),
            owner: r.owner,
            name: r.name,
            check_on_push: r.check_on_push,
            check_on_pr: r.check_on_pr,
            auto_comment: r.auto_comment,
            enabled: r.enabled,
            last_checked_commit: r.last_checked_commit,
            created_at: r.created_at,
            updated_at: r.updated_at,
        }
    }
}

impl ProofJob {
    /// A job of the scheduler as the interface shows it.
    pub fn from_job(j: SchedulerProofJob) -> (shown: ProofJob)
        ensures
            shown.id@ == uuid_text(j.id.0),
            shown.repo_id@ == uuid_text(j.repo_id),
            shown.commit_sha@ == j.commit_sha@,
            shown.prover == shown_prover(j.prover),
            texts(shown.file_paths@) == texts(j.file_paths@),
            shown.status == shown_status(j.status),
            shown.queued_at == j.queued_at,
            shown.started_at == j.started_at,
            shown.completed_at == j.completed_at,
    {
        ProofJob {
            id: format_uuid(j.id.0),
            repo_id: format_uuid(j.repo_id),
            commit_sha: j.commit_sha,
            prover: ProverKind::from(j.prover),
            file_paths: j.file_paths,
            status: JobStatus::from(j.status),
            queued_at: j.queued_at,
            started_at: j.started_at,
            completed_at: j.completed_at,
        }
    }

    /// A job record of the store as the interface shows it.
    pub fn from_record(j: ProofJobRecord) -> (shown: ProofJob)
        ensures
            shown.id@ == uuid_text(j.id.0),
            shown.repo_id@ == uuid_text(j.repo_id),
            shown.commit_sha@ == j.commit_sha@,
            shown.prover == shown_prover(j.prover),
            texts(shown.file_paths@) == texts(j.file_paths@),
            shown.status == shown_status(j.status),
            shown.queued_at == j.queued_at,
            shown.started_at == j.started_at,
            shown.completed_at == j.completed_at,
    {
        ProofJob {
            id: format_uuid(j.id.0),
            repo_id: format_uuid(j.repo_id),
            commit_sha: j.commit_sha,
            prover: ProverKind::from(j.prover),
            file_paths: j.file_paths,
            status: JobStatus::from(j.status),
            queued_at: j.queued_at,
            started_at: j.started_at,
            completed_at: j.completed_at,
        }
    }
}

impl QueueStats {
    /// The load of the scheduler as the interface shows it.
    pub fn from_stats(stats: SchedulerStats) -> (r: QueueStats)
        ensures
            r.queued == shown_count(stats.queued),
            r.running == shown_count(stats.running),
            r.max_concurrent == shown_count(stats.max_concurrent),
            r.max_queue_size == shown_count(stats.max_queue_size),
    {
        QueueStats {
            queued: to_shown_count(stats.queued),
            running: to_shown_count(stats.running),
            max_concurrent: to_shown_count(stats.max_concurrent),
            max_queue_size: to_shown_count(stats.max_queue_size),
        }
    }
}

impl QueryRoot {
    /// How many jobs a list holds at most.
    pub fn jobs_limit(limit: Option<i32>) -> (r: usize)
        ensures
            r == list_limit(limit),
    {
        match limit {
            None => 20,
            Some(l) => if l >= 0 {
                l as usize
            } else {
                let below: i64 = -(l as i64 + 1);
                usize::MAX - (below as usize)
            },
        }
    }

    /// What is known of a prover: its static description, joined with the
    /// availability that the verification service reports.
    pub fn prover_info(prover: DispatcherProverKind, status: EchidnaProverStatus) -> (r: ProverInfo)
        ensures
            r.kind == shown_prover(prover),
            r.name@ == prover.name(),
            r.tier == tier_of(prover),
            texts(r.file_extensions@) == seq![extension(prover)],
            r.status == shown_availability(status),
    {
        let mut extensions: Vec<String> = Vec::new();
        extensions.push(prover.extension().to_owned());
        assert(texts(extensions@) =~= seq![extension(prover)]);
        ProverInfo {
            kind: ProverKind::from(prover),
            name: prover.display_name().to_owned(),
            tier: prover.tier() as i32,
            file_extensions: extensions,
            status: ProverStatus::from(status),
        }
    }

    /// The availability to show when the probe itself failed.
    pub fn availability_or_unknown(probe: Result<EchidnaProverStatus, Error>) -> (r:
        EchidnaProverStatus)
        ensures
            r == match probe {
                Ok(s) => s,
                Err(_) => EchidnaProverStatus::Unknown,
            },
    {
        match probe {
            Ok(s) => s,
            Err(_) => EchidnaProverStatus::Unknown,
        }
    }
}

impl MutationRoot {
    /// Registration is idempotent on the natural key. Where a row was
    /// found it is returned as it is. Else a row is made from the input:
    /// with the given provers, or Metamath where none are given, and with
    /// the given secret. An empty list of provers is an error.
    pub fn register_repository(existing: Option<StoreRepository>, input: RegisterRepoInput) -> (r:
        Result<Registration, Error>)
        ensures
            existing is Some ==> r is Ok && r->Ok_0 is Existing && r->Ok_0->Existing_0
                == existing->0,
            existing is None && input.enabled_provers is Some
                && input.enabled_provers->0@.len() == 0 ==> r is Err && r->Err_0 is InvalidInput,
            existing is None && !(input.enabled_provers is Some
                && input.enabled_provers->0@.len() == 0) ==> r is Ok && r->Ok_0 is Created && ({
                let row = r->Ok_0->Created_0;
                &&& row.platform == adapter_platform(input.platform)
                &&& row.owner == input.owner
                &&& row.name == input.name
                &&& row.enabled_provers@ == match input.enabled_provers {
                    Some(list) => list@.map_values(|p: ProverKind| dispatcher_prover(p)),
                    None => seq![DispatcherProverKind::Metamath],
                }
                &&& row.enabled_provers@.len() > 0
                &&& opt_text(row.webhook_secret) == opt_text(input.webhook_secret)
                &&& row.enabled && row.check_on_push && row.check_on_pr && row.auto_comment
                &&& row.last_checked_commit is None
            }),
    {
        if let Some(row) = existing {
            return Ok(Registration::Existing(row));
        }
        let provers = match &input.enabled_provers {
            Some(list) => {
                if list.len() == 0 {
                    return Err(Error::InvalidInput("No provers specified".to_owned()));
                }
                Some(to_dispatcher_provers(list))
            },
            None => None,
        };
        let mut row = StoreRepository::new(
            AdapterPlatform::from(input.platform),
            input.owner,
            input.name,
        );
        if let Some(list) = provers {
            row.enabled_provers = list;
        }
        row.webhook_secret = input.webhook_secret;
        Ok(Registration::Created(row))
    }

    /// The jobs of a manual check: one per prover, at critical priority,
    /// with no list of files, on the given commit or on `HEAD`. The provers
    /// are the given ones, or those of the repository where none are
    /// given. A check without provers is an error.
    pub fn trigger_check(
        repo: &StoreRepository,
        commit_sha: Option<String>,
        provers: Option<Vec<ProverKind>>,
    ) -> (r: Result<Vec<SchedulerProofJob>, Error>)
        ensures
            ({
                let list = match provers {
                    Some(p) => p@.map_values(|p: ProverKind| dispatcher_prover(p)),
                    None => repo.enabled_provers@,
                };
                let commit = match commit_sha {
                    Some(c) => c@,
                    None => "HEAD"@,
                };
                &&& r is Err <==> list.len() == 0
                &&& r is Err ==> r->Err_0 is InvalidInput && r->Err_0.text()
                    == "No provers specified"@
                &&& r is Ok ==> planned(
                    r->Ok_0@,
                    repo.id,
                    commit,
                    blanket_drafts(list, JobPriority::Critical),
                )
            }),
    {
        let commit = match commit_sha {
            Some(c) => c,
            None => "HEAD".to_owned(),
        };
        let list = match &provers {
            Some(p) => to_dispatcher_provers(p),
            None => repo.enabled_provers.clone(),
        };
        if list.len() == 0 {
            return Err(Error::InvalidInput("No provers specified".to_owned()));
        }
        let mut jobs: Vec<SchedulerProofJob> = Vec::new();
        let ghost drafts = blanket_drafts(list@, JobPriority::Critical);
        let mut i: usize = 0;
        while i < list.len()
            invariant
                i <= list.len(),
                drafts == blanket_drafts(list@, JobPriority::Critical),
                jobs@.len() == i,
                forall|k: int|
                    0 <= k < i ==> crate::api::webhooks::follows(
                        (#[trigger] jobs@[k])@,
                        repo.id,
                        commit@,
                        drafts[k],
                    ),
            decreases list.len() - i,
        {
            let ghost before = jobs@;
            let no_files: Vec<String> = Vec::new();
            assert(texts(no_files@) =~= Seq::empty());
            let job = SchedulerProofJob::new(repo.id, commit.clone(), list[i], no_files).with_priority(
                JobPriority::Critical,
            );
            jobs.push(job);
            proof {
                assert forall|k: int| 0 <= k < i + 1 implies crate::api::webhooks::follows(
                    (#[trigger] jobs@[k])@,
                    repo.id,
                    commit@,
                    drafts[k],
                ) by {
                    if k < i {
                        assert(jobs@[k] == before[k]);
                    }
                }
            }
            i += 1;
        }
        Ok(jobs)
    }

    /// Offers the jobs of a manual check. The first job must be accepted:
    /// if it is refused, or if there is no job at all, nothing is offered
    /// and the check fails.
    /// The others are offered as far as they go. The result holds the
    /// accepted jobs, the first one first.
    pub fn admit_check(scheduler: &mut JobScheduler, jobs: Vec<SchedulerProofJob>) -> (r: Result<
        Vec<SchedulerProofJob>,
        Error,
    >)
        requires
            old(scheduler).inv(),
        ensures
            final(scheduler).inv(),
            r is Ok <==> jobs@.len() > 0 && old(scheduler)@.accepts(jobs@[0]@),
            r is Ok ==> final(scheduler)@ == admit_all(old(scheduler)@, job_views(jobs@))
                && job_views(r->Ok_0@) == accepted_of(old(scheduler)@, job_views(jobs@))
                && r->Ok_0@.len() > 0 && r->Ok_0@[0]@ == jobs@[0]@,
            r is Err ==> final(scheduler)@ == old(scheduler)@ && r->Err_0 is InvalidInput
                && r->Err_0.text() == if jobs@.len() == 0 {
                "No provers specified"@
            } else {
                "Job already exists"@
            },
    {
        if jobs.len() == 0 {
            return Err(Error::InvalidInput("No provers specified".to_owned()));
        }
        let ghost start = scheduler@;
        let ghost all = job_views(jobs@);
        let first = jobs[0].clone();
        let outcome = scheduler.enqueue(first);
        let taken = match outcome {
            Ok(Some(_)) => true,
            _ => false,
        };
        if !taken {
            return Err(Error::InvalidInput("Job already exists".to_owned()));
        }
        let mut accepted: Vec<SchedulerProofJob> = Vec::new();
        accepted.push(jobs[0].clone());
        let mut i: usize = 1;
        proof {
            assert(all[0] == jobs@[0]@);
            assert(job_views(accepted@) =~= seq![all[0]]);
            assert(all.drop_first() =~= all.skip(1));
        }
        while i < jobs.len()
            invariant
                1 <= i <= jobs.len(),
                scheduler.inv(),
                all == job_views(jobs@),
                accepted@.len() > 0,
                accepted@[0]@ == jobs@[0]@,
                admit_all(start, all) == admit_all(scheduler@, all.skip(i as int)),
                accepted_of(start, all) == job_views(accepted@) + accepted_of(
                    scheduler@,
                    all.skip(i as int),
                ),
            decreases jobs.len() - i,
        {
            let ghost got = job_views(accepted@);
            let ghost rest = all.skip(i as int);
            proof {
                assert(rest[0] == jobs@[i as int]@);
                assert(rest.drop_first() =~= all.skip(i + 1));
            }
            let offer = jobs[i].clone();
            let outcome = scheduler.enqueue(offer);
            let taken = match outcome {
                Ok(Some(_)) => true,
                _ => false,
            };
            if taken {
                let copy = jobs[i].clone();
                accepted.push(copy);
                proof {
                    assert(job_views(accepted@) =~= got.push(rest[0]));
                    assert(got.push(rest[0]) + accepted_of(scheduler@, all.skip(i + 1)) =~= got + (
                    seq![rest[0]] + accepted_of(scheduler@, all.skip(i + 1))));
                }
            } else {
                proof {
                    assert(got + (Seq::<crate::scheduler::JobView>::empty() + accepted_of(
                        scheduler@,
                        all.skip(i + 1),
                    )) =~= got + accepted_of(scheduler@, all.skip(i + 1)));
                }
            }
            i += 1;
        }
        proof {
            assert(all.skip(jobs@.len() as int) =~= Seq::<crate::scheduler::JobView>::empty());
            assert(job_views(accepted@) + Seq::<crate::scheduler::JobView>::empty() =~= job_views(
                accepted@,
            ));
        }
        Ok(accepted)
    }

    /// Applies an update of settings to a row: what the update names is
    /// replaced, the rest stays, and the time of the update is recorded.
    /// An empty list of provers is an error.
    pub fn update_repo_settings(repo: StoreRepository, settings: RepoSettingsInput, now: i64) -> (r:
        Result<StoreRepository, Error>)
        ensures
            ({
                let empty = settings.enabled_provers is Some && settings.enabled_provers->0@.len()
                    == 0;
                &&& r is Err <==> empty
                &&& r is Err ==> r->Err_0 is InvalidInput
                &&& r is Ok ==> {
                    let row = r->Ok_0;
                    &&& row.id == repo.id
                    &&& row.platform == repo.platform
                    &&& row.owner == repo.owner
                    &&& row.name == repo.name
                    &&& row.enabled == repo.enabled
                    &&& row.last_checked_commit == repo.last_checked_commit
                    &&& row.created_at == repo.created_at
                    &&& row.updated_at == now
                    &&& opt_text(row.webhook_secret) == match settings.webhook_secret {
                        Some(s) => Some(s@),
                        None => opt_text(repo.webhook_secret),
                    }
                    &&& row.enabled_provers@ == match settings.enabled_provers {
                        Some(list) => list@.map_values(|p: ProverKind| dispatcher_prover(p)),
                        None => repo.enabled_provers@,
                    }
                    &&& row.check_on_push == match settings.check_on_push {
                        Some(v) => v,
                        None => repo.check_on_push,
                    }
                    &&& row.check_on_pr == match settings.check_on_pr {
                        Some(v) => v,
                        None => repo.check_on_pr,
                    }
                    &&& row.auto_comment == match settings.auto_comment {
                        Some(v) => v,
                        None => repo.auto_comment,
                    }
                }
            }),
    {
        let mut row = repo;
        if let Some(list) = &settings.enabled_provers {
            if list.len() == 0 {
                return Err(Error::InvalidInput("No provers specified".to_owned()));
            }
            row.enabled_provers = to_dispatcher_provers(list);
        }
        if let Some(secret) = settings.webhook_secret {
            row.webhook_secret = Some(secret);
        }
        if let Some(v) = settings.check_on_push {
            row.check_on_push = v;
        }
        if let Some(v) = settings.check_on_pr {
            row.check_on_pr = v;
        }
        if let Some(v) = settings.auto_comment {
            row.auto_comment = v;
        }
        row.updated_at = now;
        Ok(row)
    }

    /// Enables or disables a repository and records the time.
    pub fn set_repo_enabled(repo: StoreRepository, enabled: bool, now: i64) -> (r: StoreRepository)
        ensures
            r == (StoreRepository { enabled, updated_at: now, ..repo }),
    {
        let mut row = repo;
        row.enabled = enabled;
        row.updated_at = now;
        row
    }
}

/// The two vocabularies say the same: a platform, a prover, carried over
/// and back, is itself.
pub proof fn law_vocabularies_agree(platform: Platform, prover: ProverKind)
    ensures
        shown_platform(adapter_platform(platform)) == platform,
        adapter_platform(shown_platform(adapter_platform(platform))) == adapter_platform(platform),
        shown_prover(dispatcher_prover(prover)) == prover,
        dispatcher_prover(shown_prover(dispatcher_prover(prover))) == dispatcher_prover(prover),
{
}

} // verus!
