//! The task manager's decisions: the single-flight lock that keeps two
//! download cycles from overlapping, the published task status, and how
//! the scheduled jobs are rebuilt when the configuration changes.

use vstd::prelude::*;
use crate::config::{Config, Credential, Trigger};
use crate::time::LocalTime;

verus! {

/// The published state of the periodic download task.
#[derive(Clone, Copy)]
pub struct TaskStatus {
    pub is_running: bool,
    pub last_run: Option<LocalTime>,
    pub last_finish: Option<LocalTime>,
    pub next_run: Option<LocalTime>,
}

impl Default for TaskStatus {
    /// The status before any run.
    fn default() -> (r: TaskStatus)
        ensures
            !r.is_running,
            r.last_run is None,
            r.last_finish is None,
            r.next_run is None,
    {
        TaskStatus { is_running: false, last_run: None, last_finish: None, next_run: None }
    }
}

/// The status published when a cycle starts: running since `now`, with
/// the finish and next-run marks cleared.
pub fn status_on_cycle_start(now: LocalTime) -> (r: TaskStatus)
    ensures
        r.is_running,
        r.last_run == Some(now),
        r.last_finish is None,
        r.next_run is None,
{
    TaskStatus { is_running: true, last_run: Some(now), last_finish: None, next_run: None }
}

/// The status published when a cycle ends: no longer running, finished at
/// `now`, keeping the recorded start and carrying the scheduler's next
/// tick.
pub fn status_on_cycle_end(last: &TaskStatus, now: LocalTime, next_run: Option<LocalTime>) -> (r:
    TaskStatus)
    ensures
        !r.is_running,
        r.last_run == last.last_run,
        r.last_finish == Some(now),
        r.next_run == next_run,
{
    TaskStatus { is_running: false, last_run: last.last_run, last_finish: Some(now), next_run }
}

/// The status republished by the one-shot refresh job: only the next tick
/// changes.
pub fn status_with_next_run(last: &TaskStatus, next_run: Option<LocalTime>) -> (r: TaskStatus)
    ensures
        r.is_running == last.is_running,
        r.last_run == last.last_run,
        r.last_finish == last.last_finish,
        r.next_run == next_run,
{
    TaskStatus {
        is_running: last.is_running,
        last_run: last.last_run,
        last_finish: last.last_finish,
        next_run,
    }
}

/// The single-flight lock of the download cycle: at most one owner holds
/// it, so two cycles never overlap and a tick that finds it busy skips.
pub struct SingleFlight {
    holder: Option<u64>,
}

impl SingleFlight {
    /// Who holds the lock, if anyone.
    pub closed spec fn view(&self) -> Option<u64> {
        self.holder
    }

    /// Whether `owner` holds the lock.
    pub open spec fn holds(&self, owner: u64) -> bool {
        self@ == Some(owner)
    }

    /// Builds the lock, free.
    pub fn new() -> (r: SingleFlight)
        ensures
            r@ is None,
    {
        SingleFlight { holder: None }
    }

    /// Tries to take the lock for `owner` without waiting: succeeds
    /// exactly when it is free, and a failed try changes nothing.
    pub fn try_lock(&mut self, owner: u64) -> (r: bool)
        ensures
            r == (old(self)@ is None),
            r ==> final(self).holds(owner),
            !r ==> final(self)@ == old(self)@,
    {
        match self.holder {
            None => {
                self.holder = Some(owner);
                true
            },
            Some(_) => false,
        }
    }

    /// Releases the lock.
    pub fn unlock(&mut self, owner: u64)
        requires
            old(self).holds(owner),
        ensures
            final(self)@ is None,
    {
        self.holder = None;
    }
}

/// At most one owner holds the single-flight lock at any instant: two
/// holders of the same lock are the same owner, so concurrent download
/// cycles are impossible.
pub proof fn lemma_single_flight_exclusive(lock: SingleFlight, a: u64, b: u64)
    requires
        lock.holds(a),
        lock.holds(b),
    ensures
        a == b,
{
}

/// How a scheduled job fires.
pub enum JobSpec {
    /// Every this many seconds.
    RepeatedSeconds(u64),
    /// On a six-field cron expression, evaluated in local time.
    CronLocal(String),
}

/// The job the configured trigger asks for.
pub open spec fn spec_job_spec(t: Trigger) -> JobSpec {
    match t {
        Trigger::Interval(secs) => JobSpec::RepeatedSeconds(secs),
        Trigger::Cron(c) => JobSpec::CronLocal(c),
    }
}

/// Builds the job the configured trigger asks for.
pub fn job_spec_for(trigger: &Trigger) -> (r: JobSpec)
    ensures
        r == spec_job_spec(*trigger),
{
    match trigger {
        Trigger::Interval(secs) => JobSpec::RepeatedSeconds(*secs),
        Trigger::Cron(c) => JobSpec::CronLocal(c.clone()),
    }
}

/// One instruction to the scheduler.  Job handles are chosen by the
/// scheduler's side and handed in fresh.
pub enum JobAction {
    /// Remove the job with this handle.
    Remove(u64),
    /// Add the periodic download job under this handle.
    AddVideoJob(u64, JobSpec),
    /// Add the daily-summary job under this handle, on this cron.
    AddSummaryJob(u64, String),
    /// Add the daily credential-refresh job under this handle.
    AddCredentialRefreshJob(u64),
    /// Schedule a one-shot that republishes this job's next tick.
    RefreshNextRun(u64),
}

/// The job handles the task manager tracks.
pub struct JobsState {
    pub video_job: Option<u64>,
    pub summary_job: Option<u64>,
}

/// The cron of the daily credential refresh: one in the morning.
pub fn credential_refresh_cron() -> (r: String)
    ensures
        r@ == "0 0 1 * * *"@,
{
    String::from_str("0 0 1 * * *")
}

/// The scheduler instructions that rebuild the jobs on a configuration
/// change: the old download job is removed before the new one is added
/// under a fresh handle (never mutated in place), its next tick is
/// republished, and the summary job is removed and re-added only while
/// the daily summary stays enabled.
pub open spec fn spec_reload_actions(
    state: JobsState,
    cfg: Config,
    fresh_video_job: u64,
    fresh_summary_job: u64,
) -> Seq<JobAction> {
    (match state.video_job {
        Some(old_id) => seq![JobAction::Remove(old_id)],
        None => Seq::empty(),
    }) + seq![
        JobAction::AddVideoJob(fresh_video_job, spec_job_spec(cfg.interval)),
        JobAction::RefreshNextRun(fresh_video_job),
    ] + (match state.summary_job {
        Some(old_id) => seq![JobAction::Remove(old_id)],
        None => Seq::empty(),
    }) + (if cfg.notify_daily_summary {
        seq![JobAction::AddSummaryJob(fresh_summary_job, cfg.daily_summary_cron)]
    } else {
        Seq::empty()
    })
}

/// Plans the scheduler work of one configuration reload and the handles
/// tracked afterwards.
pub fn plan_config_reload(
    state: &JobsState,
    cfg: &Config,
    fresh_video_job: u64,
    fresh_summary_job: u64,
) -> (r: (JobsState, Vec<JobAction>))
    ensures
        r.0.video_job == Some(fresh_video_job),
        r.0.summary_job == (if cfg.notify_daily_summary {
            Some(fresh_summary_job)
        } else {
            None::<u64>
        }),
        r.1@ == spec_reload_actions(*state, *cfg, fresh_video_job, fresh_summary_job),
{
    let mut actions: Vec<JobAction> = Vec::new();
    if let Some(old_id) = state.video_job {
        actions.push(JobAction::Remove(old_id));
    }
    actions.push(JobAction::AddVideoJob(fresh_video_job, job_spec_for(&cfg.interval)));
    actions.push(JobAction::RefreshNextRun(fresh_video_job));
    if let Some(old_id) = state.summary_job {
        actions.push(JobAction::Remove(old_id));
    }
    let summary_job = if cfg.notify_daily_summary {
        actions.push(JobAction::AddSummaryJob(fresh_summary_job, cfg.daily_summary_cron.clone()));
        Some(fresh_summary_job)
    } else {
        None
    };
    proof {
        assert(actions@ =~= spec_reload_actions(*state, *cfg, fresh_video_job, fresh_summary_job));
    }
    (JobsState { video_job: Some(fresh_video_job), summary_job }, actions)
}

/// The scheduler instructions of the initial setup: the daily credential
/// refresh unless disabled by the flag, the download job from the initial
/// trigger, its next-tick refresh, and the daily-summary job.
pub open spec fn spec_initial_actions(
    cfg: Config,
    disable_credential_refresh: bool,
    credential_job: u64,
    video_job: u64,
    summary_job: u64,
) -> Seq<JobAction> {
    (if disable_credential_refresh {
        Seq::empty()
    } else {
        seq![JobAction::AddCredentialRefreshJob(credential_job)]
    }) + seq![
        JobAction::AddVideoJob(video_job, spec_job_spec(cfg.interval)),
        JobAction::RefreshNextRun(video_job),
        JobAction::AddSummaryJob(summary_job, cfg.daily_summary_cron),
    ]
}

/// Plans the initial scheduler setup and the handles tracked afterwards.
pub fn plan_initial_jobs(
    cfg: &Config,
    disable_credential_refresh: bool,
    credential_job: u64,
    video_job: u64,
    summary_job: u64,
) -> (r: (JobsState, Vec<JobAction>))
    ensures
        r.0.video_job == Some(video_job),
        r.0.summary_job == Some(summary_job),
        r.1@ == spec_initial_actions(
            *cfg,
            disable_credential_refresh,
            credential_job,
            video_job,
            summary_job,
        ),
{
    let mut actions: Vec<JobAction> = Vec::new();
    if !disable_credential_refresh {
        actions.push(JobAction::AddCredentialRefreshJob(credential_job));
    }
    actions.push(JobAction::AddVideoJob(video_job, job_spec_for(&cfg.interval)));
    actions.push(JobAction::RefreshNextRun(video_job));
    actions.push(JobAction::AddSummaryJob(summary_job, cfg.daily_summary_cron.clone()));
    proof {
        assert(actions@ =~= spec_initial_actions(
            *cfg,
            disable_credential_refresh,
            credential_job,
            video_job,
            summary_job,
        ));
    }
    (JobsState { video_job: Some(video_job), summary_job: Some(summary_job) }, actions)
}

/// What the daily credential check does with the client's answer: a
/// fresher credential is persisted and announced, no answer keeps the
/// current one.
pub enum CredentialRefreshPlan {
    KeepCurrent,
    Persist(Credential),
}

/// Decides the follow-up of one credential check.
pub fn credential_refresh_plan(refreshed: Option<Credential>) -> (r: CredentialRefreshPlan)
    ensures
        refreshed is None <==> r is KeepCurrent,
        refreshed matches Some(c) ==> r == CredentialRefreshPlan::Persist(c),
{
    match refreshed {
        None => CredentialRefreshPlan::KeepCurrent,
        Some(c) => CredentialRefreshPlan::Persist(c),
    }
}

/// The notification sent after a successful credential refresh.
pub fn credential_refreshed_message() -> (r: String)
    ensures
        r@ == "✅ 凭据已刷新 Credential 已自动刷新并保存，系统将继续正常运行。"@,
{
    String::from_str("✅ 凭据已刷新 Credential 已自动刷新并保存，系统将继续正常运行。")
}

/// What the periodic tick does: a tick that finds the lock busy skips the
/// cycle outright; a tick that takes it publishes the running status.
pub fn try_enter_cycle(lock: &mut SingleFlight, owner: u64, now: LocalTime) -> (r: Option<
    TaskStatus,
>)
    ensures
        (old(lock)@ is None) <==> r is Some,
        r matches Some(status) ==> {
            &&& final(lock).holds(owner)
            &&& status.is_running
            &&& status.last_run == Some(now)
            &&& status.last_finish is None
            &&& status.next_run is None
        },
        r is None ==> final(lock)@ == old(lock)@,
{
    if lock.try_lock(owner) {
        Some(status_on_cycle_start(now))
    } else {
        None
    }
}

} // verus!
