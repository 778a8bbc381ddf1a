use bili_sync::config::{Config, Credential, Trigger};
use bili_sync::task::{
    credential_refresh_cron, credential_refresh_plan, credential_refreshed_message, job_spec_for,
    plan_config_reload, plan_initial_jobs, status_on_cycle_end, status_on_cycle_start,
    status_with_next_run, try_enter_cycle, CredentialRefreshPlan, JobAction, JobSpec, JobsState,
    SingleFlight, TaskStatus,
};
use bili_sync::time::LocalTime;

fn at(hour: u8) -> LocalTime {
    LocalTime { year: 2026, month: 5, day: 6, hour, minute: 0, second: 0 }
}

fn cron_config() -> Config {
    let mut config = Config::default();
    config.interval = Trigger::Cron(String::from("0 0 * * * *"));
    config.notify_daily_summary = true;
    config
}

#[test]
fn single_flight_admits_one_holder() {
    let mut lock = SingleFlight::new();
    assert!(lock.try_lock(1));
    assert!(!lock.try_lock(2));
    assert!(!lock.try_lock(1));
    lock.unlock(1);
    assert!(lock.try_lock(2));
}

#[test]
fn busy_lock_skips_the_tick() {
    let mut lock = SingleFlight::new();
    let status = try_enter_cycle(&mut lock, 7, at(10)).unwrap();
    assert!(status.is_running);
    assert!(status.last_run.is_some());
    assert!(status.last_finish.is_none());
    assert!(try_enter_cycle(&mut lock, 8, at(10)).is_none());
    lock.unlock(7);
    assert!(try_enter_cycle(&mut lock, 8, at(11)).is_some());
}

#[test]
fn cycle_status_transitions_keep_the_start_mark() {
    let started = status_on_cycle_start(at(10));
    let finished = status_on_cycle_end(&started, at(11), Some(at(12)));
    assert!(!finished.is_running);
    assert_eq!(finished.last_run.unwrap().hour, 10);
    assert_eq!(finished.last_finish.unwrap().hour, 11);
    assert_eq!(finished.next_run.unwrap().hour, 12);
    let refreshed = status_with_next_run(&finished, Some(at(13)));
    assert_eq!(refreshed.next_run.unwrap().hour, 13);
    assert_eq!(refreshed.last_finish.unwrap().hour, 11);
    let initial = TaskStatus::default();
    assert!(!initial.is_running && initial.next_run.is_none());
}

#[test]
fn interval_to_cron_reload_replaces_the_download_job() {
    let state = JobsState { video_job: Some(11), summary_job: Some(12) };
    let config = cron_config();
    let (new_state, actions) = plan_config_reload(&state, &config, 21, 22);
    assert_eq!(new_state.video_job, Some(21));
    assert_eq!(new_state.summary_job, Some(22));
    assert_eq!(actions.len(), 5);
    assert!(matches!(actions[0], JobAction::Remove(11)));
    assert!(matches!(
        &actions[1],
        JobAction::AddVideoJob(21, JobSpec::CronLocal(c)) if c == "0 0 * * * *"
    ));
    assert!(matches!(actions[2], JobAction::RefreshNextRun(21)));
    assert!(matches!(actions[3], JobAction::Remove(12)));
    assert!(matches!(
        &actions[4],
        JobAction::AddSummaryJob(22, cron) if cron == "0 0 9 * * *"
    ));
}

#[test]
fn disabling_the_summary_drops_its_job() {
    let state = JobsState { video_job: None, summary_job: Some(12) };
    let mut config = cron_config();
    config.notify_daily_summary = false;
    config.interval = Trigger::Interval(300);
    let (new_state, actions) = plan_config_reload(&state, &config, 21, 22);
    assert_eq!(new_state.summary_job, None);
    assert_eq!(actions.len(), 3);
    assert!(matches!(
        actions[0],
        JobAction::AddVideoJob(21, JobSpec::RepeatedSeconds(300))
    ));
    assert!(matches!(actions[1], JobAction::RefreshNextRun(21)));
    assert!(matches!(actions[2], JobAction::Remove(12)));
}

#[test]
fn initial_setup_schedules_every_job() {
    let config = cron_config();
    let (state, actions) = plan_initial_jobs(&config, false, 1, 2, 3);
    assert_eq!(state.video_job, Some(2));
    assert_eq!(state.summary_job, Some(3));
    assert_eq!(actions.len(), 4);
    assert!(matches!(actions[0], JobAction::AddCredentialRefreshJob(1)));
    assert!(matches!(actions[1], JobAction::AddVideoJob(2, _)));
    assert!(matches!(actions[2], JobAction::RefreshNextRun(2)));
    assert!(matches!(&actions[3], JobAction::AddSummaryJob(3, _)));
    let (_, without_refresh) = plan_initial_jobs(&config, true, 1, 2, 3);
    assert_eq!(without_refresh.len(), 3);
    assert!(matches!(without_refresh[0], JobAction::AddVideoJob(2, _)));
}

#[test]
fn job_spec_follows_the_trigger() {
    assert!(matches!(
        job_spec_for(&Trigger::Interval(300)),
        JobSpec::RepeatedSeconds(300)
    ));
    assert!(matches!(
        job_spec_for(&Trigger::Cron(String::from("0 0 * * * *"))),
        JobSpec::CronLocal(c) if c == "0 0 * * * *"
    ));
    assert_eq!(credential_refresh_cron(), "0 0 1 * * *");
}

#[test]
fn credential_refresh_persists_only_fresh_credentials() {
    assert!(matches!(
        credential_refresh_plan(None),
        CredentialRefreshPlan::KeepCurrent
    ));
    let fresh = Credential {
        sessdata: String::from("s2"),
        bili_jct: String::from("j2"),
        buvid3: String::from("b2"),
        dedeuserid: String::from("d2"),
        ac_time_value: String::from("a2"),
    };
    match credential_refresh_plan(Some(fresh)) {
        CredentialRefreshPlan::Persist(c) => assert_eq!(c.sessdata, "s2"),
        CredentialRefreshPlan::KeepCurrent => panic!("a fresh credential must be persisted"),
    }
    assert_eq!(
        credential_refreshed_message(),
        "✅ 凭据已刷新 Credential 已自动刷新并保存，系统将继续正常运行。"
    );
}
