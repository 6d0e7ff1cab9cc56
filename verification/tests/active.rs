use jobworkerp_conductor::active::{add_job_with, ActiveJobs, ActiveListeners};
use jobworkerp_conductor::model::{
    CronScheduler, CronSchedulerData, CronSchedulerId, JobworkerpServer, JobworkerpServerData, JobworkerpServerId,
};
use jobworkerp_conductor::server_manager::RunningChange;

#[test]
fn active_jobs_record_replace_remove_and_take_all() {
    let mut jobs: ActiveJobs<u32> = ActiveJobs::new();
    assert_eq!(jobs.len(), 0);
    assert_eq!(jobs.insert(1, "daily".to_string(), 10), None);
    assert_eq!(jobs.insert(2, "hourly".to_string(), 20), None);
    assert_eq!(jobs.len(), 2);
    assert!(jobs.contains(1));
    assert!(!jobs.contains(3));
    assert_eq!(jobs.insert(1, "daily2".to_string(), 11), Some(("daily".to_string(), 10)));
    assert_eq!(jobs.len(), 2);
    assert_eq!(jobs.remove(2), Some(("hourly".to_string(), 20)));
    assert_eq!(jobs.remove(3), None);
    let all = jobs.take_all();
    assert_eq!(all.len(), 1);
    assert_eq!(all.get(&1), Some(&("daily2".to_string(), 11)));
    assert_eq!(jobs.len(), 0);
}

#[test]
fn active_jobs_change_steps() {
    let mut jobs: ActiveJobs<u32> = ActiveJobs::new();
    jobs.insert(1, "daily".to_string(), 10);
    jobs.insert(2, "hourly".to_string(), 20);
    let step = jobs.begin_change(RunningChange::Restart(1));
    assert_eq!(step.stopped, Some(("daily".to_string(), 10)));
    assert_eq!(step.start, Some(1));
    assert!(!jobs.contains(1));
    let step = jobs.begin_change(RunningChange::Remove(5));
    assert_eq!(step.stopped, None);
    assert_eq!(step.start, None);
    let step = jobs.begin_change(RunningChange::Keep);
    assert_eq!(step.stopped, None);
    assert_eq!(step.start, None);
    assert_eq!(jobs.len(), 1);
    let step = jobs.begin_change(RunningChange::Remove(2));
    assert_eq!(step.stopped, Some(("hourly".to_string(), 20)));
    assert_eq!(jobs.len(), 0);
}

#[test]
fn job_restart_leaves_what_an_insertion_leaves() {
    let mut restarted: ActiveJobs<u32> = ActiveJobs::new();
    let mut inserted: ActiveJobs<u32> = ActiveJobs::new();
    for jobs in [&mut restarted, &mut inserted] {
        jobs.insert(1, "daily".to_string(), 10);
        jobs.insert(2, "hourly".to_string(), 20);
    }
    let step = restarted.begin_change(RunningChange::Restart(1));
    assert_eq!(restarted.len(), 1);
    restarted.insert(step.start.unwrap(), "daily".to_string(), 99);
    inserted.insert(1, "daily".to_string(), 99);
    assert_eq!(restarted.take_all(), inserted.take_all());
}

#[test]
fn active_listeners_record_replace_remove_and_take_all() {
    let mut listeners: ActiveListeners<u32> = ActiveListeners::new();
    assert_eq!(listeners.insert("a".to_string(), 1), None);
    assert_eq!(listeners.insert("b".to_string(), 2), None);
    assert_eq!(listeners.insert("c".to_string(), 3), None);
    assert_eq!(listeners.len(), 3);
    assert!(listeners.contains("b"));
    assert_eq!(listeners.insert("b".to_string(), 20), Some(2));
    assert_eq!(listeners.len(), 3);
    assert_eq!(listeners.remove("a"), Some(1));
    assert_eq!(listeners.remove("a"), None);
    assert!(!listeners.contains("a"));
    let all = listeners.take_all();
    assert_eq!(all, vec![("b".to_string(), 20), ("c".to_string(), 3)]);
    assert_eq!(listeners.len(), 0);
}

#[test]
fn listener_put_then_take_reads_back() {
    let mut listeners: ActiveListeners<u32> = ActiveListeners::new();
    listeners.insert("x".to_string(), 1);
    listeners.insert("y".to_string(), 2);
    listeners.insert("x".to_string(), 5);
    assert_eq!(listeners.remove("x"), Some(5));
    assert!(!listeners.contains("x"));
    assert_eq!(listeners.remove("y"), Some(2));
    assert_eq!(listeners.len(), 0);
}

#[test]
fn active_listeners_change_steps() {
    let mut listeners: ActiveListeners<u32> = ActiveListeners::new();
    listeners.insert("l1".to_string(), 1);
    let step = listeners.begin_change(RunningChange::Restart(7), &Some("l1".to_string()));
    assert_eq!(step.stopped, Some(1));
    assert_eq!(step.start, Some(7));
    assert_eq!(listeners.len(), 0);
    listeners.insert("l2".to_string(), 2);
    let step = listeners.begin_change(RunningChange::Remove(8), &None);
    assert_eq!(step.stopped, None);
    assert_eq!(step.start, None);
    assert_eq!(listeners.len(), 1);
    let step = listeners.begin_change(RunningChange::Restart(8), &Some("missing".to_string()));
    assert_eq!(step.stopped, None);
    assert_eq!(step.start, Some(8));
    let step = listeners.begin_change(RunningChange::Keep, &Some("l2".to_string()));
    assert_eq!(step.stopped, None);
    assert_eq!(listeners.len(), 1);
}

fn cron(enabled: bool, server: Option<i64>) -> CronScheduler {
    CronScheduler {
        id: Some(CronSchedulerId { value: 5 }),
        data: Some(CronSchedulerData {
            name: "nightly".to_string(),
            jobworkerp_server_id: server.map(|v| JobworkerpServerId { value: v }),
            workflow_url: "wf.yml".to_string(),
            channel: None,
            crontab: "0 0 * * * *".to_string(),
            enabled,
            description: None,
            created_at: 0,
            updated_at: 0,
            args: None,
            execution_target: None,
        }),
    }
}

fn jobworkerp_server(with_data: bool) -> JobworkerpServer {
    JobworkerpServer {
        id: Some(JobworkerpServerId { value: 2 }),
        data: if with_data {
            Some(JobworkerpServerData {
                name: "s".to_string(),
                host: "localhost".to_string(),
                port: "50051".to_string(),
                ssl_enabled: false,
                description: None,
                enabled: true,
                created_at: 0,
                updated_at: 0,
            })
        } else {
            None
        },
    }
}

#[test]
fn adding_a_job_keeps_what_runs_on_every_error() {
    let id = CronSchedulerId { value: 5 };
    let mut jobs: ActiveJobs<u32> = ActiveJobs::new();
    jobs.insert(1, "other".to_string(), 1);
    assert_eq!(add_job_with(&mut jobs, id, None, None, Ok(9)), Err("CronScheduler id=5 not found".to_string()));
    let no_server_id = cron(true, None);
    assert_eq!(
        add_job_with(&mut jobs, id, Some(&no_server_id), None, Ok(9)),
        Err("CronScheduler jobworkerp_server_id is missing".to_string())
    );
    let enabled = cron(true, Some(2));
    assert_eq!(
        add_job_with(&mut jobs, id, Some(&enabled), None, Ok(9)),
        Err("JobworkerpServer with id 2 not found".to_string())
    );
    let bare = jobworkerp_server(false);
    assert_eq!(
        add_job_with(&mut jobs, id, Some(&enabled), Some(&bare), Ok(9)),
        Err("JobworkerpServer data is missing".to_string())
    );
    let server = jobworkerp_server(true);
    assert_eq!(
        add_job_with(&mut jobs, id, Some(&enabled), Some(&server), Err("invalid cron expression".to_string())),
        Err("invalid cron expression".to_string())
    );
    assert_eq!(jobs.len(), 1);
    assert!(!jobs.contains(5));
}

#[test]
fn adding_a_disabled_scheduler_runs_nothing() {
    let mut jobs: ActiveJobs<u32> = ActiveJobs::new();
    let disabled = cron(false, Some(2));
    let server = jobworkerp_server(true);
    assert_eq!(add_job_with(&mut jobs, CronSchedulerId { value: 5 }, Some(&disabled), Some(&server), Ok(9)), Ok(()));
    assert_eq!(jobs.len(), 0);
}

#[test]
fn adding_an_enabled_scheduler_runs_its_job() {
    let mut jobs: ActiveJobs<u32> = ActiveJobs::new();
    jobs.insert(1, "other".to_string(), 1);
    let enabled = cron(true, Some(2));
    let server = jobworkerp_server(true);
    assert_eq!(add_job_with(&mut jobs, CronSchedulerId { value: 5 }, Some(&enabled), Some(&server), Ok(9)), Ok(()));
    assert_eq!(jobs.len(), 2);
    let all = jobs.take_all();
    assert_eq!(all.get(&5), Some(&("nightly".to_string(), 9)));
    assert_eq!(all.get(&1), Some(&("other".to_string(), 1)));
}
