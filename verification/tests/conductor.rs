use jobworkerp_conductor::cache_keys::{CronSchedulerKeys, JobworkerpServerKeys, SlackEventHandlerKeys, WorkerResultHandlerKeys};
use jobworkerp_conductor::conductor::{cron_run, first_setting_named, run_mode, CliCommand, CronRun, RunMode};
use jobworkerp_conductor::settings::SchedulerSetting;
use jobworkerp_conductor::source_resolver::{endpoint_for, resolve_cron_source};
use jobworkerp_conductor::errors::UiEventHandlerError;
use jobworkerp_conductor::model::{ExecutionSourceType, JobworkerpServerId};

fn setting(name: &str, worker: Option<&str>, args: Option<&str>) -> SchedulerSetting {
    SchedulerSetting {
        name: name.to_string(),
        jobworkerp: "http://localhost:9000".to_string(),
        workflow_url: "wf.yml".to_string(),
        channel: None,
        crontab: "0/5 * * * * *".to_string(),
        args: args.map(|s| s.to_string()),
        worker_name: worker.map(|s| s.to_string()),
        using: None,
    }
}

#[test]
fn cron_jobs_run_workers_or_workflows() {
    assert!(matches!(cron_run(&setting("a", Some("w"), None)), CronRun::Worker { .. }));
    match cron_run(&setting("a", None, None)) {
        CronRun::Workflow { input, .. } => assert_eq!(input, "{}"),
        _ => panic!("expected workflow"),
    }
    match cron_run(&setting("a", None, Some("{\"k\":1}"))) {
        CronRun::Workflow { input, .. } => assert_eq!(input, "{\"k\":1}"),
        _ => panic!("expected workflow"),
    }
    let settings = vec![setting("a", None, None), setting("b", None, None), setting("b", None, None)];
    assert_eq!(first_setting_named(&settings, "b"), Some(1));
    assert_eq!(first_setting_named(&settings, "z"), None);
}

#[test]
fn command_line_selects_mode() {
    assert!(matches!(run_mode(None), RunMode::DbDriven));
    assert!(matches!(
        run_mode(Some(CliCommand::Serve { legacy_mode: false, file_settings_toml: "x".to_string() })),
        RunMode::DbDriven
    ));
    match run_mode(Some(CliCommand::Serve { legacy_mode: true, file_settings_toml: "./workflows.toml".to_string() })) {
        RunMode::Legacy { file_settings_toml } => assert_eq!(file_settings_toml, "./workflows.toml"),
        _ => panic!("expected legacy"),
    }
}

#[test]
fn cache_keys_by_id_and_name() {
    assert_eq!(CronSchedulerKeys::find_cache_key(12), "cron_scheduler_id:12");
    assert_eq!(CronSchedulerKeys::find_by_name_cache_key("n"), "cron_scheduler_name:n");
    assert_eq!(WorkerResultHandlerKeys::find_cache_key(-1), "worker_result_handler_id:-1");
    assert_eq!(JobworkerpServerKeys::find_by_name_cache_key("s"), "jobworkerp_server_name:s");
    assert_eq!(SlackEventHandlerKeys::find_cache_key(0), "slack_event_handler_id:0");
}

#[test]
fn cron_source_resolution_errors() {
    match resolve_cron_source(ExecutionSourceType::WorkerResultHandler, 1, None) {
        Err(UiEventHandlerError::Unimplemented(m)) => {
            assert_eq!(m, "manual trigger is only supported for CRON_SCHEDULER, got WorkerResultHandler")
        }
        _ => panic!("expected unimplemented"),
    }
    match resolve_cron_source(ExecutionSourceType::CronScheduler, 7, None) {
        Err(UiEventHandlerError::NotFound(m)) => assert_eq!(m, "cron scheduler not found: id=7"),
        _ => panic!("expected not found"),
    }
    match endpoint_for(JobworkerpServerId { value: 3 }, None) {
        Err(UiEventHandlerError::NotFound(m)) => assert_eq!(m, "jobworkerp server not found: id=3"),
        _ => panic!("expected not found"),
    }
}
