use jobworkerp_conductor::dynamic::{
    cron_pending_ref, listener_to_start, plan_cron_job, plan_listener, resolve_cron_timezone, server_endpoint_of,
    PlanErrorKind,
};
use jobworkerp_conductor::model::{
    CronScheduler, CronSchedulerData, CronSchedulerId, ExecutionSourceType, ExecutionTarget, JobworkerpServer,
    JobworkerpServerData, JobworkerpServerId, WorkerExecution, WorkerResultHandler, WorkerResultHandlerData,
    WorkerResultHandlerId,
};

fn tz(conductor: Option<&str>, tz: Option<&str>) -> String {
    resolve_cron_timezone(conductor.map(|s| s.to_string()), tz.map(|s| s.to_string()))
}

#[test]
fn resolve_cron_timezone_defaults_to_utc() {
    assert_eq!(tz(None, None), chrono_tz::Tz::UTC.name());
}

#[test]
fn resolve_cron_timezone_uses_conductor_var() {
    assert_eq!(tz(Some("Asia/Tokyo"), Some("Europe/Paris")), chrono_tz::Asia::Tokyo.name());
}

#[test]
fn resolve_cron_timezone_falls_back_to_tz_var() {
    assert_eq!(tz(None, Some("Europe/Paris")), chrono_tz::Europe::Paris.name());
}

#[test]
fn resolve_cron_timezone_invalid_value_falls_back_to_utc() {
    assert_eq!(tz(Some("Not/A_Zone"), None), chrono_tz::Tz::UTC.name());
}

#[test]
fn resolve_cron_timezone_empty_string_falls_back() {
    assert_eq!(tz(Some("   "), Some("Asia/Tokyo")), chrono_tz::Asia::Tokyo.name());
}

#[test]
fn resolve_cron_timezone_trims_the_value() {
    assert_eq!(tz(Some("  Asia/Tokyo\n"), None), "Asia/Tokyo");
    assert_eq!(tz(Some("Nowhere"), Some("Asia/Tokyo")), "UTC");
}

fn server_data(host: &str, ssl: bool) -> JobworkerpServerData {
    JobworkerpServerData {
        name: "s".to_string(),
        host: host.to_string(),
        port: "50051".to_string(),
        ssl_enabled: ssl,
        description: None,
        enabled: true,
        created_at: 0,
        updated_at: 0,
    }
}

fn cron(enabled: bool, server: Option<i64>) -> CronScheduler {
    CronScheduler {
        id: Some(CronSchedulerId { value: 4 }),
        data: Some(CronSchedulerData {
            name: "nightly".to_string(),
            jobworkerp_server_id: server.map(|v| JobworkerpServerId { value: v }),
            workflow_url: "wf.yml".to_string(),
            channel: None,
            crontab: "0 0 * * * *".to_string(),
            enabled,
            description: None,
            created_at: 0,
            updated_at: 0,
            args: Some("{}".to_string()),
            execution_target: None,
        }),
    }
}

#[test]
fn cron_job_plan_skips_disabled_and_needs_a_server() {
    let id = CronSchedulerId { value: 4 };
    assert_eq!(plan_cron_job(id, None).unwrap_err().kind, PlanErrorKind::SchedulerNotFound);
    assert_eq!(plan_cron_job(id, None).unwrap_err().message(), "CronScheduler id=4 not found");
    assert!(plan_cron_job(id, Some(&cron(false, Some(1)))).ok().unwrap().is_none());
    assert_eq!(plan_cron_job(id, Some(&cron(true, None))).unwrap_err().kind, PlanErrorKind::SchedulerServerIdMissing);
    let plan = plan_cron_job(id, Some(&cron(true, Some(1)))).ok().unwrap().unwrap();
    assert_eq!((plan.scheduler_id, plan.jobworkerp_server_id, plan.cron_expr.as_str()), (4, 1, "0 0 * * * *"));
    let pending = cron_pending_ref(&plan, 1234);
    assert_eq!(pending.source_type, ExecutionSourceType::CronScheduler as i32);
    assert_eq!((pending.source_id, pending.triggered_at, pending.created_at), (4, 1234, 1234));
    assert_eq!(pending.jobworkerp_server_id.map(|s| s.value), Some(1));

    let srv = JobworkerpServer { id: Some(JobworkerpServerId { value: 1 }), data: Some(server_data("h", true)) };
    assert_eq!(server_endpoint_of(JobworkerpServerId { value: 1 }, Some(&srv)).ok().unwrap(), "https://h:50051");
    assert_eq!(
        server_endpoint_of(JobworkerpServerId { value: 9 }, None).unwrap_err().message(),
        "JobworkerpServer with id 9 not found"
    );
}

fn handler_data(target: Option<ExecutionTarget>) -> WorkerResultHandlerData {
    WorkerResultHandlerData {
        name: "test_listener".to_string(),
        listen_jobworkerp_server_id: Some(JobworkerpServerId { value: 1 }),
        listen_worker_name: "test_worker".to_string(),
        process_jobworkerp_server_id: Some(JobworkerpServerId { value: 2 }),
        workflow_url: "file://test_workflow.yaml".to_string(),
        channel: Some("test_channel".to_string()),
        enabled: true,
        description: None,
        created_at: 0,
        updated_at: 0,
        args: Some(r#"{"test": "listener_args"}"#.to_string()),
        execution_target: target,
    }
}

#[test]
fn listener_plan_builds_endpoints_and_target() {
    let id = WorkerResultHandlerId { value: 100 };
    let listen = JobworkerpServer { id: Some(JobworkerpServerId { value: 1 }), data: Some(server_data("localhost", false)) };
    let process = JobworkerpServer { id: Some(JobworkerpServerId { value: 2 }), data: Some(server_data("proc", true)) };
    let s = plan_listener(id, &handler_data(None), Some(&listen), Some(&process)).ok().unwrap();
    assert_eq!(s.handler_id, Some(100));
    assert_eq!(s.listen_jobworkerp, "http://localhost:50051");
    assert_eq!(s.process_jobworkerp, "https://proc:50051");
    assert_eq!(s.workflow_url, "file://test_workflow.yaml");
    assert_eq!(s.channel.as_deref(), Some("test_channel"));
    assert_eq!(s.process_jobworkerp_server_id, Some(2));

    let worker = Some(ExecutionTarget::Worker(WorkerExecution { worker_name: "w".to_string(), using: Some(String::new()) }));
    let s = plan_listener(id, &handler_data(worker), Some(&listen), Some(&process)).ok().unwrap();
    assert_eq!((s.workflow_url.as_str(), s.channel.clone(), s.worker_name.as_deref(), s.using.clone()), ("", None, Some("w"), None));

    let e = plan_listener(id, &handler_data(None), None, Some(&process)).unwrap_err();
    assert_eq!(e.kind, PlanErrorKind::ListenServerNotFound);
    assert_eq!(e.message(), "Listen JobworkerpServer not found in local config: 1");

    let h = WorkerResultHandler { id: Some(id), data: Some(handler_data(None)) };
    assert_eq!(listener_to_start(id, Some(&h)).ok().unwrap().as_deref(), Some("test_listener"));
    assert_eq!(listener_to_start(id, None).unwrap_err().message(), "WorkerResultHandler id=100 not found");
}
