use jobworkerp_conductor::model::{
    CronSchedulerData, ExecutionTarget, JobworkerpServerId, SlackEventHandlerData, WorkerExecution,
    WorkerResultHandlerData, WorkflowExecution,
};
use jobworkerp_conductor::execution_target::{
    flatten_cron_scheduler_target, flatten_slack_event_handler_target, flatten_worker_result_handler_target,
    target_from_columns,
};

fn worker_data(workflow_url: &str, execution_target: Option<ExecutionTarget>) -> WorkerResultHandlerData {
    WorkerResultHandlerData {
        name: "test".to_string(),
        listen_jobworkerp_server_id: None,
        listen_worker_name: String::new(),
        process_jobworkerp_server_id: None,
        workflow_url: workflow_url.to_string(),
        channel: None,
        enabled: false,
        description: None,
        created_at: 0,
        updated_at: 0,
        args: None,
        execution_target,
    }
}

fn slack_data(workflow_url: &str, execution_target: Option<ExecutionTarget>) -> SlackEventHandlerData {
    SlackEventHandlerData {
        name: "test".to_string(),
        description: String::new(),
        enabled: false,
        slack_channel_id: None,
        message_pattern: None,
        mention_required: false,
        reaction_names: None,
        reaction_operation: 0,
        reaction_user_filter: None,
        jobworkerp_server_id: None,
        workflow_url: workflow_url.to_string(),
        channel: String::new(),
        timeout_sec: None,
        args: None,
        created_at: 0,
        updated_at: 0,
        execution_target,
    }
}

fn cron_data(workflow_url: &str, execution_target: Option<ExecutionTarget>) -> CronSchedulerData {
    CronSchedulerData {
        name: "test".to_string(),
        jobworkerp_server_id: Some(JobworkerpServerId { value: 1 }),
        workflow_url: workflow_url.to_string(),
        channel: None,
        crontab: "0 * * * * *".to_string(),
        enabled: true,
        description: None,
        created_at: 0,
        updated_at: 0,
        args: None,
        execution_target,
    }
}

fn workflow(url: &str) -> Option<ExecutionTarget> {
    Some(ExecutionTarget::Workflow(WorkflowExecution { workflow_url: url.to_string(), channel: None }))
}

#[test]
fn worker_result_handler_test_workflow_execution_ok() {
    let data = worker_data("", workflow("https://example.com/wf.yml"));
    assert!(data.validate_execution_target().is_ok());
}

#[test]
fn worker_result_handler_test_worker_execution_ok() {
    let data = worker_data(
        "",
        Some(ExecutionTarget::Worker(WorkerExecution { worker_name: "my-worker".to_string(), using: Some("run".to_string()) })),
    );
    assert!(data.validate_execution_target().is_ok());
}

#[test]
fn worker_result_handler_test_legacy_fallback_ok() {
    let data = worker_data("https://example.com/wf.yml", None);
    assert!(data.validate_execution_target().is_ok());
}

#[test]
fn worker_result_handler_test_execution_target_with_deprecated_field_ok() {
    let data = worker_data("https://old.example.com/wf.yml", workflow("https://new.example.com/wf.yml"));
    assert!(data.validate_execution_target().is_ok());
}

#[test]
fn worker_result_handler_test_nothing_set_error() {
    let data = worker_data("", None);
    assert!(data.validate_execution_target().is_err());
}

#[test]
fn worker_result_handler_test_workflow_url_empty_error() {
    let data = worker_data("", workflow(""));
    assert!(data.validate_execution_target().is_err());
}

#[test]
fn worker_result_handler_test_worker_name_empty_error() {
    let data = worker_data(
        "",
        Some(ExecutionTarget::Worker(WorkerExecution { worker_name: "".to_string(), using: None })),
    );
    assert!(data.validate_execution_target().is_err());
}

#[test]
fn slack_event_handler_test_workflow_execution_ok() {
    let data = slack_data("", workflow("https://example.com/wf.yml"));
    assert!(data.validate_execution_target().is_ok());
}

#[test]
fn slack_event_handler_test_worker_execution_ok() {
    let data = slack_data(
        "",
        Some(ExecutionTarget::Worker(WorkerExecution { worker_name: "my-worker".to_string(), using: Some("run".to_string()) })),
    );
    assert!(data.validate_execution_target().is_ok());
}

#[test]
fn slack_event_handler_test_legacy_fallback_ok() {
    let data = slack_data("https://example.com/wf.yml", None);
    assert!(data.validate_execution_target().is_ok());
}

#[test]
fn slack_event_handler_test_execution_target_with_deprecated_field_ok() {
    let data = slack_data("https://old.example.com/wf.yml", workflow("https://new.example.com/wf.yml"));
    assert!(data.validate_execution_target().is_ok());
}

#[test]
fn slack_event_handler_test_nothing_set_error() {
    let data = slack_data("", None);
    assert!(data.validate_execution_target().is_err());
}

#[test]
fn slack_event_handler_test_workflow_url_empty_error() {
    let data = slack_data("", workflow(""));
    assert!(data.validate_execution_target().is_err());
}

#[test]
fn slack_event_handler_test_worker_name_empty_error() {
    let data = slack_data(
        "",
        Some(ExecutionTarget::Worker(WorkerExecution { worker_name: "".to_string(), using: None })),
    );
    assert!(data.validate_execution_target().is_err());
}

#[test]
fn validation_messages_name_the_missing_field() {
    assert_eq!(
        cron_data("", None).validate_execution_target(),
        Err("No execution target specified: set execution_target or workflow_url".to_string())
    );
    assert_eq!(
        cron_data("", workflow("")).validate_execution_target(),
        Err("workflow_url in execution_target must not be empty".to_string())
    );
    assert_eq!(
        worker_data("", Some(ExecutionTarget::Worker(WorkerExecution { worker_name: String::new(), using: None })))
            .validate_execution_target(),
        Err("worker_name in execution_target must not be empty".to_string())
    );
}

#[test]
fn worker_target_is_stored_without_workflow_and_read_back() {
    let data = cron_data(
        "https://legacy.example.com/wf.yml",
        Some(ExecutionTarget::Worker(WorkerExecution { worker_name: "w".to_string(), using: Some(String::new()) })),
    );
    let (url, channel, worker, using) = flatten_cron_scheduler_target(&data);
    assert_eq!(url, "");
    assert_eq!(channel, None);
    assert_eq!(worker.as_deref(), Some("w"));
    assert_eq!(using, None);
    match target_from_columns(&url, &channel, &worker, &using) {
        Some(ExecutionTarget::Worker(w)) => {
            assert_eq!(w.worker_name, "w");
            assert_eq!(w.using, None);
        }
        _ => panic!("expected a worker target"),
    }
}

#[test]
fn legacy_fields_are_stored_without_a_target() {
    let mut data = worker_data("https://legacy.example.com/wf.yml", None);
    data.channel = Some("gpu".to_string());
    let (url, channel, worker, using) = flatten_worker_result_handler_target(&data);
    assert_eq!(url, "https://legacy.example.com/wf.yml");
    assert_eq!(channel.as_deref(), Some("gpu"));
    assert!(worker.is_none() && using.is_none());
    match target_from_columns(&url, &channel, &worker, &using) {
        Some(ExecutionTarget::Workflow(wf)) => {
            assert_eq!(wf.workflow_url, "https://legacy.example.com/wf.yml");
            assert_eq!(wf.channel.as_deref(), Some("gpu"));
        }
        _ => panic!("expected a workflow target"),
    }
    assert!(target_from_columns(&String::new(), &None, &None, &None).is_none());
}

#[test]
fn slack_channel_column_is_empty_without_channel() {
    let data = slack_data("", workflow("https://example.com/wf.yml"));
    let (url, channel, worker, using) = flatten_slack_event_handler_target(&data);
    assert_eq!(url, "https://example.com/wf.yml");
    assert_eq!(channel, "");
    assert!(worker.is_none() && using.is_none());
}
