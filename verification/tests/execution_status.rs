use jobworkerp_conductor::execution_status::{
    cancel_job_id, cancel_result_status, check_trigger_source, infer_status_without_result, is_terminal,
    map_processing_status, map_result_status, re_execute_error, re_execute_source, resolve_jobidless_status,
    resolve_status, resolve_status_without_stored_result, server_endpoint, terminal_ids, trigger_args,
    StatusProbe, delete_step, delete_result_after_remove, DeleteResult, DeleteStep,
};
use jobworkerp_conductor::errors::UiEventHandlerError;
use jobworkerp_conductor::model::{
    ExecutionRef, ExecutionRefId, ExecutionSourceType, ExecutionStatusSource, JobProcessingStatus,
    JobworkerpServerData, JobworkerpServerId, ResolvedExecutionStatus, ResultStatus,
};

#[test]
fn jobidless_no_record_is_running() {
    let (status, _) = resolve_jobidless_status(None, None);
    assert_eq!(status, ResolvedExecutionStatus::Running as i32);
}

#[test]
fn jobidless_with_enqueue_error_is_enqueue_failed() {
    let (status, _) = resolve_jobidless_status(Some("connection refused"), None);
    assert_eq!(status, ResolvedExecutionStatus::EnqueueFailed as i32);
    let (status, _) = resolve_jobidless_status(Some("boom"), Some(ResultStatus::Success as i32));
    assert_eq!(status, ResolvedExecutionStatus::EnqueueFailed as i32);
}

#[test]
fn jobidless_with_result_status_uses_that_terminal_status() {
    let (status, _) = resolve_jobidless_status(None, Some(ResultStatus::Cancelled as i32));
    assert_eq!(status, ResolvedExecutionStatus::Cancelled as i32);
    let (status, _) = resolve_jobidless_status(None, Some(ResultStatus::FatalError as i32));
    assert_eq!(status, ResolvedExecutionStatus::Failed as i32);
}

#[test]
fn is_terminal_allows_only_terminal_statuses() {
    for s in [
        ResolvedExecutionStatus::Succeeded,
        ResolvedExecutionStatus::Failed,
        ResolvedExecutionStatus::Cancelled,
        ResolvedExecutionStatus::EnqueueFailed,
    ] {
        assert!(is_terminal(s), "{s:?} should be terminal");
    }
    for s in [
        ResolvedExecutionStatus::Unspecified,
        ResolvedExecutionStatus::Pending,
        ResolvedExecutionStatus::Running,
        ResolvedExecutionStatus::WaitResult,
        ResolvedExecutionStatus::Cancelling,
        ResolvedExecutionStatus::Unknown,
        ResolvedExecutionStatus::Unavailable,
    ] {
        assert!(!is_terminal(s), "{s:?} should be protected");
    }
}

#[test]
fn maps_processing_status_to_resolved_status() {
    assert_eq!(map_processing_status(JobProcessingStatus::Pending as i32), ResolvedExecutionStatus::Pending as i32);
    assert_eq!(map_processing_status(JobProcessingStatus::Running as i32), ResolvedExecutionStatus::Running as i32);
    assert_eq!(
        map_processing_status(JobProcessingStatus::Cancelling as i32),
        ResolvedExecutionStatus::Cancelling as i32
    );
}

#[test]
fn maps_result_status_to_terminal_status() {
    assert_eq!(map_result_status(ResultStatus::Success), ResolvedExecutionStatus::Succeeded as i32);
    assert_eq!(map_result_status(ResultStatus::Cancelled), ResolvedExecutionStatus::Cancelled as i32);
    assert_eq!(map_result_status(ResultStatus::FatalError), ResolvedExecutionStatus::Failed as i32);
}

#[test]
fn infers_succeeded_when_no_processing_status_or_result() {
    assert_eq!(infer_status_without_result(), ResolvedExecutionStatus::Succeeded as i32);
}

#[test]
fn no_stored_result_uses_recorded_failed_status() {
    let (status, _) = resolve_status_without_stored_result(Some(ResultStatus::FatalError as i32));
    assert_eq!(status, ResolvedExecutionStatus::Failed as i32);
}

#[test]
fn no_stored_result_uses_recorded_cancelled_status() {
    let (status, _) = resolve_status_without_stored_result(Some(ResultStatus::Cancelled as i32));
    assert_eq!(status, ResolvedExecutionStatus::Cancelled as i32);
}

#[test]
fn no_stored_result_uses_recorded_success_status() {
    let (status, _) = resolve_status_without_stored_result(Some(ResultStatus::Success as i32));
    assert_eq!(status, ResolvedExecutionStatus::Succeeded as i32);
}

#[test]
fn no_stored_result_falls_back_to_inference_for_legacy_ref() {
    let (status, _) = resolve_status_without_stored_result(None);
    assert_eq!(status, ResolvedExecutionStatus::Succeeded as i32);
}

#[test]
fn recorded_cancel_value_resolves_to_cancelled() {
    let recorded = ResultStatus::Cancelled as i32;
    let (status, _) = resolve_status_without_stored_result(Some(recorded));
    assert_eq!(status, ResolvedExecutionStatus::Cancelled as i32);
}

fn record(job_id: Option<i64>, enqueue_error: Option<&str>, result_status: Option<i32>) -> ExecutionRef {
    ExecutionRef {
        id: Some(ExecutionRefId { value: 11 }),
        source_type: ExecutionSourceType::CronScheduler as i32,
        source_id: 5,
        source_name: "nightly".to_string(),
        jobworkerp_server_id: Some(JobworkerpServerId { value: 2 }),
        job_id,
        triggered_at: 100,
        trigger_context_json: None,
        enqueue_error: enqueue_error.map(|s| s.to_string()),
        created_at: 100,
        result_status,
    }
}

#[test]
fn resolve_status_uses_probe_only_with_a_job_id() {
    let s = resolve_status(record(None, None, None), StatusProbe::Processing(JobProcessingStatus::Pending as i32), 7);
    assert_eq!(s.resolved_status, ResolvedExecutionStatus::Running as i32);
    assert_eq!(s.status_source, ExecutionStatusSource::ExecutionRef as i32);
    assert_eq!(s.observed_at, 7);

    let s = resolve_status(record(Some(9), None, None), StatusProbe::Processing(JobProcessingStatus::Running as i32), 7);
    assert_eq!(s.resolved_status, ResolvedExecutionStatus::Running as i32);
    assert_eq!(s.status_source, ExecutionStatusSource::JobProcessingStatus as i32);
    assert!(s.detail.is_none());

    let s = resolve_status(record(Some(9), None, None), StatusProbe::StoredResult(Some(ResultStatus::FatalError as i32)), 7);
    assert_eq!(s.resolved_status, ResolvedExecutionStatus::Failed as i32);
    assert_eq!(s.status_source, ExecutionStatusSource::JobResult as i32);

    let s = resolve_status(record(Some(9), None, Some(ResultStatus::Cancelled as i32)), StatusProbe::NoStoredResult, 7);
    assert_eq!(s.resolved_status, ResolvedExecutionStatus::Cancelled as i32);

    let s = resolve_status(record(Some(9), None, None), StatusProbe::Unavailable("down".to_string()), 7);
    assert_eq!(s.resolved_status, ResolvedExecutionStatus::Unavailable as i32);
    assert_eq!(s.status_source, ExecutionStatusSource::Unavailable as i32);
    assert_eq!(s.detail.as_deref(), Some("down"));
}

#[test]
fn delete_by_source_keeps_only_terminal_ids() {
    let resolved = vec![
        (Some(ExecutionRefId { value: 1 }), ResolvedExecutionStatus::Succeeded as i32),
        (Some(ExecutionRefId { value: 2 }), ResolvedExecutionStatus::Running as i32),
        (None, ResolvedExecutionStatus::Failed as i32),
        (Some(ExecutionRefId { value: 4 }), ResolvedExecutionStatus::EnqueueFailed as i32),
        (Some(ExecutionRefId { value: 5 }), 99),
    ];
    assert_eq!(terminal_ids(&resolved), vec![1, 4]);
}

#[test]
fn server_endpoint_uses_scheme_by_tls() {
    let mut d = JobworkerpServerData {
        name: "s".to_string(),
        host: "localhost".to_string(),
        port: "9000".to_string(),
        ssl_enabled: false,
        description: None,
        enabled: true,
        created_at: 0,
        updated_at: 0,
    };
    assert_eq!(server_endpoint(&d), "http://localhost:9000");
    d.ssl_enabled = true;
    assert_eq!(server_endpoint(&d), "https://localhost:9000");
}

#[test]
fn trigger_and_re_execute_sources() {
    assert!(check_trigger_source(ExecutionSourceType::CronScheduler).is_ok());
    match check_trigger_source(ExecutionSourceType::SlackEventHandler) {
        Err(UiEventHandlerError::Unimplemented(m)) => {
            assert_eq!(m, "manual trigger is only supported for CRON_SCHEDULER, got SlackEventHandler")
        }
        _ => panic!("expected unimplemented"),
    }
    assert_eq!(re_execute_source(ExecutionSourceType::CronScheduler as i32).ok(), Some(ExecutionSourceType::CronScheduler));
    assert!(re_execute_source(42).is_err());
    match re_execute_error(UiEventHandlerError::NotFound("cron scheduler not found: id=3".to_string())) {
        UiEventHandlerError::FailedPrecondition(m) => {
            assert_eq!(m, "source config for the original execution_ref is gone: cron scheduler not found: id=3")
        }
        _ => panic!("expected failed precondition"),
    }
    assert_eq!(trigger_args(Some("{}".to_string()), Some("{\"a\":1}".to_string())), Some("{}".to_string()));
    assert_eq!(trigger_args(None, Some("{\"a\":1}".to_string())), Some("{\"a\":1}".to_string()));
}

#[test]
fn cancel_records_cancelled_and_needs_a_job_id() {
    assert_eq!(cancel_result_status(true), Some(ResultStatus::Cancelled as i32));
    assert_eq!(cancel_result_status(false), None);
    assert!(matches!(cancel_job_id(&None), Err(UiEventHandlerError::OtherError(_))));
    assert_eq!(cancel_job_id(&Some(record(Some(77), None, None))).ok(), Some(77));
    assert!(cancel_job_id(&Some(record(None, None, None))).is_err());
}

fn delete_one(table: &mut std::collections::HashMap<i64, i32>, id: i64) -> DeleteResult {
    match delete_step(table.get(&id).copied()) {
        DeleteStep::Finish(r) => r,
        DeleteStep::RemoveRow => delete_result_after_remove(table.remove(&id).is_some()),
    }
}

#[test]
fn delete_one_removes_only_a_terminal_record() {
    let mut table = std::collections::HashMap::new();
    table.insert(1, ResolvedExecutionStatus::Succeeded as i32);
    table.insert(2, ResolvedExecutionStatus::Running as i32);
    let before = table.clone();
    assert_eq!(delete_one(&mut table, 424242), DeleteResult::NotFound);
    assert_eq!(table, before);
    assert_eq!(delete_one(&mut table, 2), DeleteResult::NotTerminal);
    assert_eq!(table, before);
    assert_eq!(delete_one(&mut table, 1), DeleteResult::Deleted);
    assert_eq!(table.len(), 1);
    assert!(table.contains_key(&2));
    assert_eq!(delete_result_after_remove(false), DeleteResult::NotFound);
}

#[test]
fn delete_by_source_removes_exactly_the_terminal_records() {
    let mut table = std::collections::HashMap::new();
    for (id, status) in [(1, ResolvedExecutionStatus::Succeeded), (2, ResolvedExecutionStatus::Failed),
        (3, ResolvedExecutionStatus::Running), (4, ResolvedExecutionStatus::Unknown), (9, ResolvedExecutionStatus::Succeeded)] {
        table.insert(id, status as i32);
    }
    let refs: Vec<(Option<ExecutionRefId>, i32)> = [1, 2, 3, 4]
        .iter()
        .map(|id| (Some(ExecutionRefId { value: *id }), table[id]))
        .collect();
    let ids = terminal_ids(&refs);
    assert_eq!(ids, vec![1, 2]);
    let removed = ids.iter().filter(|id| table.remove(id).is_some()).count();
    assert_eq!(removed, 2);
    let mut left: Vec<i64> = table.keys().copied().collect();
    left.sort();
    assert_eq!(left, vec![3, 4, 9]);
}
