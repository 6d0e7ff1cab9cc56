use jobworkerp_conductor::errors::UiEventHandlerError;
use jobworkerp_conductor::execution_status::TriggerOutcome;
use jobworkerp_conductor::model::{
    ExecutionRef, ExecutionRefId, ExecutionSourceType, ExecutionStatusSource, JobworkerpServerId,
    ResolvedExecutionStatus,
};
use jobworkerp_conductor::source_resolver::CronSource;
use jobworkerp_conductor::trigger_run::{Handover, TriggerAction, TriggerEvent, TriggerRun, TriggerStage};

fn cron_source(configured_args: Option<&str>) -> CronSource {
    CronSource {
        configured_args: configured_args.map(|a| a.to_string()),
        source_name: "daily".to_string(),
        jobworkerp_server_id: JobworkerpServerId { value: 2 },
    }
}

fn finished(action: TriggerAction) -> Result<TriggerOutcome, UiEventHandlerError> {
    match action {
        TriggerAction::Finish(r) => r,
        _ => panic!("the trigger did not finish"),
    }
}

fn enqueued(args_json: Option<&str>, configured: Option<&str>) -> (TriggerRun, ExecutionRefId, Option<String>) {
    let (run, action) = TriggerRun::begin(ExecutionSourceType::CronScheduler, 5, args_json.map(|a| a.to_string()));
    assert!(matches!(action, TriggerAction::ResolveSource(ExecutionSourceType::CronScheduler, 5)));
    let (run, action) = run.step(TriggerEvent::SourceResolved(Ok(cron_source(configured))), 100);
    assert_eq!(run.stage, TriggerStage::CreatingRecord);
    match action {
        TriggerAction::CreateRecord(er) => {
            assert_eq!(er.id, None);
            assert_eq!(er.source_type, ExecutionSourceType::CronScheduler as i32);
            assert_eq!(er.source_id, 5);
            assert_eq!(er.source_name, "daily");
            assert_eq!(er.jobworkerp_server_id, Some(JobworkerpServerId { value: 2 }));
            assert_eq!(er.triggered_at, 100);
            assert_eq!(er.created_at, 100);
            assert_eq!(er.job_id, None);
        },
        _ => panic!("expected the pending record to be created"),
    }
    let id = ExecutionRefId { value: 9 };
    let (run, action) = run.step(TriggerEvent::RecordCreated(Ok(id)), 100);
    assert_eq!(run.stage, TriggerStage::Enqueueing);
    match action {
        TriggerAction::Enqueue(i, args) => {
            assert_eq!(i, id);
            (run, id, args)
        },
        _ => panic!("expected the job to be handed over"),
    }
}

#[test]
fn trigger_of_a_non_cron_source_is_unimplemented() {
    let (run, action) = TriggerRun::begin(ExecutionSourceType::WorkerResultHandler, 1, None);
    assert_eq!(run.stage, TriggerStage::Finished);
    match finished(action) {
        Err(UiEventHandlerError::Unimplemented(m)) => {
            assert_eq!(m, "manual trigger is only supported for CRON_SCHEDULER, got WorkerResultHandler")
        },
        _ => panic!("expected unimplemented"),
    }
}

#[test]
fn given_args_replace_the_configured_ones() {
    let (_, _, args) = enqueued(Some("{\"a\":1}"), Some("{}"));
    assert_eq!(args, Some("{\"a\":1}".to_string()));
    let (_, _, args) = enqueued(None, Some("{}"));
    assert_eq!(args, Some("{}".to_string()));
    let (_, _, args) = enqueued(None, None);
    assert_eq!(args, None);
}

#[test]
fn trigger_with_a_job_id_reports_the_live_status_or_running() {
    let (run, id, _) = enqueued(None, None);
    let (run, action) = run.step(TriggerEvent::HandedOver(Handover::JobId), 150);
    assert_eq!(run.stage, TriggerStage::ReadingStatus);
    assert!(matches!(action, TriggerAction::ReadStatus(i) if i == id));
    let (run, action) = run.step(TriggerEvent::StatusRead(Ok(None)), 200);
    assert_eq!(run.stage, TriggerStage::Finished);
    let outcome = finished(action).ok().unwrap();
    assert_eq!(outcome.execution_ref_id, Some(id));
    assert_eq!(outcome.status.resolved_status, ResolvedExecutionStatus::Running as i32);
    assert_eq!(outcome.status.status_source, ExecutionStatusSource::ExecutionRef as i32);
    assert_eq!(outcome.status.observed_at, 200);
    assert_eq!(outcome.status.detail, None);
}

#[test]
fn trigger_with_a_pending_job_id_is_running_and_not_cancellable() {
    let (run, id, _) = enqueued(None, None);
    let (run, action) = run.step(TriggerEvent::HandedOver(Handover::JobIdPending), 300);
    assert_eq!(run.stage, TriggerStage::Finished);
    let outcome = finished(action).ok().unwrap();
    assert_eq!(outcome.execution_ref_id, Some(id));
    assert_eq!(outcome.status.resolved_status, ResolvedExecutionStatus::Running as i32);
    assert_eq!(outcome.status.detail, Some("job_id pending; not cancellable until assigned".to_string()));
    assert_eq!(outcome.status.observed_at, 300);
}

#[test]
fn trigger_whose_enqueue_failed_reports_enqueue_failed() {
    let (run, id, _) = enqueued(None, None);
    let (run, action) = run.step(TriggerEvent::HandedOver(Handover::Failed), 300);
    assert_eq!(run.stage, TriggerStage::ReadingRecord);
    assert!(matches!(action, TriggerAction::ReadRecord(i) if i == id));
    let (_, action) = run.step(TriggerEvent::RecordRead(None), 400);
    let outcome = finished(action).ok().unwrap();
    assert_eq!(outcome.status.resolved_status, ResolvedExecutionStatus::EnqueueFailed as i32);
    assert_eq!(outcome.status.detail, Some("enqueue failed before job_id was assigned".to_string()));
    assert_eq!(outcome.status.observed_at, 400);
}

#[test]
fn trigger_stops_when_the_pending_record_cannot_be_created() {
    let (run, _) = TriggerRun::begin(ExecutionSourceType::CronScheduler, 5, None);
    let (run, _) = run.step(TriggerEvent::SourceResolved(Ok(cron_source(None))), 100);
    let (run, action) = run.step(TriggerEvent::RecordCreated(Err("db down".to_string())), 100);
    assert_eq!(run.stage, TriggerStage::Finished);
    match finished(action) {
        Err(UiEventHandlerError::OtherError(m)) => {
            assert_eq!(m, "failed to create pending execution_ref before enqueue: db down")
        },
        _ => panic!("expected an internal error"),
    }
}

#[test]
fn trigger_passes_a_missing_source_on() {
    let (run, _) = TriggerRun::begin(ExecutionSourceType::CronScheduler, 5, None);
    let (_, action) = run.step(
        TriggerEvent::SourceResolved(Err(UiEventHandlerError::NotFound("cron scheduler not found: id=5".to_string()))),
        100,
    );
    match finished(action) {
        Err(UiEventHandlerError::NotFound(m)) => assert_eq!(m, "cron scheduler not found: id=5"),
        _ => panic!("expected not found"),
    }
}

fn original(source_type: ExecutionSourceType) -> ExecutionRef {
    ExecutionRef {
        id: Some(ExecutionRefId { value: 3 }),
        source_type: source_type as i32,
        source_id: 5,
        source_name: "daily".to_string(),
        jobworkerp_server_id: Some(JobworkerpServerId { value: 2 }),
        job_id: Some(77),
        triggered_at: 1,
        trigger_context_json: None,
        enqueue_error: None,
        created_at: 1,
        result_status: None,
    }
}

#[test]
fn re_execution_needs_an_existing_cron_record() {
    let (_, action) = TriggerRun::begin_re_execution(ExecutionRefId { value: 3 }, None);
    match finished(action) {
        Err(UiEventHandlerError::NotFound(m)) => assert_eq!(m, "execution_ref not found: id=3"),
        _ => panic!("expected not found"),
    }
    let (_, action) = TriggerRun::begin_re_execution(
        ExecutionRefId { value: 3 },
        Some(original(ExecutionSourceType::WorkerResultHandler)),
    );
    match finished(action) {
        Err(UiEventHandlerError::Unimplemented(m)) => {
            assert_eq!(m, "re-execute is only supported for CRON_SCHEDULER, got WorkerResultHandler")
        },
        _ => panic!("expected unimplemented"),
    }
}

#[test]
fn re_execution_of_a_gone_source_is_a_failed_precondition() {
    let (run, action) =
        TriggerRun::begin_re_execution(ExecutionRefId { value: 3 }, Some(original(ExecutionSourceType::CronScheduler)));
    assert!(matches!(action, TriggerAction::ResolveSource(ExecutionSourceType::CronScheduler, 5)));
    assert!(run.re_execution);
    assert_eq!(run.args, None);
    let (_, action) = run.step(
        TriggerEvent::SourceResolved(Err(UiEventHandlerError::NotFound("cron scheduler not found: id=5".to_string()))),
        100,
    );
    match finished(action) {
        Err(UiEventHandlerError::FailedPrecondition(m)) => {
            assert_eq!(m, "source config for the original execution_ref is gone: cron scheduler not found: id=5")
        },
        _ => panic!("expected a failed precondition"),
    }
}

#[test]
fn re_execution_runs_with_the_configured_args() {
    let (run, _) =
        TriggerRun::begin_re_execution(ExecutionRefId { value: 3 }, Some(original(ExecutionSourceType::CronScheduler)));
    let (run, _) = run.step(TriggerEvent::SourceResolved(Ok(cron_source(Some("{\"b\":2}")))), 100);
    let (_, action) = run.step(TriggerEvent::RecordCreated(Ok(ExecutionRefId { value: 10 })), 100);
    match action {
        TriggerAction::Enqueue(_, args) => assert_eq!(args, Some("{\"b\":2}".to_string())),
        _ => panic!("expected the job to be handed over"),
    }
}
