use jobworkerp_conductor::errors::UiEventHandlerError;
use jobworkerp_conductor::execution_status::DeleteResult;
use jobworkerp_conductor::model::{ExecutionRef, ExecutionRefId, ExecutionSourceType, ResolvedExecutionStatus, ResultStatus};
use jobworkerp_conductor::status_run::{
    begin_source_delete, source_delete_step, CancelAction, CancelEvent, CancelRun, CancelStage, DeleteAction, DeleteEvent,
    DeleteRun, DeleteStage, SourceDeleteAction, SourceDeleteEvent, SourceDeleteStage,
};

fn delete_answer(action: DeleteAction) -> DeleteResult {
    match action {
        DeleteAction::Finish(Ok(r)) => r,
        _ => panic!("expected an answer"),
    }
}

#[test]
fn single_delete_of_a_missing_or_active_record_touches_nothing() {
    let id = ExecutionRefId { value: 424242 };
    let (run, action) = DeleteRun::begin(id);
    assert!(matches!(action, DeleteAction::ReadStatus(i) if i == id));
    let (run, action) = run.step(DeleteEvent::StatusRead(Ok(None)));
    assert_eq!(run.stage, DeleteStage::Finished);
    assert_eq!(delete_answer(action), DeleteResult::NotFound);
    let (run, _) = DeleteRun::begin(id);
    let (_, action) = run.step(DeleteEvent::StatusRead(Ok(Some(ResolvedExecutionStatus::Running as i32))));
    assert_eq!(delete_answer(action), DeleteResult::NotTerminal);
}

#[test]
fn single_delete_of_a_terminal_record_removes_its_row() {
    let id = ExecutionRefId { value: 3 };
    let (run, _) = DeleteRun::begin(id);
    let (run, action) = run.step(DeleteEvent::StatusRead(Ok(Some(ResolvedExecutionStatus::Succeeded as i32))));
    assert_eq!(run.stage, DeleteStage::Removing);
    assert!(matches!(action, DeleteAction::RemoveRow(i) if i == id));
    let (_, action) = run.step(DeleteEvent::Removed(Ok(true)));
    assert_eq!(delete_answer(action), DeleteResult::Deleted);
    let (run, _) = DeleteRun::begin(id);
    let (run, _) = run.step(DeleteEvent::StatusRead(Ok(Some(ResolvedExecutionStatus::Failed as i32))));
    let (_, action) = run.step(DeleteEvent::Removed(Ok(false)));
    assert_eq!(delete_answer(action), DeleteResult::NotFound);
}

#[test]
fn single_delete_passes_a_database_error_on() {
    let (run, _) = DeleteRun::begin(ExecutionRefId { value: 3 });
    let (_, action) = run.step(DeleteEvent::StatusRead(Err(UiEventHandlerError::OtherError("db".to_string()))));
    assert!(matches!(action, DeleteAction::Finish(Err(UiEventHandlerError::OtherError(m))) if m == "db"));
}

#[test]
fn delete_by_source_with_force_deletes_everything() {
    let (stage, action) = begin_source_delete(ExecutionSourceType::CronScheduler, 8, true);
    assert_eq!(stage, SourceDeleteStage::DeletingAll);
    assert!(matches!(action, SourceDeleteAction::DeleteAll(ExecutionSourceType::CronScheduler, 8)));
    let (stage, action) = source_delete_step(stage, SourceDeleteEvent::Deleted(Ok(3)));
    assert_eq!(stage, SourceDeleteStage::Finished);
    assert!(matches!(action, SourceDeleteAction::Finish(Ok(3))));
}

#[test]
fn delete_by_source_without_force_deletes_the_terminal_records() {
    let (stage, action) = begin_source_delete(ExecutionSourceType::CronScheduler, 8, false);
    assert_eq!(stage, SourceDeleteStage::Listing);
    assert!(matches!(action, SourceDeleteAction::ListRecords(ExecutionSourceType::CronScheduler, 8)));
    let listed: Vec<ExecutionRef> = vec![];
    let (stage, action) = source_delete_step(stage, SourceDeleteEvent::Listed(Ok(listed)));
    assert_eq!(stage, SourceDeleteStage::Resolving);
    assert!(matches!(action, SourceDeleteAction::ResolveStatuses(v) if v.is_empty()));
    let resolved = vec![
        (Some(ExecutionRefId { value: 1 }), ResolvedExecutionStatus::Succeeded as i32),
        (Some(ExecutionRefId { value: 2 }), ResolvedExecutionStatus::Failed as i32),
        (Some(ExecutionRefId { value: 3 }), ResolvedExecutionStatus::Unavailable as i32),
    ];
    let (stage, action) = source_delete_step(stage, SourceDeleteEvent::Resolved(resolved));
    assert_eq!(stage, SourceDeleteStage::DeletingIds);
    match action {
        SourceDeleteAction::DeleteIds(ids) => assert_eq!(ids, vec![1, 2]),
        _ => panic!("expected the terminal ids to be deleted"),
    }
    let (_, action) = source_delete_step(stage, SourceDeleteEvent::Deleted(Ok(2)));
    assert!(matches!(action, SourceDeleteAction::Finish(Ok(2))));
}

fn record(job_id: Option<i64>) -> ExecutionRef {
    ExecutionRef {
        id: Some(ExecutionRefId { value: 4 }),
        source_type: ExecutionSourceType::CronScheduler as i32,
        source_id: 5,
        source_name: "daily".to_string(),
        jobworkerp_server_id: None,
        job_id,
        triggered_at: 1,
        trigger_context_json: None,
        enqueue_error: None,
        created_at: 1,
        result_status: None,
    }
}

#[test]
fn cancel_records_the_cancelled_status_after_success() {
    let id = ExecutionRefId { value: 4 };
    let (run, action) = CancelRun::begin(id);
    assert!(matches!(action, CancelAction::ReadRecord(i) if i == id));
    let (run, action) = run.step(CancelEvent::RecordRead(Ok(Some(record(Some(77))))));
    assert_eq!(run.stage, CancelStage::Cancelling);
    assert!(matches!(action, CancelAction::CancelJob(er, 77) if er.job_id == Some(77)));
    let (run, action) = run.step(CancelEvent::Cancelled(Ok(true)));
    assert_eq!(run.stage, CancelStage::RecordingResult);
    assert!(matches!(action, CancelAction::RecordResult(i, 77, s) if i == id && s == ResultStatus::Cancelled as i32));
    let (run, action) = run.step(CancelEvent::ResultRecorded);
    assert_eq!(run.stage, CancelStage::Finished);
    assert!(matches!(action, CancelAction::Finish(Ok(true))));
}

#[test]
fn cancel_that_jobworkerp_refuses_records_nothing() {
    let (run, _) = CancelRun::begin(ExecutionRefId { value: 4 });
    let (run, _) = run.step(CancelEvent::RecordRead(Ok(Some(record(Some(77))))));
    let (run, action) = run.step(CancelEvent::Cancelled(Ok(false)));
    assert_eq!(run.stage, CancelStage::Finished);
    assert!(matches!(action, CancelAction::Finish(Ok(false))));
}

#[test]
fn cancel_needs_a_record_with_a_job_id() {
    let (run, _) = CancelRun::begin(ExecutionRefId { value: 4 });
    let (_, action) = run.step(CancelEvent::RecordRead(Ok(None)));
    assert!(matches!(action, CancelAction::Finish(Err(UiEventHandlerError::OtherError(m))) if m == "execution_ref not found"));
    let (run, _) = CancelRun::begin(ExecutionRefId { value: 4 });
    let (_, action) = run.step(CancelEvent::RecordRead(Ok(Some(record(None)))));
    assert!(matches!(action, CancelAction::Finish(Err(UiEventHandlerError::OtherError(m))) if m == "execution_ref.job_id is missing"));
}
