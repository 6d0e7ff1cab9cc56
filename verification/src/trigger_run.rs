//! The course of a manual trigger or re-execution: resolve the source, record the pending
//! execution, hand the job over, then read back what the answer needs. Each step decides the
//! next action from the answer to the last one; the caller carries the actions out.
use vstd::prelude::*;
use crate::errors::UiEventHandlerError;
use crate::execution_status::{
    check_trigger_source, re_execute_error, re_execute_source, spec_source_type_name, spec_trigger_outcome,
    trigger_args, trigger_outcome, trigger_pending_ref, EnqueueOutcome, TriggerOutcome,
};
use crate::model::{ExecutionRef, ExecutionRefId, ExecutionRuntimeStatus, ExecutionSourceType};
use crate::source_resolver::CronSource;
use crate::text::{i64_to_string, spec_decimal_int};

verus! {

/// The action a trigger waits on.
#[derive(Clone, Copy, Debug, PartialEq, Eq, Structural)]
pub enum TriggerStage {
    ResolvingSource,
    CreatingRecord,
    Enqueueing,
    ReadingStatus,
    ReadingRecord,
    Finished,
}

/// A trigger under way.
#[derive(Clone, Debug)]
pub struct TriggerRun {
    /// The source that is run.
    pub source_type: ExecutionSourceType,
    pub source_id: i64,
    /// The arguments given with the trigger, which replace the configured ones.
    pub args_json: Option<String>,
    /// The arguments the job runs with: the given ones, else, once the source is resolved, the
    /// configured ones.
    pub args: Option<String>,
    /// Whether the trigger re-runs an existing record.
    pub re_execution: bool,
    /// The pending record, once created.
    pub id: Option<ExecutionRefId>,
    pub stage: TriggerStage,
}

/// How handing the job over went.
#[derive(Clone, Copy, Debug, PartialEq, Eq, Structural)]
pub enum Handover {
    /// The job id is known right away.
    JobId,
    /// The job id is only known when the blocking run resolves.
    JobIdPending,
    /// Enqueueing failed before a job id existed.
    Failed,
}

/// The answer to the last action.
pub enum TriggerEvent {
    /// The source was resolved, or not.
    SourceResolved(Result<CronSource, UiEventHandlerError>),
    /// The pending record was created under this id, or could not be (with the description).
    RecordCreated(Result<ExecutionRefId, String>),
    /// The job was handed over.
    HandedOver(Handover),
    /// The runtime status of the record was looked up.
    StatusRead(Result<Option<ExecutionRuntimeStatus>, UiEventHandlerError>),
    /// The record was read back (`None` also when reading failed).
    RecordRead(Option<ExecutionRef>),
}

/// The next thing to do.
pub enum TriggerAction {
    /// Resolve the source configuration.
    ResolveSource(ExecutionSourceType, i64),
    /// Create this pending record.
    CreateRecord(ExecutionRef),
    /// Hand the job over for the record, with these arguments.
    Enqueue(ExecutionRefId, Option<String>),
    /// Look up the runtime status of the record.
    ReadStatus(ExecutionRefId),
    /// Read the record back.
    ReadRecord(ExecutionRefId),
    /// Answer.
    Finish(Result<TriggerOutcome, UiEventHandlerError>),
}

/// The error a trigger answers with: for a re-execution, a source that is gone is a failed
/// precondition.
pub open spec fn spec_trigger_error(re_execution: bool, e: UiEventHandlerError, r: UiEventHandlerError) -> bool {
    if re_execution {
        match e {
            UiEventHandlerError::NotFound(m) => r matches UiEventHandlerError::FailedPrecondition(m2)
                && m2@ == "source config for the original execution_ref is gone: "@ + m@,
            _ => r == e,
        }
    } else {
        r == e
    }
}

/// Whether a trigger that waits on a hand-over or a read-back has its record.
pub open spec fn spec_run_ok(run: TriggerRun) -> bool {
    (run.stage == TriggerStage::Enqueueing || run.stage == TriggerStage::ReadingStatus
        || run.stage == TriggerStage::ReadingRecord) ==> run.id is Some
}

/// Whether the event answers the action the stage waits on.
pub open spec fn spec_trigger_answers(stage: TriggerStage, event: TriggerEvent) -> bool {
    match event {
        TriggerEvent::SourceResolved(_) => stage == TriggerStage::ResolvingSource,
        TriggerEvent::RecordCreated(_) => stage == TriggerStage::CreatingRecord,
        TriggerEvent::HandedOver(_) => stage == TriggerStage::Enqueueing,
        TriggerEvent::StatusRead(_) => stage == TriggerStage::ReadingStatus,
        TriggerEvent::RecordRead(_) => stage == TriggerStage::ReadingRecord,
    }
}

fn fail(run: TriggerRun, e: UiEventHandlerError) -> (r: (TriggerRun, TriggerAction))
    ensures
        r.0 == (TriggerRun { stage: TriggerStage::Finished, ..run }),
        r.1 matches TriggerAction::Finish(Err(e2)) && spec_trigger_error(run.re_execution, e, e2),
{
    let e2 = if run.re_execution { re_execute_error(e) } else { e };
    (TriggerRun { stage: TriggerStage::Finished, ..run }, TriggerAction::Finish(Err(e2)))
}

impl TriggerRun {
    /// Starts a manual trigger of a source: only a cron scheduler can be triggered; its
    /// configuration is resolved first.
    pub fn begin(source_type: ExecutionSourceType, source_id: i64, args_json: Option<String>) -> (r: (TriggerRun, TriggerAction))
        ensures
            spec_run_ok(r.0),
            r.0.source_type == source_type && r.0.source_id == source_id && r.0.args_json == args_json,
            r.0.args == args_json && !r.0.re_execution && r.0.id is None,
            source_type == ExecutionSourceType::CronScheduler ==> r.0.stage == TriggerStage::ResolvingSource
                && r.1 == TriggerAction::ResolveSource(source_type, source_id),
            source_type != ExecutionSourceType::CronScheduler ==> r.0.stage == TriggerStage::Finished
                && (r.1 matches TriggerAction::Finish(Err(UiEventHandlerError::Unimplemented(m)))
                && m@ == "manual trigger is only supported for CRON_SCHEDULER, got "@ + spec_source_type_name(source_type)),
    {
        let args = args_json.clone();
        let run = TriggerRun { source_type, source_id, args_json, args, re_execution: false, id: None, stage: TriggerStage::ResolvingSource };
        match check_trigger_source(source_type) {
            Ok(()) => (run, TriggerAction::ResolveSource(source_type, source_id)),
            Err(e) => (TriggerRun { stage: TriggerStage::Finished, ..run }, TriggerAction::Finish(Err(e))),
        }
    }

    /// Starts re-running the record looked up under `id` (`None`: no such record) with its
    /// source's current configuration and configured arguments: the record must exist and come
    /// from a cron scheduler.
    pub fn begin_re_execution(id: ExecutionRefId, original: Option<ExecutionRef>) -> (r: (TriggerRun, TriggerAction))
        ensures
            spec_run_ok(r.0),
            r.0.re_execution && r.0.id is None && r.0.args_json is None && r.0.args is None,
            match original {
                None => r.0.stage == TriggerStage::Finished
                    && (r.1 matches TriggerAction::Finish(Err(UiEventHandlerError::NotFound(m)))
                    && m@ == "execution_ref not found: id="@ + spec_decimal_int(id.value as int)),
                Some(o) => match ExecutionSourceType::spec_from_i32(o.source_type) {
                    Some(ExecutionSourceType::CronScheduler) => r.0.stage == TriggerStage::ResolvingSource
                        && r.0.source_type == ExecutionSourceType::CronScheduler && r.0.source_id == o.source_id
                        && r.1 == TriggerAction::ResolveSource(ExecutionSourceType::CronScheduler, o.source_id),
                    _ => r.0.stage == TriggerStage::Finished
                        && (r.1 matches TriggerAction::Finish(Err(UiEventHandlerError::Unimplemented(_)))),
                },
            },
    {
        match original {
            None => {
                let m = String::from_str("execution_ref not found: id=").concat(i64_to_string(id.value).as_str());
                let run = TriggerRun {
                    source_type: ExecutionSourceType::Unspecified,
                    source_id: 0,
                    args_json: None,
                    args: None,
                    re_execution: true,
                    id: None,
                    stage: TriggerStage::Finished,
                };
                (run, TriggerAction::Finish(Err(UiEventHandlerError::NotFound(m))))
            },
            Some(o) => {
                let source_id = o.source_id;
                match re_execute_source(o.source_type) {
                    Ok(t) => {
                        let run = TriggerRun {
                            source_type: t,
                            source_id,
                            args_json: None,
                            args: None,
                            re_execution: true,
                            id: None,
                            stage: TriggerStage::ResolvingSource,
                        };
                        (run, TriggerAction::ResolveSource(t, source_id))
                    },
                    Err(e) => {
                        let run = TriggerRun {
                            source_type: ExecutionSourceType::Unspecified,
                            source_id,
                            args_json: None,
                            args: None,
                            re_execution: true,
                            id: None,
                            stage: TriggerStage::Finished,
                        };
                        (run, TriggerAction::Finish(Err(e)))
                    },
                }
            },
        }
    }

    /// The next step after the answer to the last action, at time `now`.
    pub fn step(self, event: TriggerEvent, now: i64) -> (r: (TriggerRun, TriggerAction))
        requires
            spec_trigger_answers(self.stage, event),
            spec_run_ok(self),
        ensures
            spec_run_ok(r.0),
            r.0.source_type == self.source_type && r.0.source_id == self.source_id,
            r.0.args_json == self.args_json && r.0.re_execution == self.re_execution,
            !(event is SourceResolved) ==> r.0.args == self.args,
            match event {
                TriggerEvent::SourceResolved(Err(e)) => r.0.stage == TriggerStage::Finished
                    && (r.1 matches TriggerAction::Finish(Err(e2)) && spec_trigger_error(self.re_execution, e, e2)),
                TriggerEvent::SourceResolved(Ok(src)) => r.0.stage == TriggerStage::CreatingRecord && r.0.id == self.id
                    && r.0.args == (if self.args_json is Some { self.args_json } else { src.configured_args })
                    && (r.1 matches TriggerAction::CreateRecord(er) && er.id is None
                    && er.source_type == self.source_type.spec_to_i32() && er.source_id == self.source_id
                    && er.source_name == src.source_name && er.jobworkerp_server_id == Some(src.jobworkerp_server_id)
                    && er.job_id is None && er.triggered_at == now && er.created_at == now
                    && er.trigger_context_json is None && er.enqueue_error is None && er.result_status is None),
                TriggerEvent::RecordCreated(Err(m)) => r.0.stage == TriggerStage::Finished
                    && (r.1 matches TriggerAction::Finish(Err(e2))
                        && (e2 matches UiEventHandlerError::OtherError(m2)
                            && m2@ == "failed to create pending execution_ref before enqueue: "@ + m@)),
                TriggerEvent::RecordCreated(Ok(id)) => r.0.stage == TriggerStage::Enqueueing && r.0.id == Some(id)
                    && r.0.args == self.args && r.1 == TriggerAction::Enqueue(id, self.args),
                TriggerEvent::HandedOver(h) => r.0.id == self.id && match h {
                    Handover::JobId => r.0.stage == TriggerStage::ReadingStatus
                        && r.1 == TriggerAction::ReadStatus(self.id->Some_0),
                    Handover::JobIdPending => r.0.stage == TriggerStage::Finished
                        && (r.1 matches TriggerAction::Finish(Ok(o))
                        && spec_trigger_outcome(self.id->Some_0, EnqueueOutcome::JobIdPending, now, o)),
                    Handover::Failed => r.0.stage == TriggerStage::ReadingRecord
                        && r.1 == TriggerAction::ReadRecord(self.id->Some_0),
                },
                TriggerEvent::StatusRead(Err(e)) => r.0.stage == TriggerStage::Finished && r.0.id == self.id
                    && (r.1 matches TriggerAction::Finish(Err(e2)) && spec_trigger_error(self.re_execution, e, e2)),
                TriggerEvent::StatusRead(Ok(s)) => r.0.stage == TriggerStage::Finished && r.0.id == self.id
                    && (r.1 matches TriggerAction::Finish(Ok(o))
                    && spec_trigger_outcome(self.id->Some_0, EnqueueOutcome::Enqueued(s), now, o)),
                TriggerEvent::RecordRead(er) => r.0.stage == TriggerStage::Finished && r.0.id == self.id
                    && (r.1 matches TriggerAction::Finish(Ok(o))
                    && spec_trigger_outcome(self.id->Some_0, EnqueueOutcome::Failed(er), now, o)),
            },
    {
        match event {
            TriggerEvent::SourceResolved(Err(e)) => fail(self, e),
            TriggerEvent::SourceResolved(Ok(src)) => {
                let pending = trigger_pending_ref(self.source_type, self.source_id, src.source_name, src.jobworkerp_server_id, now);
                let args = trigger_args(self.args_json.clone(), src.configured_args);
                (TriggerRun { stage: TriggerStage::CreatingRecord, args, ..self }, TriggerAction::CreateRecord(pending))
            },
            TriggerEvent::RecordCreated(Err(m)) => {
                let e = UiEventHandlerError::OtherError(
                    String::from_str("failed to create pending execution_ref before enqueue: ").concat(m.as_str()),
                );
                fail(self, e)
            },
            TriggerEvent::RecordCreated(Ok(id)) => {
                let args = self.args.clone();
                (TriggerRun { stage: TriggerStage::Enqueueing, id: Some(id), ..self }, TriggerAction::Enqueue(id, args))
            },
            TriggerEvent::HandedOver(h) => {
                let id = self.id.unwrap();
                match h {
                    Handover::JobId => (TriggerRun { stage: TriggerStage::ReadingStatus, ..self }, TriggerAction::ReadStatus(id)),
                    Handover::JobIdPending => {
                        let o = trigger_outcome(id, EnqueueOutcome::JobIdPending, now);
                        (TriggerRun { stage: TriggerStage::Finished, ..self }, TriggerAction::Finish(Ok(o)))
                    },
                    Handover::Failed => (TriggerRun { stage: TriggerStage::ReadingRecord, ..self }, TriggerAction::ReadRecord(id)),
                }
            },
            TriggerEvent::StatusRead(Err(e)) => fail(self, e),
            TriggerEvent::StatusRead(Ok(s)) => {
                let id = self.id.unwrap();
                let o = trigger_outcome(id, EnqueueOutcome::Enqueued(s), now);
                (TriggerRun { stage: TriggerStage::Finished, ..self }, TriggerAction::Finish(Ok(o)))
            },
            TriggerEvent::RecordRead(er) => {
                let id = self.id.unwrap();
                let o = trigger_outcome(id, EnqueueOutcome::Failed(er), now);
                (TriggerRun { stage: TriggerStage::Finished, ..self }, TriggerAction::Finish(Ok(o)))
            },
        }
    }
}

} // verus!
