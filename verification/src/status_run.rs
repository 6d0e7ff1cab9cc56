//! The courses of the status API's single delete, delete by source and cancellation. Each
//! step decides the next database or jobworkerp action from the answer to the last one; the
//! caller carries the actions out.
use vstd::prelude::*;
use crate::errors::UiEventHandlerError;
use crate::execution_status::{
    cancel_job_id, cancel_result_status, delete_result_after_remove, delete_step, spec_delete_result_after_remove,
    spec_delete_step, spec_terminal_ids, terminal_ids, DeleteResult, DeleteStep,
};
use crate::model::{ExecutionRef, ExecutionRefId, ExecutionSourceType, ResultStatus};

verus! {

/// The action a single delete waits on.
#[derive(Clone, Copy, Debug, PartialEq, Eq, Structural)]
pub enum DeleteStage {
    ReadingStatus,
    Removing,
    Finished,
}

/// A single delete under way.
#[derive(Clone, Copy, Debug)]
pub struct DeleteRun {
    pub id: ExecutionRefId,
    pub stage: DeleteStage,
}

/// The answer to the last action of a single delete.
pub enum DeleteEvent {
    /// The record's resolved runtime status was looked up (`None`: no such record).
    StatusRead(Result<Option<i32>, UiEventHandlerError>),
    /// The record's row was removed (`false`: no row was there any more).
    Removed(Result<bool, UiEventHandlerError>),
}

/// The next thing a single delete does.
pub enum DeleteAction {
    /// Look up the record's runtime status.
    ReadStatus(ExecutionRefId),
    /// Remove the record's row.
    RemoveRow(ExecutionRefId),
    /// Answer.
    Finish(Result<DeleteResult, UiEventHandlerError>),
}

impl DeleteRun {
    /// Starts deleting the record `id`: its runtime status is looked up first.
    pub fn begin(id: ExecutionRefId) -> (r: (DeleteRun, DeleteAction))
        ensures
            r.0 == (DeleteRun { id, stage: DeleteStage::ReadingStatus }),
            r.1 == DeleteAction::ReadStatus(id),
    {
        (DeleteRun { id, stage: DeleteStage::ReadingStatus }, DeleteAction::ReadStatus(id))
    }

    /// The next step: a missing record is not found and an active one not terminal, without
    /// touching the table; a terminal one has its row removed, and is deleted if a row went.
    pub fn step(self, event: DeleteEvent) -> (r: (DeleteRun, DeleteAction))
        requires
            event is StatusRead ==> self.stage == DeleteStage::ReadingStatus,
            event is Removed ==> self.stage == DeleteStage::Removing,
        ensures
            r.0.id == self.id,
            match event {
                DeleteEvent::StatusRead(Err(e)) | DeleteEvent::Removed(Err(e)) => r.0.stage == DeleteStage::Finished
                    && r.1 == DeleteAction::Finish(Err(e)),
                DeleteEvent::StatusRead(Ok(s)) => match spec_delete_step(s) {
                    DeleteStep::Finish(x) => r.0.stage == DeleteStage::Finished && r.1 == DeleteAction::Finish(Ok(x)),
                    DeleteStep::RemoveRow => r.0.stage == DeleteStage::Removing && r.1 == DeleteAction::RemoveRow(self.id),
                },
                DeleteEvent::Removed(Ok(b)) => r.0.stage == DeleteStage::Finished
                    && r.1 == DeleteAction::Finish(Ok(spec_delete_result_after_remove(b))),
            },
    {
        let id = self.id;
        match event {
            DeleteEvent::StatusRead(Err(e)) => (DeleteRun { id, stage: DeleteStage::Finished }, DeleteAction::Finish(Err(e))),
            DeleteEvent::Removed(Err(e)) => (DeleteRun { id, stage: DeleteStage::Finished }, DeleteAction::Finish(Err(e))),
            DeleteEvent::StatusRead(Ok(s)) => match delete_step(s) {
                DeleteStep::Finish(x) => (DeleteRun { id, stage: DeleteStage::Finished }, DeleteAction::Finish(Ok(x))),
                DeleteStep::RemoveRow => (DeleteRun { id, stage: DeleteStage::Removing }, DeleteAction::RemoveRow(id)),
            },
            DeleteEvent::Removed(Ok(b)) => {
                let x = delete_result_after_remove(b);
                (DeleteRun { id, stage: DeleteStage::Finished }, DeleteAction::Finish(Ok(x)))
            },
        }
    }
}

/// The action a delete by source waits on.
#[derive(Clone, Copy, Debug, PartialEq, Eq, Structural)]
pub enum SourceDeleteStage {
    DeletingAll,
    Listing,
    Resolving,
    DeletingIds,
    Finished,
}

/// The answer to the last action of a delete by source.
pub enum SourceDeleteEvent {
    /// The source's records were listed.
    Listed(Result<Vec<ExecutionRef>, UiEventHandlerError>),
    /// The listed records' ids with their resolved runtime statuses, in list order.
    Resolved(Vec<(Option<ExecutionRefId>, i32)>),
    /// Rows were deleted: how many.
    Deleted(Result<u64, UiEventHandlerError>),
}

/// The next thing a delete by source does.
pub enum SourceDeleteAction {
    /// Delete every record of the source, without resolving any status.
    DeleteAll(ExecutionSourceType, i64),
    /// List the source's records.
    ListRecords(ExecutionSourceType, i64),
    /// Resolve the runtime status of each of these records.
    ResolveStatuses(Vec<ExecutionRef>),
    /// Delete the records with these ids.
    DeleteIds(Vec<i64>),
    /// Answer with the number of deleted records.
    Finish(Result<u64, UiEventHandlerError>),
}

/// Starts deleting the records of a source: with `include_active` all of them go without
/// resolving any status; else the records are listed to keep the active ones.
pub fn begin_source_delete(source_type: ExecutionSourceType, source_id: i64, include_active: bool) -> (r: (SourceDeleteStage, SourceDeleteAction))
    ensures
        include_active ==> r.0 == SourceDeleteStage::DeletingAll && r.1 == SourceDeleteAction::DeleteAll(source_type, source_id),
        !include_active ==> r.0 == SourceDeleteStage::Listing && r.1 == SourceDeleteAction::ListRecords(source_type, source_id),
{
    if include_active {
        (SourceDeleteStage::DeletingAll, SourceDeleteAction::DeleteAll(source_type, source_id))
    } else {
        (SourceDeleteStage::Listing, SourceDeleteAction::ListRecords(source_type, source_id))
    }
}

/// The next step of a delete by source: the listed records are resolved, the ids of the
/// terminal ones deleted, and the number of deleted rows answered.
pub fn source_delete_step(stage: SourceDeleteStage, event: SourceDeleteEvent) -> (r: (SourceDeleteStage, SourceDeleteAction))
    requires
        event is Listed ==> stage == SourceDeleteStage::Listing,
        event is Resolved ==> stage == SourceDeleteStage::Resolving,
        event is Deleted ==> stage == SourceDeleteStage::DeletingAll || stage == SourceDeleteStage::DeletingIds,
    ensures
        match event {
            SourceDeleteEvent::Listed(Err(e)) => r.0 == SourceDeleteStage::Finished && r.1 == SourceDeleteAction::Finish(Err(e)),
            SourceDeleteEvent::Listed(Ok(refs)) => r.0 == SourceDeleteStage::Resolving
                && r.1 == SourceDeleteAction::ResolveStatuses(refs),
            SourceDeleteEvent::Resolved(v) => r.0 == SourceDeleteStage::DeletingIds
                && (r.1 matches SourceDeleteAction::DeleteIds(ids) && ids@ == spec_terminal_ids(v@)),
            SourceDeleteEvent::Deleted(n) => r.0 == SourceDeleteStage::Finished && r.1 == SourceDeleteAction::Finish(n),
        },
{
    match event {
        SourceDeleteEvent::Listed(Err(e)) => (SourceDeleteStage::Finished, SourceDeleteAction::Finish(Err(e))),
        SourceDeleteEvent::Listed(Ok(refs)) => (SourceDeleteStage::Resolving, SourceDeleteAction::ResolveStatuses(refs)),
        SourceDeleteEvent::Resolved(v) => (SourceDeleteStage::DeletingIds, SourceDeleteAction::DeleteIds(terminal_ids(&v))),
        SourceDeleteEvent::Deleted(n) => (SourceDeleteStage::Finished, SourceDeleteAction::Finish(n)),
    }
}

/// The action a cancellation waits on.
#[derive(Clone, Copy, Debug, PartialEq, Eq, Structural)]
pub enum CancelStage {
    ReadingRecord,
    Cancelling,
    RecordingResult,
    Finished,
}

/// A cancellation under way: the record, and its job once known.
#[derive(Clone, Copy, Debug)]
pub struct CancelRun {
    pub id: ExecutionRefId,
    pub job_id: Option<i64>,
    pub stage: CancelStage,
}

/// The answer to the last action of a cancellation.
pub enum CancelEvent {
    /// The record was looked up (`None`: no such record).
    RecordRead(Result<Option<ExecutionRef>, UiEventHandlerError>),
    /// jobworkerp answered the cancellation: whether it succeeded.
    Cancelled(Result<bool, UiEventHandlerError>),
    /// The cancelled result was recorded, or the attempt failed (which does not matter).
    ResultRecorded,
}

/// The next thing a cancellation does.
pub enum CancelAction {
    /// Look up the record.
    ReadRecord(ExecutionRefId),
    /// Ask the record's jobworkerp server to cancel the job.
    CancelJob(ExecutionRef, i64),
    /// Record this result status for the record and its job.
    RecordResult(ExecutionRefId, i64, i32),
    /// Answer whether the job was cancelled.
    Finish(Result<bool, UiEventHandlerError>),
}

impl CancelRun {
    /// Starts cancelling the job of the record `id`: the record is looked up first.
    pub fn begin(id: ExecutionRefId) -> (r: (CancelRun, CancelAction))
        ensures
            r.0 == (CancelRun { id, job_id: None, stage: CancelStage::ReadingRecord }),
            r.1 == CancelAction::ReadRecord(id),
    {
        (CancelRun { id, job_id: None, stage: CancelStage::ReadingRecord }, CancelAction::ReadRecord(id))
    }

    /// The next step: the record must exist with a job id; a successful cancellation records
    /// the cancelled status (best effort) and answers true; an unsuccessful one answers false.
    pub fn step(self, event: CancelEvent) -> (r: (CancelRun, CancelAction))
        requires
            event is RecordRead ==> self.stage == CancelStage::ReadingRecord,
            event is Cancelled ==> self.stage == CancelStage::Cancelling && self.job_id is Some,
            event is ResultRecorded ==> self.stage == CancelStage::RecordingResult,
        ensures
            r.0.id == self.id,
            match event {
                CancelEvent::RecordRead(Err(e)) | CancelEvent::Cancelled(Err(e)) => r.0.stage == CancelStage::Finished
                    && r.1 == CancelAction::Finish(Err(e)),
                CancelEvent::RecordRead(Ok(None)) => r.0.stage == CancelStage::Finished
                    && (r.1 matches CancelAction::Finish(Err(UiEventHandlerError::OtherError(m)))
                        && m@ == "execution_ref not found"@),
                CancelEvent::RecordRead(Ok(Some(er))) => match er.job_id {
                    None => r.0.stage == CancelStage::Finished
                        && (r.1 matches CancelAction::Finish(Err(UiEventHandlerError::OtherError(m)))
                            && m@ == "execution_ref.job_id is missing"@),
                    Some(j) => r.0.stage == CancelStage::Cancelling && r.0.job_id == Some(j)
                        && r.1 == CancelAction::CancelJob(er, j),
                },
                CancelEvent::Cancelled(Ok(false)) => r.0.stage == CancelStage::Finished && r.1 == CancelAction::Finish(Ok(false)),
                CancelEvent::Cancelled(Ok(true)) => r.0.stage == CancelStage::RecordingResult && r.0.job_id == self.job_id
                    && r.1 == CancelAction::RecordResult(self.id, self.job_id->Some_0, ResultStatus::Cancelled.spec_to_i32()),
                CancelEvent::ResultRecorded => r.0.stage == CancelStage::Finished && r.1 == CancelAction::Finish(Ok(true)),
            },
    {
        let id = self.id;
        match event {
            CancelEvent::RecordRead(Err(e)) => (CancelRun { stage: CancelStage::Finished, ..self }, CancelAction::Finish(Err(e))),
            CancelEvent::Cancelled(Err(e)) => (CancelRun { stage: CancelStage::Finished, ..self }, CancelAction::Finish(Err(e))),
            CancelEvent::RecordRead(Ok(record)) => match cancel_job_id(&record) {
                Err(e) => (CancelRun { stage: CancelStage::Finished, ..self }, CancelAction::Finish(Err(e))),
                Ok(j) => {
                    let er = record.unwrap();
                    (CancelRun { id, job_id: Some(j), stage: CancelStage::Cancelling }, CancelAction::CancelJob(er, j))
                },
            },
            CancelEvent::Cancelled(Ok(success)) => match cancel_result_status(success) {
                Some(status) => {
                    let j = self.job_id.unwrap();
                    (CancelRun { stage: CancelStage::RecordingResult, ..self }, CancelAction::RecordResult(id, j, status))
                },
                None => (CancelRun { stage: CancelStage::Finished, ..self }, CancelAction::Finish(Ok(false))),
            },
            CancelEvent::ResultRecorded => (CancelRun { stage: CancelStage::Finished, ..self }, CancelAction::Finish(Ok(true))),
        }
    }
}

} // verus!
