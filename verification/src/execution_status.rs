//! Resolution of an execution's runtime status from its record and from what jobworkerp
//! reports, and the decisions of the status API built on it (delete protection, manual
//! trigger outcome, re-execution, cancellation).
use vstd::prelude::*;
use crate::model::{
    ExecutionRef, ExecutionRefId, ExecutionRuntimeStatus, ExecutionSourceType, ExecutionStatusSource,
    JobProcessingStatus, JobworkerpServerData, JobworkerpServerId, ResolvedExecutionStatus, ResultStatus,
};
use crate::errors::UiEventHandlerError;
use crate::text::opt_view;

verus! {

/// The detail reported when a recorded terminal status is used.
pub open spec fn detail_recorded_status() -> Seq<char> {
    "no stored result; using terminal status recorded at execution time"@
}

/// The detail reported when success is inferred for a legacy record.
pub open spec fn detail_legacy_inference() -> Seq<char> {
    "no processing status, stored result, or recorded terminal status; success inferred for legacy refs"@
}

/// The detail reported when enqueueing failed before a job id existed.
pub open spec fn detail_enqueue_failed() -> Seq<char> {
    "enqueue failed before job_id was assigned"@
}

/// The detail reported for an enqueued job whose id is not yet known.
pub open spec fn detail_awaiting_job_id() -> Seq<char> {
    "enqueued; job_id not yet assigned; awaiting result on conductor side"@
}

/// The detail reported right after a manual trigger whose job id is still pending.
pub open spec fn detail_not_cancellable() -> Seq<char> {
    "job_id pending; not cancellable until assigned"@
}

/// The gRPC endpoint of a jobworkerp server: `http(s)://host:port`.
pub open spec fn spec_server_endpoint(ssl_enabled: bool, host: Seq<char>, port: Seq<char>) -> Seq<char> {
    (if ssl_enabled { "https"@ } else { "http"@ }) + "://"@ + host + ":"@ + port
}

/// The endpoint `<scheme>://<host>:<port>` of a server, `https` with TLS and `http` without.
pub fn format_endpoint(ssl_enabled: bool, host: &str, port: &str) -> (r: String)
    ensures
        r@ == spec_server_endpoint(ssl_enabled, host@, port@),
{
    let protocol = if ssl_enabled { String::from_str("https") } else { String::from_str("http") };
    protocol.concat("://").concat(host).concat(":").concat(port)
}

/// Builds the gRPC endpoint string of a jobworkerp server from its data.
pub fn server_endpoint(data: &JobworkerpServerData) -> (r: String)
    ensures
        r@ == spec_server_endpoint(data.ssl_enabled, data.host@, data.port@),
{
    format_endpoint(data.ssl_enabled, data.host.as_str(), data.port.as_str())
}

/// The statuses of a finished execution, the only ones that may be deleted.
pub open spec fn spec_is_terminal(resolved: ResolvedExecutionStatus) -> bool {
    resolved == ResolvedExecutionStatus::Succeeded || resolved == ResolvedExecutionStatus::Failed
        || resolved == ResolvedExecutionStatus::Cancelled
        || resolved == ResolvedExecutionStatus::EnqueueFailed
}

/// Whether a resolved status is terminal (and so the execution may be deleted).
pub fn is_terminal(resolved: ResolvedExecutionStatus) -> (r: bool)
    ensures
        r == spec_is_terminal(resolved),
{
    match resolved {
        ResolvedExecutionStatus::Succeeded => true,
        ResolvedExecutionStatus::Failed => true,
        ResolvedExecutionStatus::Cancelled => true,
        ResolvedExecutionStatus::EnqueueFailed => true,
        _ => false,
    }
}

/// Whether a resolved status, given by its wire number, is terminal; an unknown number
/// counts as `Unspecified`.
pub open spec fn spec_is_terminal_i32(resolved: i32) -> bool {
    match ResolvedExecutionStatus::spec_from_i32(resolved) {
        Some(s) => spec_is_terminal(s),
        None => false,
    }
}

pub fn is_terminal_i32(resolved: i32) -> (r: bool)
    ensures
        r == spec_is_terminal_i32(resolved),
{
    match ResolvedExecutionStatus::from_i32(resolved) {
        Some(s) => is_terminal(s),
        None => false,
    }
}

/// The resolved status for a live processing status.
pub open spec fn spec_map_processing_status(status: i32) -> ResolvedExecutionStatus {
    match JobProcessingStatus::spec_from_i32(status) {
        Some(JobProcessingStatus::Pending) => ResolvedExecutionStatus::Pending,
        Some(JobProcessingStatus::Running) => ResolvedExecutionStatus::Running,
        Some(JobProcessingStatus::WaitResult) => ResolvedExecutionStatus::WaitResult,
        Some(JobProcessingStatus::Cancelling) => ResolvedExecutionStatus::Cancelling,
        _ => ResolvedExecutionStatus::Unknown,
    }
}

/// Maps a processing status (wire number) onto the resolved status (wire number);
/// an unknown number maps to `Unknown`.
pub fn map_processing_status(status: i32) -> (r: i32)
    ensures
        r == spec_map_processing_status(status).spec_to_i32(),
{
    let s = match JobProcessingStatus::from_i32(status) {
        Some(JobProcessingStatus::Pending) => ResolvedExecutionStatus::Pending,
        Some(JobProcessingStatus::Running) => ResolvedExecutionStatus::Running,
        Some(JobProcessingStatus::WaitResult) => ResolvedExecutionStatus::WaitResult,
        Some(JobProcessingStatus::Cancelling) => ResolvedExecutionStatus::Cancelling,
        _ => ResolvedExecutionStatus::Unknown,
    };
    s.to_i32()
}

/// The resolved status for a job result status.
pub open spec fn spec_map_result_status(status: ResultStatus) -> ResolvedExecutionStatus {
    match status {
        ResultStatus::Success => ResolvedExecutionStatus::Succeeded,
        ResultStatus::Cancelled => ResolvedExecutionStatus::Cancelled,
        _ => ResolvedExecutionStatus::Failed,
    }
}

/// Maps a job result status onto the resolved status (wire number).
pub fn map_result_status(status: ResultStatus) -> (r: i32)
    ensures
        r == spec_map_result_status(status).spec_to_i32(),
{
    let s = match status {
        ResultStatus::Success => ResolvedExecutionStatus::Succeeded,
        ResultStatus::Cancelled => ResolvedExecutionStatus::Cancelled,
        _ => ResolvedExecutionStatus::Failed,
    };
    s.to_i32()
}

/// The status assumed for a legacy record with neither processing status, stored result nor
/// recorded terminal status: success.
pub fn infer_status_without_result() -> (r: i32)
    ensures
        r == ResolvedExecutionStatus::Succeeded.spec_to_i32(),
{
    ResolvedExecutionStatus::Succeeded.to_i32()
}

/// The result status recorded on a record, decoded; an unknown number counts as `OtherError`.
pub open spec fn spec_recorded_result_status(rs: i32) -> ResultStatus {
    match ResultStatus::spec_from_i32(rs) {
        Some(s) => s,
        None => ResultStatus::OtherError,
    }
}

/// The status (and detail) of a job that left neither a processing status nor a stored result.
pub open spec fn spec_resolve_status_without_stored_result(recorded: Option<i32>) -> (i32, Seq<char>) {
    match recorded {
        Some(rs) => (
            spec_map_result_status(spec_recorded_result_status(rs)).spec_to_i32(),
            detail_recorded_status(),
        ),
        None => (ResolvedExecutionStatus::Succeeded.spec_to_i32(), detail_legacy_inference()),
    }
}

/// Resolves a job that left no processing status and no stored result: the terminal status
/// recorded at execution time wins; without one (a legacy record) success is inferred.
pub fn resolve_status_without_stored_result(recorded_result_status: Option<i32>) -> (r: (i32, String))
    ensures
        r.0 == spec_resolve_status_without_stored_result(recorded_result_status).0,
        r.1@ == spec_resolve_status_without_stored_result(recorded_result_status).1,
{
    match recorded_result_status {
        Some(rs) => {
            let status = match ResultStatus::from_i32(rs) {
                Some(s) => s,
                None => ResultStatus::OtherError,
            };
            (map_result_status(status), String::from_str("no stored result; using terminal status recorded at execution time"))
        },
        None => (
            infer_status_without_result(),
            String::from_str("no processing status, stored result, or recorded terminal status; success inferred for legacy refs"),
        ),
    }
}

/// The status (and detail) of a record that has no job id.
pub open spec fn spec_resolve_jobidless_status(
    enqueue_error: Option<Seq<char>>,
    result_status: Option<i32>,
) -> (i32, Seq<char>) {
    if enqueue_error is Some {
        (ResolvedExecutionStatus::EnqueueFailed.spec_to_i32(), detail_enqueue_failed())
    } else {
        match result_status {
            Some(rs) => spec_resolve_status_without_stored_result(Some(rs)),
            None => (ResolvedExecutionStatus::Running.spec_to_i32(), detail_awaiting_job_id()),
        }
    }
}

/// Resolves a record without a job id from the record alone: an enqueue error means the
/// enqueue failed; a recorded result status is that terminal status; otherwise the job was
/// enqueued and is awaited, so it is running.
pub fn resolve_jobidless_status(enqueue_error: Option<&str>, result_status: Option<i32>) -> (r: (i32, String))
    ensures
        r.0 == spec_resolve_jobidless_status(
            match enqueue_error { Some(e) => Some(e@), None => None },
            result_status,
        ).0,
        r.1@ == spec_resolve_jobidless_status(
            match enqueue_error { Some(e) => Some(e@), None => None },
            result_status,
        ).1,
{
    if enqueue_error.is_some() {
        return (ResolvedExecutionStatus::EnqueueFailed.to_i32(), String::from_str("enqueue failed before job_id was assigned"));
    }
    match result_status {
        Some(rs) => resolve_status_without_stored_result(Some(rs)),
        None => (
            ResolvedExecutionStatus::Running.to_i32(),
            String::from_str("enqueued; job_id not yet assigned; awaiting result on conductor side"),
        ),
    }
}

/// What jobworkerp answered while the status of a record with a job id was looked up, in
/// the order of the lookups: the server connection, the processing status, the stored result.
pub enum StatusProbe {
    /// The server could not be reached or a lookup failed; the error's description.
    Unavailable(String),
    /// A live processing status (wire number) was found.
    Processing(i32),
    /// No processing status; the first stored result, with the status number its data holds
    /// (`None` when the result has no data).
    StoredResult(Option<i32>),
    /// Neither a processing status nor a stored result.
    NoStoredResult,
}

/// The status of a stored result: its data's status number (an unknown number decodes as
/// `Success`, the protocol's default), or `OtherError` when the result has no data.
pub open spec fn spec_stored_result_status(data_status: Option<i32>) -> ResultStatus {
    match data_status {
        Some(v) => match ResultStatus::spec_from_i32(v) {
            Some(s) => s,
            None => ResultStatus::Success,
        },
        None => ResultStatus::OtherError,
    }
}

/// The resolved status, source and detail for a record and a probe outcome.
pub open spec fn spec_resolve_status(
    job_id: Option<i64>,
    enqueue_error: Option<Seq<char>>,
    result_status: Option<i32>,
    probe: StatusProbe,
) -> (i32, i32, Option<Seq<char>>) {
    if job_id is None {
        let (s, d) = spec_resolve_jobidless_status(enqueue_error, result_status);
        (s, ExecutionStatusSource::ExecutionRef.spec_to_i32(), Some(d))
    } else {
        match probe {
            StatusProbe::Unavailable(e) => (
                ResolvedExecutionStatus::Unavailable.spec_to_i32(),
                ExecutionStatusSource::Unavailable.spec_to_i32(),
                Some(e@),
            ),
            StatusProbe::Processing(p) => (
                spec_map_processing_status(p).spec_to_i32(),
                ExecutionStatusSource::JobProcessingStatus.spec_to_i32(),
                None,
            ),
            StatusProbe::StoredResult(ds) => (
                spec_map_result_status(spec_stored_result_status(ds)).spec_to_i32(),
                ExecutionStatusSource::JobResult.spec_to_i32(),
                None,
            ),
            StatusProbe::NoStoredResult => {
                let (s, d) = spec_resolve_status_without_stored_result(result_status);
                (s, ExecutionStatusSource::ExecutionRef.spec_to_i32(), Some(d))
            },
        }
    }
}

/// Resolves the runtime status of a record. Without a job id the record alone decides and
/// `probe` is not consulted; with one, the probe outcome decides. The record is returned
/// inside the status, observed at `now`.
pub fn resolve_status(execution_ref: ExecutionRef, probe: StatusProbe, now: i64) -> (r: ExecutionRuntimeStatus)
    ensures
        r.execution_ref == Some(execution_ref),
        r.observed_at == now,
        (r.resolved_status, r.status_source, opt_view(r.detail)) == spec_resolve_status(
            execution_ref.job_id,
            opt_view(execution_ref.enqueue_error),
            execution_ref.result_status,
            probe,
        ),
{
    if execution_ref.job_id.is_none() {
        let (resolved_status, detail) = match &execution_ref.enqueue_error {
            Some(e) => resolve_jobidless_status(Some(e.as_str()), execution_ref.result_status),
            None => resolve_jobidless_status(None, execution_ref.result_status),
        };
        return ExecutionRuntimeStatus {
            execution_ref: Some(execution_ref),
            resolved_status,
            status_source: ExecutionStatusSource::ExecutionRef.to_i32(),
            observed_at: now,
            detail: Some(detail),
        };
    }
    match probe {
        StatusProbe::Unavailable(e) => ExecutionRuntimeStatus {
            execution_ref: Some(execution_ref),
            resolved_status: ResolvedExecutionStatus::Unavailable.to_i32(),
            status_source: ExecutionStatusSource::Unavailable.to_i32(),
            observed_at: now,
            detail: Some(e),
        },
        StatusProbe::Processing(p) => ExecutionRuntimeStatus {
            execution_ref: Some(execution_ref),
            resolved_status: map_processing_status(p),
            status_source: ExecutionStatusSource::JobProcessingStatus.to_i32(),
            observed_at: now,
            detail: None,
        },
        StatusProbe::StoredResult(ds) => {
            let status = match ds {
                Some(v) => match ResultStatus::from_i32(v) {
                    Some(s) => s,
                    None => ResultStatus::Success,
                },
                None => ResultStatus::OtherError,
            };
            ExecutionRuntimeStatus {
                execution_ref: Some(execution_ref),
                resolved_status: map_result_status(status),
                status_source: ExecutionStatusSource::JobResult.to_i32(),
                observed_at: now,
                detail: None,
            }
        },
        StatusProbe::NoStoredResult => {
            let (resolved_status, detail) = resolve_status_without_stored_result(execution_ref.result_status);
            ExecutionRuntimeStatus {
                execution_ref: Some(execution_ref),
                resolved_status,
                status_source: ExecutionStatusSource::ExecutionRef.to_i32(),
                observed_at: now,
                detail: Some(detail),
            }
        },
    }
}

/// A running status sourced from the record itself, for a just-triggered execution whose live
/// status is not (yet) available: the record carries only the id.
pub fn running_status_without_job_id(id: ExecutionRefId, detail: Option<String>, now: i64) -> (r: ExecutionRuntimeStatus)
    ensures
        r.execution_ref matches Some(er) && er.id == Some(id) && er.source_type == 0
            && er.source_id == 0 && er.source_name@.len() == 0 && er.jobworkerp_server_id is None
            && er.job_id is None && er.triggered_at == 0 && er.trigger_context_json is None
            && er.enqueue_error is None && er.created_at == 0 && er.result_status is None,
        r.resolved_status == ResolvedExecutionStatus::Running.spec_to_i32(),
        r.status_source == ExecutionStatusSource::ExecutionRef.spec_to_i32(),
        r.observed_at == now,
        r.detail == detail,
{
    ExecutionRuntimeStatus {
        execution_ref: Some(ExecutionRef {
            id: Some(id),
            source_type: 0,
            source_id: 0,
            source_name: String::new(),
            jobworkerp_server_id: None,
            job_id: None,
            triggered_at: 0,
            trigger_context_json: None,
            enqueue_error: None,
            created_at: 0,
            result_status: None,
        }),
        resolved_status: ResolvedExecutionStatus::Running.to_i32(),
        status_source: ExecutionStatusSource::ExecutionRef.to_i32(),
        observed_at: now,
        detail,
    }
}

/// Outcome of a single-record delete.
#[derive(Clone, Copy, Debug, PartialEq, Eq, Structural)]
pub enum DeleteResult {
    Deleted,
    NotFound,
    NotTerminal,
}

/// What a single-record delete does after looking up the record's runtime status.
#[derive(Clone, Copy, Debug, PartialEq, Eq, Structural)]
pub enum DeleteStep {
    /// Answer without touching the database.
    Finish(DeleteResult),
    /// The record is terminal: remove its row.
    RemoveRow,
}

/// The step of a single-record delete for the looked-up resolved status (`None`: no such
/// record): a missing record is not found, a non-terminal one is protected, a terminal one
/// is removed.
pub open spec fn spec_delete_step(resolved_status: Option<i32>) -> DeleteStep {
    match resolved_status {
        None => DeleteStep::Finish(DeleteResult::NotFound),
        Some(s) => if spec_is_terminal_i32(s) {
            DeleteStep::RemoveRow
        } else {
            DeleteStep::Finish(DeleteResult::NotTerminal)
        },
    }
}

/// The step of a single-record delete for the looked-up resolved status.
pub fn delete_step(resolved_status: Option<i32>) -> (r: DeleteStep)
    ensures
        r == spec_delete_step(resolved_status),
{
    match resolved_status {
        None => DeleteStep::Finish(DeleteResult::NotFound),
        Some(s) => if is_terminal_i32(s) {
            DeleteStep::RemoveRow
        } else {
            DeleteStep::Finish(DeleteResult::NotTerminal)
        },
    }
}

/// The answer after removing a terminal record's row: it disappeared in between when no row
/// was removed.
pub open spec fn spec_delete_result_after_remove(removed: bool) -> DeleteResult {
    if removed { DeleteResult::Deleted } else { DeleteResult::NotFound }
}

/// The answer after removing a terminal record's row.
pub fn delete_result_after_remove(removed: bool) -> (r: DeleteResult)
    ensures
        r == spec_delete_result_after_remove(removed),
{
    if removed { DeleteResult::Deleted } else { DeleteResult::NotFound }
}

/// A single-record delete on a table of records, each id with its resolved status: the
/// answer, and the table afterwards. The row is removed only on the step that removes it.
pub open spec fn spec_delete_one(table: Map<i64, i32>, id: i64) -> (DeleteResult, Map<i64, i32>) {
    let found = if table.contains_key(id) { Some(table[id]) } else { None };
    match spec_delete_step(found) {
        DeleteStep::Finish(r) => (r, table),
        DeleteStep::RemoveRow => (spec_delete_result_after_remove(table.contains_key(id)), table.remove(id)),
    }
}

/// The ids of the records whose resolved status is terminal, in order; records without an id
/// are skipped.
pub open spec fn spec_terminal_ids(resolved: Seq<(Option<ExecutionRefId>, i32)>) -> Seq<i64>
    decreases resolved.len(),
{
    if resolved.len() == 0 {
        Seq::empty()
    } else {
        let rest = spec_terminal_ids(resolved.drop_last());
        let last = resolved.last();
        if spec_is_terminal_i32(last.1) && last.0 is Some {
            rest.push(last.0->0.value)
        } else {
            rest
        }
    }
}

/// Selects, for a delete by source without force, the ids of the records confirmed terminal.
pub fn terminal_ids(resolved: &Vec<(Option<ExecutionRefId>, i32)>) -> (r: Vec<i64>)
    ensures
        r@ == spec_terminal_ids(resolved@),
{
    let mut out: Vec<i64> = Vec::new();
    for i in 0..resolved.len()
        invariant
            out@ == spec_terminal_ids(resolved@.take(i as int)),
    {
        let (id, status) = resolved[i];
        assert(resolved@.take(i + 1).drop_last() == resolved@.take(i as int));
        if is_terminal_i32(status) {
            match id {
                Some(id) => out.push(id.value),
                None => {},
            }
        }
    }
    assert(resolved@.take(resolved@.len() as int) == resolved@);
    out
}

/// Result of a manual trigger: the created record id and the status observed right after
/// enqueueing.
pub struct TriggerOutcome {
    pub execution_ref_id: Option<ExecutionRefId>,
    pub status: ExecutionRuntimeStatus,
}

/// The arguments of a manual trigger: given override arguments replace the configured ones.
pub fn trigger_args(args_json: Option<String>, configured_args: Option<String>) -> (r: Option<String>)
    ensures
        r == (if args_json is Some { args_json } else { configured_args }),
{
    match args_json {
        Some(a) => Some(a),
        None => configured_args,
    }
}

/// The pending record created before a manual trigger enqueues its job.
pub fn trigger_pending_ref(
    source_type: ExecutionSourceType,
    source_id: i64,
    source_name: String,
    jobworkerp_server_id: JobworkerpServerId,
    now: i64,
) -> (r: ExecutionRef)
    ensures
        r.id is None,
        r.source_type == source_type.spec_to_i32(),
        r.source_id == source_id,
        r.source_name == source_name,
        r.jobworkerp_server_id == Some(jobworkerp_server_id),
        r.job_id is None,
        r.triggered_at == now,
        r.created_at == now,
        r.trigger_context_json is None,
        r.enqueue_error is None,
        r.result_status is None,
{
    ExecutionRef {
        id: None,
        source_type: source_type.to_i32(),
        source_id,
        source_name,
        jobworkerp_server_id: Some(jobworkerp_server_id),
        job_id: None,
        triggered_at: now,
        trigger_context_json: None,
        enqueue_error: None,
        created_at: now,
        result_status: None,
    }
}

/// How enqueueing a triggered job went.
pub enum EnqueueOutcome {
    /// The job id is known right away; the live status was looked up (`None`: nothing found).
    Enqueued(Option<ExecutionRuntimeStatus>),
    /// The runner only reports the job id when its blocking run resolves.
    JobIdPending,
    /// Enqueueing failed before a job id existed; the record as read back, if it could be.
    Failed(Option<ExecutionRef>),
}

/// Whether `r` is the outcome of a manual trigger whose pending record is `id`, after the
/// hand-over went as `enqueue`, observed at `now`.
pub open spec fn spec_trigger_outcome(id: ExecutionRefId, enqueue: EnqueueOutcome, now: i64, r: TriggerOutcome) -> bool {
    &&& r.execution_ref_id == Some(id)
    &&& match enqueue {
        EnqueueOutcome::Enqueued(Some(s)) => r.status == s,
        EnqueueOutcome::Enqueued(None) => r.status.resolved_status
            == ResolvedExecutionStatus::Running.spec_to_i32() && r.status.detail is None
            && r.status.status_source == ExecutionStatusSource::ExecutionRef.spec_to_i32()
            && (r.status.execution_ref matches Some(er) && er.id == Some(id)),
        EnqueueOutcome::JobIdPending => r.status.resolved_status
            == ResolvedExecutionStatus::Running.spec_to_i32()
            && r.status.status_source == ExecutionStatusSource::ExecutionRef.spec_to_i32()
            && opt_view(r.status.detail) == Some(detail_not_cancellable())
            && (r.status.execution_ref matches Some(er) && er.id == Some(id)),
        EnqueueOutcome::Failed(er) => r.status.resolved_status
            == ResolvedExecutionStatus::EnqueueFailed.spec_to_i32()
            && r.status.status_source == ExecutionStatusSource::ExecutionRef.spec_to_i32()
            && r.status.execution_ref == er
            && opt_view(r.status.detail) == Some(detail_enqueue_failed()),
    }
    &&& match enqueue {
        EnqueueOutcome::Enqueued(Some(_)) => true,
        _ => r.status.observed_at == now,
    }
}

/// The outcome of a manual trigger once its pending record `id` exists and the job was
/// handed over: the live status when found, else running; running with a not-cancellable
/// note while the job id is pending; enqueue-failed when enqueueing failed.
pub fn trigger_outcome(id: ExecutionRefId, enqueue: EnqueueOutcome, now: i64) -> (r: TriggerOutcome)
    ensures
        spec_trigger_outcome(id, enqueue, now, r),
{
    match enqueue {
        EnqueueOutcome::Enqueued(Some(status)) => TriggerOutcome { execution_ref_id: Some(id), status },
        EnqueueOutcome::Enqueued(None) => TriggerOutcome {
            execution_ref_id: Some(id),
            status: running_status_without_job_id(id, None, now),
        },
        EnqueueOutcome::JobIdPending => TriggerOutcome {
            execution_ref_id: Some(id),
            status: running_status_without_job_id(
                id,
                Some(String::from_str("job_id pending; not cancellable until assigned")),
                now,
            ),
        },
        EnqueueOutcome::Failed(er) => TriggerOutcome {
            execution_ref_id: Some(id),
            status: ExecutionRuntimeStatus {
                execution_ref: er,
                resolved_status: ResolvedExecutionStatus::EnqueueFailed.to_i32(),
                status_source: ExecutionStatusSource::ExecutionRef.to_i32(),
                observed_at: now,
                detail: Some(String::from_str("enqueue failed before job_id was assigned")),
            },
        },
    }
}

/// The name a source type is reported by in messages.
pub open spec fn spec_source_type_name(t: ExecutionSourceType) -> Seq<char> {
    match t {
        ExecutionSourceType::Unspecified => "Unspecified"@,
        ExecutionSourceType::CronScheduler => "CronScheduler"@,
        ExecutionSourceType::WorkerResultHandler => "WorkerResultHandler"@,
        ExecutionSourceType::SlackEventHandler => "SlackEventHandler"@,
    }
}

pub fn source_type_name(t: ExecutionSourceType) -> (r: String)
    ensures
        r@ == spec_source_type_name(t),
{
    match t {
        ExecutionSourceType::Unspecified => String::from_str("Unspecified"),
        ExecutionSourceType::CronScheduler => String::from_str("CronScheduler"),
        ExecutionSourceType::WorkerResultHandler => String::from_str("WorkerResultHandler"),
        ExecutionSourceType::SlackEventHandler => String::from_str("SlackEventHandler"),
    }
}

/// Which source a manual trigger may resolve: only cron schedulers are supported.
pub fn check_trigger_source(source_type: ExecutionSourceType) -> (r: Result<(), UiEventHandlerError>)
    ensures
        r is Ok <==> source_type == ExecutionSourceType::CronScheduler,
        r matches Err(e) ==> e matches UiEventHandlerError::Unimplemented(m) && m@
            == "manual trigger is only supported for CRON_SCHEDULER, got "@
            + spec_source_type_name(source_type),
{
    if source_type == ExecutionSourceType::CronScheduler {
        Ok(())
    } else {
        let m = String::from_str("manual trigger is only supported for CRON_SCHEDULER, got ")
            .concat(source_type_name(source_type).as_str());
        Err(UiEventHandlerError::Unimplemented(m))
    }
}

/// The source to re-run for an existing record: the record's source type decoded (an unknown
/// number counts as unspecified), which must be a cron scheduler.
pub fn re_execute_source(source_type: i32) -> (r: Result<ExecutionSourceType, UiEventHandlerError>)
    ensures
        ExecutionSourceType::spec_from_i32(source_type) == Some(ExecutionSourceType::CronScheduler)
            <==> r is Ok,
        r matches Ok(t) ==> t == ExecutionSourceType::CronScheduler,
        r matches Err(e) ==> e matches UiEventHandlerError::Unimplemented(m) && m@
            == "re-execute is only supported for CRON_SCHEDULER, got "@ + spec_source_type_name(
                match ExecutionSourceType::spec_from_i32(source_type) {
                    Some(t) => t,
                    None => ExecutionSourceType::Unspecified,
                },
            ),
{
    let t = ExecutionSourceType::from_i32_or_unspecified(source_type);
    if t == ExecutionSourceType::CronScheduler {
        Ok(t)
    } else {
        let m = String::from_str("re-execute is only supported for CRON_SCHEDULER, got ")
            .concat(source_type_name(t).as_str());
        Err(UiEventHandlerError::Unimplemented(m))
    }
}

/// The error of a failed re-execution: a source configuration that is gone (not found) means
/// the original record's source no longer exists, a failed precondition; other errors pass.
pub fn re_execute_error(e: UiEventHandlerError) -> (r: UiEventHandlerError)
    ensures
        match e {
            UiEventHandlerError::NotFound(m) => r matches UiEventHandlerError::FailedPrecondition(m2)
                && m2@ == "source config for the original execution_ref is gone: "@ + m@,
            _ => r == e,
        },
{
    match e {
        UiEventHandlerError::NotFound(m) => UiEventHandlerError::FailedPrecondition(
            String::from_str("source config for the original execution_ref is gone: ").concat(m.as_str()),
        ),
        other => other,
    }
}

/// The result status recorded after a successful cancellation (the cancelled job leaves no
/// result of its own); nothing is recorded when jobworkerp reports no success.
pub fn cancel_result_status(is_success: bool) -> (r: Option<i32>)
    ensures
        r == (if is_success { Some(ResultStatus::Cancelled.spec_to_i32()) } else { None }),
{
    if is_success { Some(ResultStatus::Cancelled.to_i32()) } else { None }
}

/// The job to cancel for a looked-up record: the record must exist and carry a job id
/// (a missing one is a plain error, answered as internal).
pub fn cancel_job_id(execution_ref: &Option<ExecutionRef>) -> (r: Result<i64, UiEventHandlerError>)
    ensures
        match *execution_ref {
            None => r matches Err(UiEventHandlerError::OtherError(m)) && m@ == "execution_ref not found"@,
            Some(er) => match er.job_id {
                Some(j) => r == Ok::<i64, UiEventHandlerError>(j),
                None => r matches Err(UiEventHandlerError::OtherError(m))
                    && m@ == "execution_ref.job_id is missing"@,
            },
        },
{
    match execution_ref {
        None => Err(UiEventHandlerError::OtherError(String::from_str("execution_ref not found"))),
        Some(er) => match er.job_id {
            Some(j) => Ok(j),
            None => Err(UiEventHandlerError::OtherError(String::from_str("execution_ref.job_id is missing"))),
        },
    }
}

/// The answer of the status API to a single delete: a removed record is a success, a missing
/// one a non-fatal failure, an active one a refused precondition.
pub fn delete_response(r: DeleteResult) -> (out: Result<bool, String>)
    ensures
        match r {
            DeleteResult::Deleted => out == Ok::<bool, String>(true),
            DeleteResult::NotFound => out == Ok::<bool, String>(false),
            DeleteResult::NotTerminal => out matches Err(m)
                && m@ == "execution_ref is not in a terminal state; refusing to delete"@,
        },
{
    match r {
        DeleteResult::Deleted => Ok(true),
        DeleteResult::NotFound => Ok(false),
        DeleteResult::NotTerminal => Err(String::from_str("execution_ref is not in a terminal state; refusing to delete")),
    }
}

} // verus!

