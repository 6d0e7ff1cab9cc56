//! Decisions of the dynamic managers: which cron job or result listener a stored
//! configuration starts, and the time zone of cron expressions.
use vstd::prelude::*;
use crate::model::{
    CronScheduler, CronSchedulerData, CronSchedulerId, ExecutionRef, ExecutionSourceType, ExecutionTarget,
    JobworkerpServer, JobworkerpServerData, JobworkerpServerId, WorkerExecution, WorkerResultHandler,
    WorkerResultHandlerData, WorkerResultHandlerId, WorkflowExecution,
};
use crate::execution_target::target_view;
use crate::execution_status::{server_endpoint, spec_server_endpoint};
use crate::settings::JobResultListenerSetting;
use crate::text::{
    clone_opt_string, i64_to_string, non_empty_clone, opt_view, spec_decimal_int, spec_trim, string_from_chars,
    trim_chars, chars_of,
};
use crate::config_management::spec_non_empty;

verus! {

/// The canonical name `chrono_tz` gives to a time zone name it knows, `None` for a name it
/// does not know.
pub uninterp spec fn tz_canonical_name(name: Seq<char>) -> Option<Seq<char>>;

/// `name.parse::<chrono_tz::Tz>()`, read through `Tz::name`.
#[verifier::external_body]
fn parse_time_zone(name: &str) -> (r: Option<String>)
    ensures
        opt_view(r) == tz_canonical_name(name@),
{
    match name.parse::<chrono_tz::Tz>() {
        Ok(tz) => Some(tz.name().to_string()),
        Err(_) => None,
    }
}

/// The trimmed value of a variable, unless it is absent or blank.
pub open spec fn spec_non_blank(v: Option<Seq<char>>) -> Option<Seq<char>> {
    match v {
        Some(s) => if spec_trim(s).len() > 0 { Some(spec_trim(s)) } else { None },
        None => None,
    }
}

/// The time zone of cron expressions from the values of `CONDUCTOR_CRON_TIMEZONE` and `TZ`:
/// the first of them that is set and not blank, trimmed; a name that is no time zone, or
/// none at all, gives UTC.
pub open spec fn spec_cron_timezone(conductor: Option<Seq<char>>, tz: Option<Seq<char>>) -> Seq<char> {
    let chosen = match spec_non_blank(conductor) {
        Some(s) => Some(s),
        None => spec_non_blank(tz),
    };
    match chosen {
        Some(name) => match tz_canonical_name(name) {
            Some(canonical) => canonical,
            None => "UTC"@,
        },
        None => "UTC"@,
    }
}

fn non_blank(v: &Option<String>) -> (r: Option<String>)
    ensures
        opt_view(r) == spec_non_blank(opt_view(*v)),
{
    match v {
        Some(s) => {
            let t = trim_chars(&chars_of(s.as_str()));
            if t.len() > 0 { Some(string_from_chars(&t)) } else { None }
        },
        None => None,
    }
}

/// The canonical name of the time zone in which cron expressions are read.
pub fn resolve_cron_timezone(conductor_cron_timezone: Option<String>, tz: Option<String>) -> (r: String)
    ensures
        r@ == spec_cron_timezone(opt_view(conductor_cron_timezone), opt_view(tz)),
{
    let chosen = match non_blank(&conductor_cron_timezone) {
        Some(s) => Some(s),
        None => non_blank(&tz),
    };
    match chosen {
        Some(name) => match parse_time_zone(name.as_str()) {
            Some(canonical) => canonical,
            None => String::from_str("UTC"),
        },
        None => String::from_str("UTC"),
    }
}

/// Why a stored configuration cannot be started.
#[derive(Clone, Copy, Debug, PartialEq, Eq, Structural)]
pub enum PlanErrorKind {
    SchedulerNotFound,
    SchedulerDataMissing,
    SchedulerServerIdMissing,
    ServerNotFound,
    ServerDataMissing,
    HandlerNotFound,
    HandlerDataMissing,
    ListenServerIdMissing,
    ListenServerNotFound,
    ProcessServerIdMissing,
    ProcessServerNotFound,
    ListenServerDataMissing,
    ProcessServerDataMissing,
}

/// A failed start, with the id it concerns (0 where the message names none).
#[derive(Clone, Copy, Debug, PartialEq, Eq, Structural)]
pub struct PlanError {
    pub kind: PlanErrorKind,
    pub id: i64,
}

/// The description of a failed start.
pub open spec fn spec_plan_error_message(e: PlanError) -> Seq<char> {
    let id = spec_decimal_int(e.id as int);
    match e.kind {
        PlanErrorKind::SchedulerNotFound => "CronScheduler id="@ + id + " not found"@,
        PlanErrorKind::SchedulerDataMissing => "CronScheduler data is missing"@,
        PlanErrorKind::SchedulerServerIdMissing => "CronScheduler jobworkerp_server_id is missing"@,
        PlanErrorKind::ServerNotFound => "JobworkerpServer with id "@ + id + " not found"@,
        PlanErrorKind::ServerDataMissing => "JobworkerpServer data is missing"@,
        PlanErrorKind::HandlerNotFound => "WorkerResultHandler id="@ + id + " not found"@,
        PlanErrorKind::HandlerDataMissing => "WorkerResultHandler data is missing"@,
        PlanErrorKind::ListenServerIdMissing => "WorkerResultHandler listen_jobworkerp_server_id is missing"@,
        PlanErrorKind::ListenServerNotFound => "Listen JobworkerpServer not found in local config: "@ + id,
        PlanErrorKind::ProcessServerIdMissing => "WorkerResultHandler process_jobworkerp_server_id is missing"@,
        PlanErrorKind::ProcessServerNotFound => "Process JobworkerpServer not found in local config: "@ + id,
        PlanErrorKind::ListenServerDataMissing => "Listen JobworkerpServer data is missing"@,
        PlanErrorKind::ProcessServerDataMissing => "Process JobworkerpServer data is missing"@,
    }
}

impl PlanError {
    /// The description of the error.
    pub fn message(&self) -> (r: String)
        ensures
            r@ == spec_plan_error_message(*self),
    {
        let id = i64_to_string(self.id);
        match self.kind {
            PlanErrorKind::SchedulerNotFound => String::from_str("CronScheduler id=").concat(id.as_str()).concat(" not found"),
            PlanErrorKind::SchedulerDataMissing => String::from_str("CronScheduler data is missing"),
            PlanErrorKind::SchedulerServerIdMissing => String::from_str("CronScheduler jobworkerp_server_id is missing"),
            PlanErrorKind::ServerNotFound => String::from_str("JobworkerpServer with id ").concat(id.as_str()).concat(" not found"),
            PlanErrorKind::ServerDataMissing => String::from_str("JobworkerpServer data is missing"),
            PlanErrorKind::HandlerNotFound => String::from_str("WorkerResultHandler id=").concat(id.as_str()).concat(" not found"),
            PlanErrorKind::HandlerDataMissing => String::from_str("WorkerResultHandler data is missing"),
            PlanErrorKind::ListenServerIdMissing => String::from_str("WorkerResultHandler listen_jobworkerp_server_id is missing"),
            PlanErrorKind::ListenServerNotFound => String::from_str("Listen JobworkerpServer not found in local config: ").concat(id.as_str()),
            PlanErrorKind::ProcessServerIdMissing => String::from_str("WorkerResultHandler process_jobworkerp_server_id is missing"),
            PlanErrorKind::ProcessServerNotFound => String::from_str("Process JobworkerpServer not found in local config: ").concat(id.as_str()),
            PlanErrorKind::ListenServerDataMissing => String::from_str("Listen JobworkerpServer data is missing"),
            PlanErrorKind::ProcessServerDataMissing => String::from_str("Process JobworkerpServer data is missing"),
        }
    }
}

/// A copy of an execution target.
pub fn clone_target(t: &Option<ExecutionTarget>) -> (r: Option<ExecutionTarget>)
    ensures
        target_view(r) == target_view(*t),
{
    match t {
        Some(ExecutionTarget::Workflow(wf)) => Some(ExecutionTarget::Workflow(WorkflowExecution {
            workflow_url: wf.workflow_url.clone(),
            channel: clone_opt_string(&wf.channel),
        })),
        Some(ExecutionTarget::Worker(w)) => Some(ExecutionTarget::Worker(WorkerExecution {
            worker_name: w.worker_name.clone(),
            using: clone_opt_string(&w.using),
        })),
        None => None,
    }
}

/// What a cron job registered for a scheduler runs.
#[derive(Clone, Debug)]
pub struct CronJobPlan {
    pub scheduler_id: i64,
    pub name: String,
    pub jobworkerp_server_id: i64,
    pub cron_expr: String,
    pub args: Option<String>,
    pub execution_target: Option<ExecutionTarget>,
    pub workflow_url_fallback: String,
    pub channel_fallback: Option<String>,
}

/// The cron job a stored scheduler gives, as far as it is read from the scheduler itself.
pub open spec fn spec_cron_job(p: CronJobPlan, id: CronSchedulerId, d: CronSchedulerData) -> bool {
    &&& p.scheduler_id == id.value
    &&& p.name@ == d.name@
    &&& d.jobworkerp_server_id == Some(JobworkerpServerId { value: p.jobworkerp_server_id })
    &&& p.cron_expr@ == d.crontab@
    &&& opt_view(p.args) == opt_view(d.args)
    &&& target_view(p.execution_target) == target_view(d.execution_target)
    &&& p.workflow_url_fallback@ == d.workflow_url@
    &&& opt_view(p.channel_fallback) == opt_view(d.channel)
}

/// The cron job to register for a scheduler found (or not) in the local store: an error for a
/// missing scheduler, missing data or a missing server id; `None` for a disabled scheduler.
pub fn plan_cron_job(scheduler_id: CronSchedulerId, scheduler: Option<&CronScheduler>) -> (r: Result<Option<CronJobPlan>, PlanError>)
    ensures
        match scheduler {
            None => r == Err::<Option<CronJobPlan>, PlanError>(PlanError { kind: PlanErrorKind::SchedulerNotFound, id: scheduler_id.value }),
            Some(s) => match s.data {
                None => r == Err::<Option<CronJobPlan>, PlanError>(PlanError { kind: PlanErrorKind::SchedulerDataMissing, id: 0 }),
                Some(d) => if !d.enabled {
                    r == Ok::<Option<CronJobPlan>, PlanError>(None)
                } else if d.jobworkerp_server_id is None {
                    r == Err::<Option<CronJobPlan>, PlanError>(PlanError { kind: PlanErrorKind::SchedulerServerIdMissing, id: 0 })
                } else {
                    r matches Ok(Some(p)) && spec_cron_job(p, scheduler_id, d)
                },
            },
        },
{
    let s = match scheduler {
        Some(s) => s,
        None => {
            return Err(PlanError { kind: PlanErrorKind::SchedulerNotFound, id: scheduler_id.value });
        },
    };
    let d = match &s.data {
        Some(d) => d,
        None => {
            return Err(PlanError { kind: PlanErrorKind::SchedulerDataMissing, id: 0 });
        },
    };
    if !d.enabled {
        return Ok(None);
    }
    let server_id = match d.jobworkerp_server_id {
        Some(id) => id.value,
        None => {
            return Err(PlanError { kind: PlanErrorKind::SchedulerServerIdMissing, id: 0 });
        },
    };
    Ok(Some(CronJobPlan {
        scheduler_id: scheduler_id.value,
        name: d.name.clone(),
        jobworkerp_server_id: server_id,
        cron_expr: d.crontab.clone(),
        args: clone_opt_string(&d.args),
        execution_target: clone_target(&d.execution_target),
        workflow_url_fallback: d.workflow_url.clone(),
        channel_fallback: clone_opt_string(&d.channel),
    }))
}

/// The endpoint of a server found (or not) in the local store under `server_id`.
pub fn server_endpoint_of(server_id: JobworkerpServerId, server: Option<&JobworkerpServer>) -> (r: Result<String, PlanError>)
    ensures
        match server {
            None => r == Err::<String, PlanError>(PlanError { kind: PlanErrorKind::ServerNotFound, id: server_id.value }),
            Some(s) => match s.data {
                None => r == Err::<String, PlanError>(PlanError { kind: PlanErrorKind::ServerDataMissing, id: 0 }),
                Some(d) => r matches Ok(e) && e@ == spec_server_endpoint(d.ssl_enabled, d.host@, d.port@),
            },
        },
{
    match server {
        None => Err(PlanError { kind: PlanErrorKind::ServerNotFound, id: server_id.value }),
        Some(s) => match &s.data {
            None => Err(PlanError { kind: PlanErrorKind::ServerDataMissing, id: 0 }),
            Some(d) => Ok(server_endpoint(d)),
        },
    }
}

/// The execution record written when a cron job fires, before its job is enqueued: the
/// scheduler as source, the server, and the firing time as trigger and creation time.
pub fn cron_pending_ref(plan: &CronJobPlan, triggered_at: i64) -> (r: ExecutionRef)
    ensures
        r.id is None,
        r.source_type == ExecutionSourceType::CronScheduler.spec_to_i32(),
        r.source_id == plan.scheduler_id,
        r.source_name@ == plan.name@,
        r.jobworkerp_server_id == Some(JobworkerpServerId { value: plan.jobworkerp_server_id }),
        r.job_id is None,
        r.triggered_at == triggered_at,
        r.trigger_context_json is None,
        r.enqueue_error is None,
        r.created_at == triggered_at,
        r.result_status is None,
{
    ExecutionRef {
        id: None,
        source_type: ExecutionSourceType::CronScheduler.to_i32(),
        source_id: plan.scheduler_id,
        source_name: plan.name.clone(),
        jobworkerp_server_id: Some(JobworkerpServerId { value: plan.jobworkerp_server_id }),
        job_id: None,
        triggered_at,
        trigger_context_json: None,
        enqueue_error: None,
        created_at: triggered_at,
        result_status: None,
    }
}

/// The name of the listener to (re)start for a handler found (or not) in the local store:
/// an error for a missing handler or missing data; `None` for a disabled handler.
pub fn listener_to_start(handler_id: WorkerResultHandlerId, handler: Option<&WorkerResultHandler>) -> (r: Result<Option<String>, PlanError>)
    ensures
        match handler {
            None => r == Err::<Option<String>, PlanError>(PlanError { kind: PlanErrorKind::HandlerNotFound, id: handler_id.value }),
            Some(h) => match h.data {
                None => r == Err::<Option<String>, PlanError>(PlanError { kind: PlanErrorKind::HandlerDataMissing, id: 0 }),
                Some(d) => if !d.enabled { r == Ok::<Option<String>, PlanError>(None) } else { r matches Ok(Some(n)) && n@ == d.name@ },
            },
        },
{
    let h = match handler {
        Some(h) => h,
        None => {
            return Err(PlanError { kind: PlanErrorKind::HandlerNotFound, id: handler_id.value });
        },
    };
    match &h.data {
        None => Err(PlanError { kind: PlanErrorKind::HandlerDataMissing, id: 0 }),
        Some(d) => if !d.enabled { Ok(None) } else { Ok(Some(d.name.clone())) },
    }
}

/// The first failing check of a listener start, given the listened and processing servers
/// found in the local store under the handler's server ids.
pub open spec fn spec_listener_plan_error(
    d: WorkerResultHandlerData,
    listen: Option<JobworkerpServer>,
    process: Option<JobworkerpServer>,
) -> Option<PlanError> {
    if d.listen_jobworkerp_server_id is None {
        Some(PlanError { kind: PlanErrorKind::ListenServerIdMissing, id: 0 })
    } else if listen is None {
        Some(PlanError { kind: PlanErrorKind::ListenServerNotFound, id: d.listen_jobworkerp_server_id->Some_0.value })
    } else if d.process_jobworkerp_server_id is None {
        Some(PlanError { kind: PlanErrorKind::ProcessServerIdMissing, id: 0 })
    } else if process is None {
        Some(PlanError { kind: PlanErrorKind::ProcessServerNotFound, id: d.process_jobworkerp_server_id->Some_0.value })
    } else if listen->Some_0.data is None {
        Some(PlanError { kind: PlanErrorKind::ListenServerDataMissing, id: 0 })
    } else if process->Some_0.data is None {
        Some(PlanError { kind: PlanErrorKind::ProcessServerDataMissing, id: 0 })
    } else {
        None
    }
}

/// What a listener runs: a worker (with its non-empty `using`) and no workflow; else the
/// workflow of the target; else the deprecated workflow fields.
pub open spec fn spec_listener_target(d: WorkerResultHandlerData) -> (Seq<char>, Option<Seq<char>>, Option<Seq<char>>, Option<Seq<char>>) {
    match d.execution_target {
        Some(ExecutionTarget::Worker(w)) => (Seq::empty(), None, Some(w.worker_name@), spec_non_empty(w.using)),
        Some(ExecutionTarget::Workflow(wf)) => (wf.workflow_url@, opt_view(wf.channel), None, None),
        None => (d.workflow_url@, opt_view(d.channel), None, None),
    }
}

/// The listener setting of a handler when every check passes: both servers by endpoint.
pub open spec fn spec_listener_plan(
    s: JobResultListenerSetting,
    handler_id: WorkerResultHandlerId,
    d: WorkerResultHandlerData,
    listen: JobworkerpServerData,
    process: JobworkerpServerData,
) -> bool {
    let t = spec_listener_target(d);
    &&& s.handler_id == Some(handler_id.value)
    &&& s.name@ == d.name@
    &&& s.listen_worker_name@ == d.listen_worker_name@
    &&& s.listen_jobworkerp@ == spec_server_endpoint(listen.ssl_enabled, listen.host@, listen.port@)
    &&& s.process_jobworkerp@ == spec_server_endpoint(process.ssl_enabled, process.host@, process.port@)
    &&& s.workflow_url@ == t.0
    &&& opt_view(s.channel) == t.1
    &&& opt_view(s.worker_name) == t.2
    &&& opt_view(s.using) == t.3
    &&& opt_view(s.args) == opt_view(d.args)
    &&& s.process_jobworkerp_server_id == Some(d.process_jobworkerp_server_id->Some_0.value)
}

/// The server behind an optional reference.
pub open spec fn deref_server(s: Option<&JobworkerpServer>) -> Option<JobworkerpServer> {
    match s {
        Some(x) => Some(*x),
        None => None,
    }
}

/// The listener setting of a stored handler, given the servers found in the local store
/// under its listened and processing server ids.
pub fn plan_listener(
    handler_id: WorkerResultHandlerId,
    d: &WorkerResultHandlerData,
    listen: Option<&JobworkerpServer>,
    process: Option<&JobworkerpServer>,
) -> (r: Result<JobResultListenerSetting, PlanError>)
    ensures
        match r {
            Ok(s) => spec_listener_plan_error(*d, deref_server(listen), deref_server(process)) is None
                && spec_listener_plan(s, handler_id, *d, listen->Some_0.data->Some_0, process->Some_0.data->Some_0),
            Err(e) => spec_listener_plan_error(*d, deref_server(listen), deref_server(process)) == Some(e),
        },
{
    let listen_id = match d.listen_jobworkerp_server_id {
        Some(id) => id,
        None => {
            return Err(PlanError { kind: PlanErrorKind::ListenServerIdMissing, id: 0 });
        },
    };
    let listen_server = match listen {
        Some(s) => s,
        None => {
            return Err(PlanError { kind: PlanErrorKind::ListenServerNotFound, id: listen_id.value });
        },
    };
    let process_id = match d.process_jobworkerp_server_id {
        Some(id) => id,
        None => {
            return Err(PlanError { kind: PlanErrorKind::ProcessServerIdMissing, id: 0 });
        },
    };
    let process_server = match process {
        Some(s) => s,
        None => {
            return Err(PlanError { kind: PlanErrorKind::ProcessServerNotFound, id: process_id.value });
        },
    };
    let listen_data = match &listen_server.data {
        Some(x) => x,
        None => {
            return Err(PlanError { kind: PlanErrorKind::ListenServerDataMissing, id: 0 });
        },
    };
    let process_data = match &process_server.data {
        Some(x) => x,
        None => {
            return Err(PlanError { kind: PlanErrorKind::ProcessServerDataMissing, id: 0 });
        },
    };
    let (workflow_url, channel, worker_name, using) = match &d.execution_target {
        Some(ExecutionTarget::Worker(w)) => (String::new(), None, Some(w.worker_name.clone()), non_empty_clone(&w.using)),
        Some(ExecutionTarget::Workflow(wf)) => (wf.workflow_url.clone(), clone_opt_string(&wf.channel), None, None),
        None => (d.workflow_url.clone(), clone_opt_string(&d.channel), None, None),
    };
    Ok(JobResultListenerSetting {
        handler_id: Some(handler_id.value),
        name: d.name.clone(),
        listen_jobworkerp: server_endpoint(listen_data),
        listen_worker_name: d.listen_worker_name.clone(),
        process_jobworkerp: server_endpoint(process_data),
        workflow_url,
        channel,
        args: clone_opt_string(&d.args),
        worker_name,
        using,
        process_jobworkerp_server_id: Some(process_id.value),
    })
}

} // verus!
