//! Validation of what a configuration runs (a workflow URL or a named worker), and the
//! flat column form in which it is stored.
use vstd::prelude::*;
use crate::model::{
    CronSchedulerData, ExecutionTarget, SlackEventHandlerData, WorkerExecution,
    WorkerResultHandlerData, WorkflowExecution,
};
use crate::text::{clone_opt_string, non_empty_clone, opt_view};

verus! {

/// Why an execution target is rejected, if it is: a workflow target needs a URL, a worker
/// target needs a worker name, and without a target the deprecated `workflow_url` field
/// must be set.
pub open spec fn spec_execution_target_error(
    target: Option<ExecutionTarget>,
    workflow_url: Seq<char>,
) -> Option<Seq<char>> {
    match target {
        Some(ExecutionTarget::Workflow(wf)) => if wf.workflow_url@.len() == 0 {
            Some("workflow_url in execution_target must not be empty"@)
        } else {
            None
        },
        Some(ExecutionTarget::Worker(w)) => if w.worker_name@.len() == 0 {
            Some("worker_name in execution_target must not be empty"@)
        } else {
            None
        },
        None => if workflow_url.len() == 0 {
            Some("No execution target specified: set execution_target or workflow_url"@)
        } else {
            None
        },
    }
}

/// The result of a validation from its spec-level error.
pub open spec fn matches_error(r: Result<(), String>, e: Option<Seq<char>>) -> bool {
    match r {
        Ok(()) => e is None,
        Err(m) => e == Some(m@),
    }
}

/// Validates an execution target together with the deprecated `workflow_url` fallback.
pub fn validate_execution_target_impl(target: &Option<ExecutionTarget>, workflow_url: &str) -> (r: Result<(), String>)
    ensures
        matches_error(r, spec_execution_target_error(*target, workflow_url@)),
{
    match target {
        Some(ExecutionTarget::Workflow(wf)) => if wf.workflow_url.as_str().is_empty() {
            Err(String::from_str("workflow_url in execution_target must not be empty"))
        } else {
            Ok(())
        },
        Some(ExecutionTarget::Worker(w)) => if w.worker_name.as_str().is_empty() {
            Err(String::from_str("worker_name in execution_target must not be empty"))
        } else {
            Ok(())
        },
        None => if workflow_url.is_empty() {
            Err(String::from_str("No execution target specified: set execution_target or workflow_url"))
        } else {
            Ok(())
        },
    }
}

impl CronSchedulerData {
    /// Validates the scheduler's execution target.
    pub fn validate_execution_target(&self) -> (r: Result<(), String>)
        ensures
            matches_error(r, spec_execution_target_error(self.execution_target, self.workflow_url@)),
    {
        validate_execution_target_impl(&self.execution_target, self.workflow_url.as_str())
    }
}

impl WorkerResultHandlerData {
    /// Validates the handler's execution target.
    pub fn validate_execution_target(&self) -> (r: Result<(), String>)
        ensures
            matches_error(r, spec_execution_target_error(self.execution_target, self.workflow_url@)),
    {
        validate_execution_target_impl(&self.execution_target, self.workflow_url.as_str())
    }
}

impl SlackEventHandlerData {
    /// Validates the handler's execution target.
    pub fn validate_execution_target(&self) -> (r: Result<(), String>)
        ensures
            matches_error(r, spec_execution_target_error(self.execution_target, self.workflow_url@)),
    {
        validate_execution_target_impl(&self.execution_target, self.workflow_url.as_str())
    }
}

/// The stored columns of an execution target: `(workflow_url, channel, worker_name, using)`.
/// A workflow target stores its URL and channel; a worker target stores an empty URL, its
/// worker name and a non-empty `using`; without a target the deprecated fields are stored.
pub open spec fn spec_flatten(
    target: Option<ExecutionTarget>,
    workflow_url: Seq<char>,
    channel: Option<Seq<char>>,
) -> (Seq<char>, Option<Seq<char>>, Option<Seq<char>>, Option<Seq<char>>) {
    match target {
        Some(ExecutionTarget::Workflow(wf)) => (wf.workflow_url@, opt_view(wf.channel), None, None),
        Some(ExecutionTarget::Worker(w)) => (
            Seq::<char>::empty(),
            None,
            Some(w.worker_name@),
            match w.using {
                Some(u) => if u@.len() > 0 { Some(u@) } else { None },
                None => None,
            },
        ),
        None => (workflow_url, channel, None, None),
    }
}

/// The views of the four stored columns.
pub open spec fn columns_view(c: (String, Option<String>, Option<String>, Option<String>)) -> (
    Seq<char>,
    Option<Seq<char>>,
    Option<Seq<char>>,
    Option<Seq<char>>,
) {
    (c.0@, opt_view(c.1), opt_view(c.2), opt_view(c.3))
}

fn flatten(target: &Option<ExecutionTarget>, workflow_url: &String, channel: &Option<String>) -> (r: (
    String,
    Option<String>,
    Option<String>,
    Option<String>,
))
    ensures
        columns_view(r) == spec_flatten(*target, workflow_url@, opt_view(*channel)),
{
    match target {
        Some(ExecutionTarget::Workflow(wf)) => (wf.workflow_url.clone(), clone_opt_string(&wf.channel), None, None),
        Some(ExecutionTarget::Worker(w)) => (
            String::new(),
            None,
            Some(w.worker_name.clone()),
            non_empty_clone(&w.using),
        ),
        None => (workflow_url.clone(), clone_opt_string(channel), None, None),
    }
}

/// The stored columns of a cron scheduler's execution target.
pub fn flatten_cron_scheduler_target(data: &CronSchedulerData) -> (r: (
    String,
    Option<String>,
    Option<String>,
    Option<String>,
))
    ensures
        columns_view(r) == spec_flatten(data.execution_target, data.workflow_url@, opt_view(data.channel)),
{
    flatten(&data.execution_target, &data.workflow_url, &data.channel)
}

/// The stored columns of a worker result handler's execution target.
pub fn flatten_worker_result_handler_target(data: &WorkerResultHandlerData) -> (r: (
    String,
    Option<String>,
    Option<String>,
    Option<String>,
))
    ensures
        columns_view(r) == spec_flatten(data.execution_target, data.workflow_url@, opt_view(data.channel)),
{
    flatten(&data.execution_target, &data.workflow_url, &data.channel)
}

/// The stored columns of a Slack handler's execution target; its channel column is a plain
/// string, empty when absent.
pub fn flatten_slack_event_handler_target(data: &SlackEventHandlerData) -> (r: (
    String,
    String,
    Option<String>,
    Option<String>,
))
    ensures
        (r.0@, Some(r.1@), opt_view(r.2), opt_view(r.3)) == (match spec_flatten(
            data.execution_target,
            data.workflow_url@,
            Some(data.channel@),
        ) {
            (u, c, n, us) => (u, match c {
                Some(c) => Some(c),
                None => Some(Seq::<char>::empty()),
            }, n, us),
        }),
{
    let legacy_channel = Some(data.channel.clone());
    let (u, c, n, us) = flatten(&data.execution_target, &data.workflow_url, &legacy_channel);
    let c2 = match c {
        Some(c) => c,
        None => String::new(),
    };
    (u, c2, n, us)
}

/// The execution target read back from stored columns: a non-empty worker name makes a
/// worker target, else a non-empty URL a workflow target, else there is none.
pub open spec fn spec_target_from_columns(
    workflow_url: Seq<char>,
    channel: Option<Seq<char>>,
    worker_name: Option<Seq<char>>,
    using: Option<Seq<char>>,
) -> Option<(bool, Seq<char>, Option<Seq<char>>)> {
    match worker_name {
        Some(n) if n.len() > 0 => Some((true, n, using)),
        _ => if workflow_url.len() > 0 {
            Some((false, workflow_url, channel))
        } else {
            None
        },
    }
}

/// The view of an execution target: whether it is a worker, its URL or worker name, and its
/// channel or `using`.
pub open spec fn target_view(t: Option<ExecutionTarget>) -> Option<(bool, Seq<char>, Option<Seq<char>>)> {
    match t {
        Some(ExecutionTarget::Worker(w)) => Some((true, w.worker_name@, opt_view(w.using))),
        Some(ExecutionTarget::Workflow(wf)) => Some((false, wf.workflow_url@, opt_view(wf.channel))),
        None => None,
    }
}

/// Rebuilds the execution target from stored columns.
pub fn target_from_columns(
    workflow_url: &String,
    channel: &Option<String>,
    worker_name: &Option<String>,
    using: &Option<String>,
) -> (r: Option<ExecutionTarget>)
    ensures
        target_view(r) == spec_target_from_columns(workflow_url@, opt_view(*channel), opt_view(*worker_name), opt_view(*using)),
{
    match worker_name {
        Some(n) => if !n.as_str().is_empty() {
            return Some(ExecutionTarget::Worker(WorkerExecution {
                worker_name: n.clone(),
                using: clone_opt_string(using),
            }));
        },
        None => {},
    }
    if !workflow_url.as_str().is_empty() {
        Some(ExecutionTarget::Workflow(WorkflowExecution {
            workflow_url: workflow_url.clone(),
            channel: clone_opt_string(channel),
        }))
    } else {
        None
    }
}

} // verus!
