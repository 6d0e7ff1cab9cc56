//! Data model of the conductor: configuration entities, execution records and the
//! enumerations exchanged with jobworkerp. Enumerations carry their wire numbers through
//! `from_i32` / `to_i32`; unknown numbers are mapped the way the protobuf decoder does.
use vstd::prelude::*;

verus! {

/// Terminal status of a job result, as reported by jobworkerp.
#[derive(Clone, Copy, Debug, PartialEq, Eq, Structural)]
pub enum ResultStatus {
    Success,
    ErrorAndRetry,
    FatalError,
    Abort,
    MaxRetry,
    OtherError,
    Cancelled,
}

impl ResultStatus {
    pub open spec fn spec_from_i32(v: i32) -> Option<ResultStatus> {
        if v == 0 {
            Some(ResultStatus::Success)
        } else if v == 1 {
            Some(ResultStatus::ErrorAndRetry)
        } else if v == 2 {
            Some(ResultStatus::FatalError)
        } else if v == 3 {
            Some(ResultStatus::Abort)
        } else if v == 4 {
            Some(ResultStatus::MaxRetry)
        } else if v == 5 {
            Some(ResultStatus::OtherError)
        } else if v == 6 {
            Some(ResultStatus::Cancelled)
        } else {
            None
        }
    }

    pub open spec fn spec_to_i32(self) -> i32 {
        match self {
            ResultStatus::Success => 0,
            ResultStatus::ErrorAndRetry => 1,
            ResultStatus::FatalError => 2,
            ResultStatus::Abort => 3,
            ResultStatus::MaxRetry => 4,
            ResultStatus::OtherError => 5,
            ResultStatus::Cancelled => 6,
        }
    }

    /// Decodes a wire number; `None` for a number that names no status.
    pub fn from_i32(v: i32) -> (r: Option<ResultStatus>)
        ensures
            r == Self::spec_from_i32(v),
    {
        if v == 0 {
            Some(ResultStatus::Success)
        } else if v == 1 {
            Some(ResultStatus::ErrorAndRetry)
        } else if v == 2 {
            Some(ResultStatus::FatalError)
        } else if v == 3 {
            Some(ResultStatus::Abort)
        } else if v == 4 {
            Some(ResultStatus::MaxRetry)
        } else if v == 5 {
            Some(ResultStatus::OtherError)
        } else if v == 6 {
            Some(ResultStatus::Cancelled)
        } else {
            None
        }
    }

    pub fn to_i32(self) -> (r: i32)
        ensures
            r == self.spec_to_i32(),
    {
        match self {
            ResultStatus::Success => 0,
            ResultStatus::ErrorAndRetry => 1,
            ResultStatus::FatalError => 2,
            ResultStatus::Abort => 3,
            ResultStatus::MaxRetry => 4,
            ResultStatus::OtherError => 5,
            ResultStatus::Cancelled => 6,
        }
    }
}

/// Live processing status of a job inside jobworkerp.
#[derive(Clone, Copy, Debug, PartialEq, Eq, Structural)]
pub enum JobProcessingStatus {
    Unknown,
    Pending,
    Running,
    WaitResult,
    Cancelling,
}

impl JobProcessingStatus {
    pub open spec fn spec_from_i32(v: i32) -> Option<JobProcessingStatus> {
        if v == 0 {
            Some(JobProcessingStatus::Unknown)
        } else if v == 1 {
            Some(JobProcessingStatus::Pending)
        } else if v == 2 {
            Some(JobProcessingStatus::Running)
        } else if v == 3 {
            Some(JobProcessingStatus::WaitResult)
        } else if v == 4 {
            Some(JobProcessingStatus::Cancelling)
        } else {
            None
        }
    }

    pub open spec fn spec_to_i32(self) -> i32 {
        match self {
            JobProcessingStatus::Unknown => 0,
            JobProcessingStatus::Pending => 1,
            JobProcessingStatus::Running => 2,
            JobProcessingStatus::WaitResult => 3,
            JobProcessingStatus::Cancelling => 4,
        }
    }

    pub fn from_i32(v: i32) -> (r: Option<JobProcessingStatus>)
        ensures
            r == Self::spec_from_i32(v),
    {
        if v == 0 {
            Some(JobProcessingStatus::Unknown)
        } else if v == 1 {
            Some(JobProcessingStatus::Pending)
        } else if v == 2 {
            Some(JobProcessingStatus::Running)
        } else if v == 3 {
            Some(JobProcessingStatus::WaitResult)
        } else if v == 4 {
            Some(JobProcessingStatus::Cancelling)
        } else {
            None
        }
    }

    pub fn to_i32(self) -> (r: i32)
        ensures
            r == self.spec_to_i32(),
    {
        match self {
            JobProcessingStatus::Unknown => 0,
            JobProcessingStatus::Pending => 1,
            JobProcessingStatus::Running => 2,
            JobProcessingStatus::WaitResult => 3,
            JobProcessingStatus::Cancelling => 4,
        }
    }
}

/// Status of an execution as reported by the conductor's status API.
#[derive(Clone, Copy, Debug, PartialEq, Eq, Structural)]
pub enum ResolvedExecutionStatus {
    Unspecified,
    Pending,
    Running,
    WaitResult,
    Cancelling,
    Succeeded,
    Failed,
    Cancelled,
    EnqueueFailed,
    Unknown,
    Unavailable,
}

impl ResolvedExecutionStatus {
    pub open spec fn spec_from_i32(v: i32) -> Option<ResolvedExecutionStatus> {
        if v == 0 {
            Some(ResolvedExecutionStatus::Unspecified)
        } else if v == 1 {
            Some(ResolvedExecutionStatus::Pending)
        } else if v == 2 {
            Some(ResolvedExecutionStatus::Running)
        } else if v == 3 {
            Some(ResolvedExecutionStatus::WaitResult)
        } else if v == 4 {
            Some(ResolvedExecutionStatus::Cancelling)
        } else if v == 5 {
            Some(ResolvedExecutionStatus::Succeeded)
        } else if v == 6 {
            Some(ResolvedExecutionStatus::Failed)
        } else if v == 7 {
            Some(ResolvedExecutionStatus::Cancelled)
        } else if v == 8 {
            Some(ResolvedExecutionStatus::EnqueueFailed)
        } else if v == 9 {
            Some(ResolvedExecutionStatus::Unknown)
        } else if v == 10 {
            Some(ResolvedExecutionStatus::Unavailable)
        } else {
            None
        }
    }

    pub open spec fn spec_to_i32(self) -> i32 {
        match self {
            ResolvedExecutionStatus::Unspecified => 0,
            ResolvedExecutionStatus::Pending => 1,
            ResolvedExecutionStatus::Running => 2,
            ResolvedExecutionStatus::WaitResult => 3,
            ResolvedExecutionStatus::Cancelling => 4,
            ResolvedExecutionStatus::Succeeded => 5,
            ResolvedExecutionStatus::Failed => 6,
            ResolvedExecutionStatus::Cancelled => 7,
            ResolvedExecutionStatus::EnqueueFailed => 8,
            ResolvedExecutionStatus::Unknown => 9,
            ResolvedExecutionStatus::Unavailable => 10,
        }
    }

    pub fn from_i32(v: i32) -> (r: Option<ResolvedExecutionStatus>)
        ensures
            r == Self::spec_from_i32(v),
    {
        if v == 0 {
            Some(ResolvedExecutionStatus::Unspecified)
        } else if v == 1 {
            Some(ResolvedExecutionStatus::Pending)
        } else if v == 2 {
            Some(ResolvedExecutionStatus::Running)
        } else if v == 3 {
            Some(ResolvedExecutionStatus::WaitResult)
        } else if v == 4 {
            Some(ResolvedExecutionStatus::Cancelling)
        } else if v == 5 {
            Some(ResolvedExecutionStatus::Succeeded)
        } else if v == 6 {
            Some(ResolvedExecutionStatus::Failed)
        } else if v == 7 {
            Some(ResolvedExecutionStatus::Cancelled)
        } else if v == 8 {
            Some(ResolvedExecutionStatus::EnqueueFailed)
        } else if v == 9 {
            Some(ResolvedExecutionStatus::Unknown)
        } else if v == 10 {
            Some(ResolvedExecutionStatus::Unavailable)
        } else {
            None
        }
    }

    pub fn to_i32(self) -> (r: i32)
        ensures
            r == self.spec_to_i32(),
    {
        match self {
            ResolvedExecutionStatus::Unspecified => 0,
            ResolvedExecutionStatus::Pending => 1,
            ResolvedExecutionStatus::Running => 2,
            ResolvedExecutionStatus::WaitResult => 3,
            ResolvedExecutionStatus::Cancelling => 4,
            ResolvedExecutionStatus::Succeeded => 5,
            ResolvedExecutionStatus::Failed => 6,
            ResolvedExecutionStatus::Cancelled => 7,
            ResolvedExecutionStatus::EnqueueFailed => 8,
            ResolvedExecutionStatus::Unknown => 9,
            ResolvedExecutionStatus::Unavailable => 10,
        }
    }
}

/// Where a resolved runtime status was observed.
#[derive(Clone, Copy, Debug, PartialEq, Eq, Structural)]
pub enum ExecutionStatusSource {
    Unspecified,
    JobProcessingStatus,
    JobResult,
    ExecutionRef,
    Unavailable,
}

impl ExecutionStatusSource {
    pub open spec fn spec_to_i32(self) -> i32 {
        match self {
            ExecutionStatusSource::Unspecified => 0,
            ExecutionStatusSource::JobProcessingStatus => 1,
            ExecutionStatusSource::JobResult => 2,
            ExecutionStatusSource::ExecutionRef => 3,
            ExecutionStatusSource::Unavailable => 4,
        }
    }

    pub fn to_i32(self) -> (r: i32)
        ensures
            r == self.spec_to_i32(),
    {
        match self {
            ExecutionStatusSource::Unspecified => 0,
            ExecutionStatusSource::JobProcessingStatus => 1,
            ExecutionStatusSource::JobResult => 2,
            ExecutionStatusSource::ExecutionRef => 3,
            ExecutionStatusSource::Unavailable => 4,
        }
    }
}

/// Kind of configuration that triggered an execution.
#[derive(Clone, Copy, Debug, PartialEq, Eq, Structural)]
pub enum ExecutionSourceType {
    Unspecified,
    CronScheduler,
    WorkerResultHandler,
    SlackEventHandler,
}

impl ExecutionSourceType {
    pub open spec fn spec_from_i32(v: i32) -> Option<ExecutionSourceType> {
        if v == 0 {
            Some(ExecutionSourceType::Unspecified)
        } else if v == 1 {
            Some(ExecutionSourceType::CronScheduler)
        } else if v == 2 {
            Some(ExecutionSourceType::WorkerResultHandler)
        } else if v == 3 {
            Some(ExecutionSourceType::SlackEventHandler)
        } else {
            None
        }
    }

    pub open spec fn spec_to_i32(self) -> i32 {
        match self {
            ExecutionSourceType::Unspecified => 0,
            ExecutionSourceType::CronScheduler => 1,
            ExecutionSourceType::WorkerResultHandler => 2,
            ExecutionSourceType::SlackEventHandler => 3,
        }
    }

    pub fn from_i32(v: i32) -> (r: Option<ExecutionSourceType>)
        ensures
            r == Self::spec_from_i32(v),
    {
        if v == 0 {
            Some(ExecutionSourceType::Unspecified)
        } else if v == 1 {
            Some(ExecutionSourceType::CronScheduler)
        } else if v == 2 {
            Some(ExecutionSourceType::WorkerResultHandler)
        } else if v == 3 {
            Some(ExecutionSourceType::SlackEventHandler)
        } else {
            None
        }
    }

    pub fn to_i32(self) -> (r: i32)
        ensures
            r == self.spec_to_i32(),
    {
        match self {
            ExecutionSourceType::Unspecified => 0,
            ExecutionSourceType::CronScheduler => 1,
            ExecutionSourceType::WorkerResultHandler => 2,
            ExecutionSourceType::SlackEventHandler => 3,
        }
    }

    /// Decodes a wire number, mapping an unknown number to `Unspecified`.
    pub fn from_i32_or_unspecified(v: i32) -> (r: ExecutionSourceType)
        ensures
            r == (match Self::spec_from_i32(v) {
                Some(t) => t,
                None => ExecutionSourceType::Unspecified,
            }),
    {
        match Self::from_i32(v) {
            Some(t) => t,
            None => ExecutionSourceType::Unspecified,
        }
    }
}

/// Which reaction events a Slack handler reacts to.
#[derive(Clone, Copy, Debug, PartialEq, Eq, Structural)]
pub enum ReactionOperation {
    Unspecified,
    Added,
    Removed,
    Both,
}

impl ReactionOperation {
    pub open spec fn spec_from_i32(v: i32) -> Option<ReactionOperation> {
        if v == 0 {
            Some(ReactionOperation::Unspecified)
        } else if v == 1 {
            Some(ReactionOperation::Added)
        } else if v == 2 {
            Some(ReactionOperation::Removed)
        } else if v == 3 {
            Some(ReactionOperation::Both)
        } else {
            None
        }
    }

    pub open spec fn spec_to_i32(self) -> i32 {
        match self {
            ReactionOperation::Unspecified => 0,
            ReactionOperation::Added => 1,
            ReactionOperation::Removed => 2,
            ReactionOperation::Both => 3,
        }
    }

    pub fn from_i32(v: i32) -> (r: Option<ReactionOperation>)
        ensures
            r == Self::spec_from_i32(v),
    {
        if v == 0 {
            Some(ReactionOperation::Unspecified)
        } else if v == 1 {
            Some(ReactionOperation::Added)
        } else if v == 2 {
            Some(ReactionOperation::Removed)
        } else if v == 3 {
            Some(ReactionOperation::Both)
        } else {
            None
        }
    }

    pub fn to_i32(self) -> (r: i32)
        ensures
            r == self.spec_to_i32(),
    {
        match self {
            ReactionOperation::Unspecified => 0,
            ReactionOperation::Added => 1,
            ReactionOperation::Removed => 2,
            ReactionOperation::Both => 3,
        }
    }
}

/// Kind of change announced by a configuration change event.
#[derive(Clone, Copy, Debug, PartialEq, Eq, Structural)]
pub enum ChangeAction {
    Unspecified,
    Created,
    Updated,
    Deleted,
}

/// Identifier of an execution record.
#[derive(Clone, Copy, Debug, PartialEq, Eq, Structural)]
pub struct ExecutionRefId {
    pub value: i64,
}

/// Identifier of a jobworkerp server configuration.
#[derive(Clone, Copy, Debug, PartialEq, Eq, Structural)]
pub struct JobworkerpServerId {
    pub value: i64,
}

/// Identifier of a cron scheduler configuration.
#[derive(Clone, Copy, Debug, PartialEq, Eq, Structural)]
pub struct CronSchedulerId {
    pub value: i64,
}

/// Identifier of a worker result handler configuration.
#[derive(Clone, Copy, Debug, PartialEq, Eq, Structural)]
pub struct WorkerResultHandlerId {
    pub value: i64,
}

/// Identifier of a Slack event handler configuration.
#[derive(Clone, Copy, Debug, PartialEq, Eq, Structural)]
pub struct SlackEventHandlerId {
    pub value: i64,
}

/// Run a workflow definition found at a URL.
#[derive(Clone, Debug)]
pub struct WorkflowExecution {
    pub workflow_url: String,
    pub channel: Option<String>,
}

/// Run a pre-registered worker by name.
#[derive(Clone, Debug)]
pub struct WorkerExecution {
    pub worker_name: String,
    pub using: Option<String>,
}

/// What a configuration runs when it fires.
#[derive(Clone, Debug)]
pub enum ExecutionTarget {
    Workflow(WorkflowExecution),
    Worker(WorkerExecution),
}

/// A record of one triggered execution.
#[derive(Clone, Debug)]
pub struct ExecutionRef {
    pub id: Option<ExecutionRefId>,
    pub source_type: i32,
    pub source_id: i64,
    pub source_name: String,
    pub jobworkerp_server_id: Option<JobworkerpServerId>,
    pub job_id: Option<i64>,
    pub triggered_at: i64,
    pub trigger_context_json: Option<String>,
    pub enqueue_error: Option<String>,
    pub created_at: i64,
    pub result_status: Option<i32>,
}

/// Connection data of a jobworkerp server.
#[derive(Clone, Debug)]
pub struct JobworkerpServerData {
    pub name: String,
    pub host: String,
    pub port: String,
    pub ssl_enabled: bool,
    pub description: Option<String>,
    pub enabled: bool,
    pub created_at: i64,
    pub updated_at: i64,
}

#[derive(Clone, Debug)]
pub struct JobworkerpServer {
    pub id: Option<JobworkerpServerId>,
    pub data: Option<JobworkerpServerData>,
}

/// A cron-driven execution configuration.
#[derive(Clone, Debug)]
pub struct CronSchedulerData {
    pub name: String,
    pub jobworkerp_server_id: Option<JobworkerpServerId>,
    pub workflow_url: String,
    pub channel: Option<String>,
    pub crontab: String,
    pub enabled: bool,
    pub description: Option<String>,
    pub created_at: i64,
    pub updated_at: i64,
    pub args: Option<String>,
    pub execution_target: Option<ExecutionTarget>,
}

#[derive(Clone, Debug)]
pub struct CronScheduler {
    pub id: Option<CronSchedulerId>,
    pub data: Option<CronSchedulerData>,
}

/// A configuration that reacts to job results of a listened worker.
#[derive(Clone, Debug)]
pub struct WorkerResultHandlerData {
    pub name: String,
    pub listen_jobworkerp_server_id: Option<JobworkerpServerId>,
    pub listen_worker_name: String,
    pub process_jobworkerp_server_id: Option<JobworkerpServerId>,
    pub workflow_url: String,
    pub channel: Option<String>,
    pub enabled: bool,
    pub description: Option<String>,
    pub created_at: i64,
    pub updated_at: i64,
    pub args: Option<String>,
    pub execution_target: Option<ExecutionTarget>,
}

#[derive(Clone, Debug)]
pub struct WorkerResultHandler {
    pub id: Option<WorkerResultHandlerId>,
    pub data: Option<WorkerResultHandlerData>,
}

/// A configuration that reacts to Slack messages or reactions.
#[derive(Clone, Debug)]
pub struct SlackEventHandlerData {
    pub name: String,
    pub description: String,
    pub enabled: bool,
    pub slack_channel_id: Option<String>,
    pub message_pattern: Option<String>,
    pub mention_required: bool,
    pub reaction_names: Option<String>,
    pub reaction_operation: i32,
    pub reaction_user_filter: Option<String>,
    pub jobworkerp_server_id: Option<JobworkerpServerId>,
    pub workflow_url: String,
    pub channel: String,
    pub timeout_sec: Option<i32>,
    pub args: Option<String>,
    pub created_at: i64,
    pub updated_at: i64,
    pub execution_target: Option<ExecutionTarget>,
}

#[derive(Clone, Debug)]
pub struct SlackEventHandler {
    pub id: Option<SlackEventHandlerId>,
    pub data: Option<SlackEventHandlerData>,
}

/// The runtime status of an execution as answered by the status API.
#[derive(Clone, Debug)]
pub struct ExecutionRuntimeStatus {
    pub execution_ref: Option<ExecutionRef>,
    pub resolved_status: i32,
    pub status_source: i32,
    pub observed_at: i64,
    pub detail: Option<String>,
}

} // verus!
