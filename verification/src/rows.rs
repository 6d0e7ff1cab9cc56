//! Database rows of the configuration and execution tables, and their conversion into the
//! data model.
use vstd::prelude::*;
use crate::model::{
    ExecutionRef, ExecutionRefId, ExecutionSourceType, JobworkerpServer, JobworkerpServerData,
    JobworkerpServerId, ReactionOperation, SlackEventHandler, SlackEventHandlerData,
    SlackEventHandlerId, WorkerResultHandler, WorkerResultHandlerData, WorkerResultHandlerId,
};
use crate::execution_target::{spec_target_from_columns, target_from_columns, target_view};
use crate::text::{clone_opt_string, opt_view, unwrap_or_empty};

verus! {

/// A row of the `execution_ref` table.
pub struct ExecutionRefRow {
    pub id: i64,
    pub source_type: i32,
    pub source_id: i64,
    pub source_name: String,
    pub jobworkerp_server_id: i64,
    pub job_id: Option<i64>,
    pub triggered_at: i64,
    pub trigger_context_json: Option<String>,
    pub enqueue_error: Option<String>,
    pub created_at: i64,
    pub result_status: Option<i32>,
}

impl ExecutionRefRow {
    /// The execution record of the row; an unknown source type number becomes `Unspecified`.
    pub fn to_proto(&self) -> (r: ExecutionRef)
        ensures
            r.id == Some(ExecutionRefId { value: self.id }),
            r.source_type == (match ExecutionSourceType::spec_from_i32(self.source_type) {
                Some(t) => t,
                None => ExecutionSourceType::Unspecified,
            }).spec_to_i32(),
            r.source_id == self.source_id,
            r.source_name@ == self.source_name@,
            r.jobworkerp_server_id == Some(JobworkerpServerId { value: self.jobworkerp_server_id }),
            r.job_id == self.job_id,
            r.triggered_at == self.triggered_at,
            opt_view(r.trigger_context_json) == opt_view(self.trigger_context_json),
            opt_view(r.enqueue_error) == opt_view(self.enqueue_error),
            r.created_at == self.created_at,
            r.result_status == self.result_status,
    {
        ExecutionRef {
            id: Some(ExecutionRefId { value: self.id }),
            source_type: ExecutionSourceType::from_i32_or_unspecified(self.source_type).to_i32(),
            source_id: self.source_id,
            source_name: self.source_name.clone(),
            jobworkerp_server_id: Some(JobworkerpServerId { value: self.jobworkerp_server_id }),
            job_id: self.job_id,
            triggered_at: self.triggered_at,
            trigger_context_json: clone_opt_string(&self.trigger_context_json),
            enqueue_error: clone_opt_string(&self.enqueue_error),
            created_at: self.created_at,
            result_status: self.result_status,
        }
    }
}

/// A row of the `jobworkerp_server` table.
pub struct JobworkerpServerRow {
    pub id: i64,
    pub name: String,
    pub host: String,
    pub port: String,
    pub ssl_enabled: bool,
    pub description: Option<String>,
    pub enabled: bool,
    pub created_at: i64,
    pub updated_at: i64,
}

impl JobworkerpServerRow {
    /// The server configuration of the row.
    pub fn to_proto(&self) -> (r: JobworkerpServer)
        ensures
            r.id == Some(JobworkerpServerId { value: self.id }),
            r.data matches Some(d) && d.name@ == self.name@ && d.host@ == self.host@
                && d.port@ == self.port@ && d.ssl_enabled == self.ssl_enabled
                && opt_view(d.description) == opt_view(self.description)
                && d.enabled == self.enabled && d.created_at == self.created_at
                && d.updated_at == self.updated_at,
    {
        JobworkerpServer {
            id: Some(JobworkerpServerId { value: self.id }),
            data: Some(JobworkerpServerData {
                name: self.name.clone(),
                host: self.host.clone(),
                port: self.port.clone(),
                ssl_enabled: self.ssl_enabled,
                description: clone_opt_string(&self.description),
                enabled: self.enabled,
                created_at: self.created_at,
                updated_at: self.updated_at,
            }),
        }
    }
}

/// The reaction operation stored as text: `added`, `removed`, `both`; anything else
/// (including no value) is unspecified.
pub open spec fn spec_reaction_operation_from_db(value: Option<Seq<char>>) -> ReactionOperation {
    match value {
        Some(s) => if s == "added"@ {
            ReactionOperation::Added
        } else if s == "removed"@ {
            ReactionOperation::Removed
        } else if s == "both"@ {
            ReactionOperation::Both
        } else {
            ReactionOperation::Unspecified
        },
        None => ReactionOperation::Unspecified,
    }
}

/// The text a reaction operation (wire number) is stored as; unspecified and unknown
/// numbers are stored as no value.
pub open spec fn spec_reaction_operation_to_db(op: i32) -> Option<Seq<char>> {
    match ReactionOperation::spec_from_i32(op) {
        Some(ReactionOperation::Added) => Some("added"@),
        Some(ReactionOperation::Removed) => Some("removed"@),
        Some(ReactionOperation::Both) => Some("both"@),
        _ => None,
    }
}

/// Converts the stored text of a reaction operation to its wire number.
pub fn reaction_operation_from_db(value: Option<&String>) -> (r: i32)
    ensures
        r == spec_reaction_operation_from_db(match value { Some(s) => Some(s@), None => None }).spec_to_i32(),
{
    match value {
        Some(s) => {
            let added = String::from_str("added");
            let removed = String::from_str("removed");
            let both = String::from_str("both");
            if *s == added {
                ReactionOperation::Added.to_i32()
            } else if *s == removed {
                ReactionOperation::Removed.to_i32()
            } else if *s == both {
                ReactionOperation::Both.to_i32()
            } else {
                ReactionOperation::Unspecified.to_i32()
            }
        },
        None => ReactionOperation::Unspecified.to_i32(),
    }
}

/// Converts a reaction operation (wire number) to the text it is stored as.
pub fn reaction_operation_to_db(op: i32) -> (r: Option<String>)
    ensures
        opt_view(r) == spec_reaction_operation_to_db(op),
{
    match ReactionOperation::from_i32(op) {
        Some(ReactionOperation::Added) => Some(String::from_str("added")),
        Some(ReactionOperation::Removed) => Some(String::from_str("removed")),
        Some(ReactionOperation::Both) => Some(String::from_str("both")),
        _ => None,
    }
}

/// A row of the `slack_event_handler` table.
pub struct SlackEventHandlerRow {
    pub id: i64,
    pub name: String,
    pub description: Option<String>,
    pub enabled: bool,
    pub slack_channel_id: Option<String>,
    pub message_pattern: Option<String>,
    pub mention_required: bool,
    pub reaction_names: Option<String>,
    pub reaction_operation: Option<String>,
    pub reaction_user_filter: Option<String>,
    pub jobworkerp_server_id: i64,
    pub workflow_url: String,
    pub channel: Option<String>,
    pub timeout_sec: i32,
    pub args: Option<String>,
    pub worker_name: Option<String>,
    pub using: Option<String>,
    pub created_at: i64,
    pub updated_at: i64,
}

impl SlackEventHandlerRow {
    /// The Slack handler configuration of the row. The execution target is rebuilt from the
    /// target columns; the deprecated `workflow_url` / `channel` fields are filled too.
    pub fn to_proto(&self) -> (r: SlackEventHandler)
        ensures
            r.id == Some(SlackEventHandlerId { value: self.id }),
            r.data matches Some(d) && d.name@ == self.name@
                && d.description@ == (match self.description { Some(s) => s@, None => Seq::<char>::empty() })
                && d.enabled == self.enabled
                && opt_view(d.slack_channel_id) == opt_view(self.slack_channel_id)
                && opt_view(d.message_pattern) == opt_view(self.message_pattern)
                && d.mention_required == self.mention_required
                && opt_view(d.reaction_names) == opt_view(self.reaction_names)
                && d.reaction_operation == spec_reaction_operation_from_db(opt_view(self.reaction_operation)).spec_to_i32()
                && opt_view(d.reaction_user_filter) == opt_view(self.reaction_user_filter)
                && d.jobworkerp_server_id == Some(JobworkerpServerId { value: self.jobworkerp_server_id })
                && d.workflow_url@ == self.workflow_url@
                && d.channel@ == (match self.channel { Some(s) => s@, None => Seq::<char>::empty() })
                && d.timeout_sec == Some(self.timeout_sec)
                && opt_view(d.args) == opt_view(self.args)
                && d.created_at == self.created_at && d.updated_at == self.updated_at
                && target_view(d.execution_target) == spec_target_from_columns(
                    self.workflow_url@,
                    opt_view(self.channel),
                    opt_view(self.worker_name),
                    opt_view(self.using),
                ),
    {
        let execution_target = target_from_columns(&self.workflow_url, &self.channel, &self.worker_name, &self.using);
        let reaction_operation = match &self.reaction_operation {
            Some(s) => reaction_operation_from_db(Some(s)),
            None => reaction_operation_from_db(None),
        };
        SlackEventHandler {
            id: Some(SlackEventHandlerId { value: self.id }),
            data: Some(SlackEventHandlerData {
                name: self.name.clone(),
                description: unwrap_or_empty(&self.description),
                enabled: self.enabled,
                slack_channel_id: clone_opt_string(&self.slack_channel_id),
                message_pattern: clone_opt_string(&self.message_pattern),
                mention_required: self.mention_required,
                reaction_names: clone_opt_string(&self.reaction_names),
                reaction_operation,
                reaction_user_filter: clone_opt_string(&self.reaction_user_filter),
                jobworkerp_server_id: Some(JobworkerpServerId { value: self.jobworkerp_server_id }),
                workflow_url: self.workflow_url.clone(),
                channel: unwrap_or_empty(&self.channel),
                timeout_sec: Some(self.timeout_sec),
                args: clone_opt_string(&self.args),
                created_at: self.created_at,
                updated_at: self.updated_at,
                execution_target,
            }),
        }
    }
}

/// A row of the `worker_result_handler` table.
pub struct WorkerResultHandlerRow {
    pub id: i64,
    pub name: String,
    pub listen_jobworkerp_server_id: i64,
    pub listen_worker_name: String,
    pub process_jobworkerp_server_id: i64,
    pub workflow_url: String,
    pub channel: Option<String>,
    pub enabled: bool,
    pub description: Option<String>,
    pub created_at: i64,
    pub updated_at: i64,
    pub args: Option<String>,
    pub worker_name: Option<String>,
    pub using: Option<String>,
}

impl WorkerResultHandlerRow {
    /// The worker result handler configuration of the row. The execution target is rebuilt
    /// from the target columns; the deprecated `workflow_url` / `channel` fields are filled too.
    pub fn to_proto(&self) -> (r: WorkerResultHandler)
        ensures
            r.id == Some(WorkerResultHandlerId { value: self.id }),
            r.data matches Some(d) && d.name@ == self.name@
                && d.listen_jobworkerp_server_id == Some(JobworkerpServerId { value: self.listen_jobworkerp_server_id })
                && d.listen_worker_name@ == self.listen_worker_name@
                && d.process_jobworkerp_server_id == Some(JobworkerpServerId { value: self.process_jobworkerp_server_id })
                && d.workflow_url@ == self.workflow_url@
                && opt_view(d.channel) == opt_view(self.channel)
                && d.enabled == self.enabled
                && opt_view(d.description) == opt_view(self.description)
                && d.created_at == self.created_at && d.updated_at == self.updated_at
                && opt_view(d.args) == opt_view(self.args)
                && target_view(d.execution_target) == spec_target_from_columns(
                    self.workflow_url@,
                    opt_view(self.channel),
                    opt_view(self.worker_name),
                    opt_view(self.using),
                ),
    {
        let execution_target = target_from_columns(&self.workflow_url, &self.channel, &self.worker_name, &self.using);
        WorkerResultHandler {
            id: Some(WorkerResultHandlerId { value: self.id }),
            data: Some(WorkerResultHandlerData {
                name: self.name.clone(),
                listen_jobworkerp_server_id: Some(JobworkerpServerId { value: self.listen_jobworkerp_server_id }),
                listen_worker_name: self.listen_worker_name.clone(),
                process_jobworkerp_server_id: Some(JobworkerpServerId { value: self.process_jobworkerp_server_id }),
                workflow_url: self.workflow_url.clone(),
                channel: clone_opt_string(&self.channel),
                enabled: self.enabled,
                description: clone_opt_string(&self.description),
                created_at: self.created_at,
                updated_at: self.updated_at,
                args: clone_opt_string(&self.args),
                execution_target,
            }),
        }
    }
}

} // verus!
