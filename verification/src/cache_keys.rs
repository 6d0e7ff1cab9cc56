//! Keys of the in-memory caches of the configuration apps: one key by id and one by name for
//! each kind of configuration.
use vstd::prelude::*;
use crate::text::{i64_to_string, spec_decimal_int};

verus! {

/// The cache keys of cron scheduler configurations.
pub struct CronSchedulerKeys;

impl CronSchedulerKeys {
    /// The key of the cron scheduler with id `id`: `cron_scheduler_id:<id>`.
    pub fn find_cache_key(id: i64) -> (r: String)
        ensures
            r@ == "cron_scheduler_id:"@ + spec_decimal_int(id as int),
    {
        String::from_str("cron_scheduler_id:").concat(i64_to_string(id).as_str())
    }

    /// The key of the cron scheduler named `name`: `cron_scheduler_name:<name>`.
    pub fn find_by_name_cache_key(name: &str) -> (r: String)
        ensures
            r@ == "cron_scheduler_name:"@ + name@,
    {
        String::from_str("cron_scheduler_name:").concat(name)
    }
}

/// The cache keys of worker result handler configurations.
pub struct WorkerResultHandlerKeys;

impl WorkerResultHandlerKeys {
    /// The key of the worker result handler with id `id`: `worker_result_handler_id:<id>`.
    pub fn find_cache_key(id: i64) -> (r: String)
        ensures
            r@ == "worker_result_handler_id:"@ + spec_decimal_int(id as int),
    {
        String::from_str("worker_result_handler_id:").concat(i64_to_string(id).as_str())
    }

    /// The key of the worker result handler named `name`: `worker_result_handler_name:<name>`.
    pub fn find_by_name_cache_key(name: &str) -> (r: String)
        ensures
            r@ == "worker_result_handler_name:"@ + name@,
    {
        String::from_str("worker_result_handler_name:").concat(name)
    }
}

/// The cache keys of jobworkerp server configurations.
pub struct JobworkerpServerKeys;

impl JobworkerpServerKeys {
    /// The key of the jobworkerp server with id `id`: `jobworkerp_server_id:<id>`.
    pub fn find_cache_key(id: i64) -> (r: String)
        ensures
            r@ == "jobworkerp_server_id:"@ + spec_decimal_int(id as int),
    {
        String::from_str("jobworkerp_server_id:").concat(i64_to_string(id).as_str())
    }

    /// The key of the jobworkerp server named `name`: `jobworkerp_server_name:<name>`.
    pub fn find_by_name_cache_key(name: &str) -> (r: String)
        ensures
            r@ == "jobworkerp_server_name:"@ + name@,
    {
        String::from_str("jobworkerp_server_name:").concat(name)
    }
}

/// The cache keys of Slack event handler configurations.
pub struct SlackEventHandlerKeys;

impl SlackEventHandlerKeys {
    /// The key of the Slack event handler with id `id`: `slack_event_handler_id:<id>`.
    pub fn find_cache_key(id: i64) -> (r: String)
        ensures
            r@ == "slack_event_handler_id:"@ + spec_decimal_int(id as int),
    {
        String::from_str("slack_event_handler_id:").concat(i64_to_string(id).as_str())
    }

    /// The key of the Slack event handler named `name`: `slack_event_handler_name:<name>`.
    pub fn find_by_name_cache_key(name: &str) -> (r: String)
        ensures
            r@ == "slack_event_handler_name:"@ + name@,
    {
        String::from_str("slack_event_handler_name:").concat(name)
    }
}

} // verus!
