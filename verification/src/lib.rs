//! Verified core of the jobworkerp conductor: execution-status resolution, configuration
//! validation and import/export, persistence mapping, notifications, and the decisions of the
//! dynamic managers that run cron jobs and job result listeners.
pub mod model;
pub mod text;
pub mod errors;
pub mod execution_status;
pub mod execution_target;
pub mod execution_ref_query;
pub mod rows;
pub mod cache_keys;
pub mod slack_event_handler;
pub mod migration;
pub mod settings;
pub mod config_management;
pub mod dynamic;
pub mod server_manager;
pub mod result_listener;
pub mod source_resolver;
pub mod notification;
pub mod conductor;
pub mod active;
pub mod import_run;
pub mod trigger_run;
pub mod status_run;
pub mod laws;
pub mod semantics;
