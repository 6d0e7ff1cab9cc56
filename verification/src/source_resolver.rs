//! Resolution of the source configuration of a manual trigger: the cron scheduler, its
//! server's endpoint and what it is configured with.
use vstd::prelude::*;
use crate::errors::UiEventHandlerError;
use crate::execution_status::{check_trigger_source, server_endpoint, spec_server_endpoint, spec_source_type_name};
use crate::model::{CronScheduler, ExecutionSourceType, JobworkerpServer, JobworkerpServerId};
use crate::text::{clone_opt_string, i64_to_string, opt_view, spec_decimal_int};

verus! {

/// The endpoint of the server found (or not) under `server_id`; a missing server or missing
/// data is not found.
pub fn endpoint_for(server_id: JobworkerpServerId, server: Option<&JobworkerpServer>) -> (r: Result<String, UiEventHandlerError>)
    ensures
        match server {
            None => r matches Err(UiEventHandlerError::NotFound(m))
                && m@ == "jobworkerp server not found: id="@ + spec_decimal_int(server_id.value as int),
            Some(s) => match s.data {
                None => r matches Err(UiEventHandlerError::NotFound(m)) && m@ == "jobworkerp server data is missing"@,
                Some(d) => r matches Ok(e) && e@ == spec_server_endpoint(d.ssl_enabled, d.host@, d.port@),
            },
        },
{
    match server {
        None => Err(UiEventHandlerError::NotFound(
            String::from_str("jobworkerp server not found: id=").concat(i64_to_string(server_id.value).as_str()),
        )),
        Some(s) => match &s.data {
            None => Err(UiEventHandlerError::NotFound(String::from_str("jobworkerp server data is missing"))),
            Some(d) => Ok(server_endpoint(d)),
        },
    }
}

/// What a cron scheduler contributes to a manual trigger, besides its target.
#[derive(Clone, Debug)]
pub struct CronSource {
    pub configured_args: Option<String>,
    pub source_name: String,
    pub jobworkerp_server_id: JobworkerpServerId,
}

/// The cron scheduler source of a manual trigger, found (or not) under `source_id`: only cron
/// schedulers can be triggered; a missing scheduler, data or server id is not found.
pub fn resolve_cron_source(
    source_type: ExecutionSourceType,
    source_id: i64,
    cron: Option<&CronScheduler>,
) -> (r: Result<CronSource, UiEventHandlerError>)
    ensures
        source_type != ExecutionSourceType::CronScheduler ==> (r matches Err(UiEventHandlerError::Unimplemented(m))
            && m@ == "manual trigger is only supported for CRON_SCHEDULER, got "@ + spec_source_type_name(source_type)),
        source_type == ExecutionSourceType::CronScheduler ==> match cron {
            None => r matches Err(UiEventHandlerError::NotFound(m))
                && m@ == "cron scheduler not found: id="@ + spec_decimal_int(source_id as int),
            Some(c) => match c.data {
                None => r matches Err(UiEventHandlerError::NotFound(m)) && m@ == "cron scheduler data is missing"@,
                Some(d) => match d.jobworkerp_server_id {
                    None => r matches Err(UiEventHandlerError::NotFound(m))
                        && m@ == "cron scheduler jobworkerp_server_id is missing"@,
                    Some(sid) => r matches Ok(s) && s.jobworkerp_server_id == sid && s.source_name@ == d.name@
                        && opt_view(s.configured_args) == opt_view(d.args),
                },
            },
        },
{
    match check_trigger_source(source_type) {
        Err(e) => {
            return Err(e);
        },
        Ok(()) => {},
    }
    let c = match cron {
        Some(c) => c,
        None => {
            return Err(UiEventHandlerError::NotFound(
                String::from_str("cron scheduler not found: id=").concat(i64_to_string(source_id).as_str()),
            ));
        },
    };
    let d = match &c.data {
        Some(d) => d,
        None => {
            return Err(UiEventHandlerError::NotFound(String::from_str("cron scheduler data is missing")));
        },
    };
    match d.jobworkerp_server_id {
        None => Err(UiEventHandlerError::NotFound(String::from_str("cron scheduler jobworkerp_server_id is missing"))),
        Some(sid) => Ok(CronSource {
            configured_args: clone_opt_string(&d.args),
            source_name: d.name.clone(),
            jobworkerp_server_id: sid,
        }),
    }
}

} // verus!
