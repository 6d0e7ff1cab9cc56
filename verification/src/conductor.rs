//! The conductor program: which mode a command line selects, and what the cron jobs of the
//! settings file run.
use vstd::prelude::*;
use crate::settings::SchedulerSetting;
use crate::text::{clone_opt_string, opt_view};

verus! {

/// The subcommand given on the command line.
#[derive(Clone, Debug)]
pub enum CliCommand {
    /// Serve, from the database or (legacy) from a settings file.
    Serve { legacy_mode: bool, file_settings_toml: String },
    /// Register the conductor's admin workers on a jobworkerp server.
    RegisterWorkers { jobworkerp_url: String, conductor_grpc_url: String },
    /// Unregister them.
    UnregisterWorkers { jobworkerp_url: String },
}

/// What the program does.
#[derive(Clone, Debug)]
pub enum RunMode {
    /// Serve the configurations of the database.
    DbDriven,
    /// Serve the configurations of a settings file.
    Legacy { file_settings_toml: String },
    RegisterWorkers { jobworkerp_url: String, conductor_grpc_url: String },
    UnregisterWorkers { jobworkerp_url: String },
}

/// The mode of a command line: without a subcommand, or serving without the legacy flag, the
/// database-driven server.
pub fn run_mode(command: Option<CliCommand>) -> (r: RunMode)
    ensures
        match command {
            None => r is DbDriven,
            Some(CliCommand::Serve { legacy_mode, file_settings_toml }) => if legacy_mode {
                r matches RunMode::Legacy { file_settings_toml: f } && f@ == file_settings_toml@
            } else {
                r is DbDriven
            },
            Some(CliCommand::RegisterWorkers { jobworkerp_url, conductor_grpc_url }) =>
                r matches RunMode::RegisterWorkers { jobworkerp_url: j, conductor_grpc_url: c }
                    && j@ == jobworkerp_url@ && c@ == conductor_grpc_url@,
            Some(CliCommand::UnregisterWorkers { jobworkerp_url }) =>
                r matches RunMode::UnregisterWorkers { jobworkerp_url: j } && j@ == jobworkerp_url@,
        },
{
    match command {
        None => RunMode::DbDriven,
        Some(CliCommand::Serve { legacy_mode, file_settings_toml }) => if legacy_mode {
            RunMode::Legacy { file_settings_toml }
        } else {
            RunMode::DbDriven
        },
        Some(CliCommand::RegisterWorkers { jobworkerp_url, conductor_grpc_url }) =>
            RunMode::RegisterWorkers { jobworkerp_url, conductor_grpc_url },
        Some(CliCommand::UnregisterWorkers { jobworkerp_url }) => RunMode::UnregisterWorkers { jobworkerp_url },
    }
}

/// What one firing of a cron job of the settings file runs.
#[derive(Clone, Debug)]
pub enum CronRun {
    /// A worker by name, on the scheduler's server, with its arguments and `using`.
    Worker { worker_name: String, args: Option<String>, using: Option<String> },
    /// A workflow by URL with the arguments as input (`{}` without arguments).
    Workflow { workflow_url: String, input: String, channel: Option<String> },
}

/// The run of a scheduler of the settings file: its worker whenever a worker name is given,
/// else its workflow.
pub fn cron_run(setting: &SchedulerSetting) -> (r: CronRun)
    ensures
        match setting.worker_name {
            Some(w) => r matches CronRun::Worker { worker_name, args, using } && worker_name@ == w@
                && opt_view(args) == opt_view(setting.args) && opt_view(using) == opt_view(setting.using),
            None => r matches CronRun::Workflow { workflow_url, input, channel }
                && workflow_url@ == setting.workflow_url@ && opt_view(channel) == opt_view(setting.channel)
                && input@ == (match setting.args { Some(a) => a@, None => "{}"@ }),
        },
{
    match &setting.worker_name {
        Some(w) => CronRun::Worker {
            worker_name: w.clone(),
            args: clone_opt_string(&setting.args),
            using: clone_opt_string(&setting.using),
        },
        None => CronRun::Workflow {
            workflow_url: setting.workflow_url.clone(),
            input: match &setting.args {
                Some(a) => a.clone(),
                None => String::from_str("{}"),
            },
            channel: clone_opt_string(&setting.channel),
        },
    }
}

/// The index of the first registered scheduler named `name`, whose job a stop removes.
pub fn first_setting_named(settings: &Vec<SchedulerSetting>, name: &str) -> (r: Option<usize>)
    ensures
        match r {
            Some(i) => i < settings@.len() && settings@[i as int].name@ == name@
                && forall|k: int| 0 <= k < i ==> #[trigger] settings@[k].name@ != name@,
            None => forall|k: int| 0 <= k < settings@.len() ==> #[trigger] settings@[k].name@ != name@,
        },
{
    let key = String::from_str(name);
    let mut i: usize = 0;
    while i < settings.len()
        invariant
            key@ == name@,
            i <= settings@.len(),
            forall|k: int| 0 <= k < i ==> #[trigger] settings@[k].name@ != name@,
        decreases settings@.len() - i,
    {
        if settings[i].name == key {
            return Some(i);
        }
        i = i + 1;
    }
    None
}

} // verus!
