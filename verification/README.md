# jobworkerp_conductor

The conductor runs workflows and workers on jobworkerp servers when cron schedules fire, when
jobs of a listened worker produce results, or when Slack events arrive, and records every
execution so that its status can be followed.

This crate is the verified core of the conductor, written in Verus:

- `execution_status`, `execution_ref_query`: how the status of a recorded execution is resolved,
  which records may be deleted, and the statements of the execution table;
- `settings`, `config_management`, `migration`: the workflow settings file, its validation, the
  rows an import writes and the file an export gives back, and the cleanup of duplicated names;
- `execution_target`, `rows`, `cache_keys`: how configurations are stored and read back;
- `slack_event_handler`: validation of Slack handler configurations;
- `dynamic`, `server_manager`, `result_listener`, `source_resolver`, `conductor`: what the
  running conductor starts, restarts and stops, and what each triggered job receives;
- `active`: the cron jobs and result listeners that run, and how a configuration event changes
  them;
- `import_run`, `trigger_run`, `status_run`: the steps of an import transaction, of a manual
  trigger or re-execution, and of the status API's deletes and cancellation, each deciding the next database or jobworkerp action from the last answer;
- `notification`: the transport of configuration change notifications;
- `laws`: properties that relate several of these operations.

`app/` holds the program around the library: the command line, the environment, and the TOML
form of the settings file.
